//! The name of the slave device, as the platform hands it out.
//!
//! macOS and FreeBSD write the name into a buffer of 128 bytes and end it
//! with a zero byte. FreeBSD names the device below `/dev/` and leaves the
//! directory out.

use vstd::prelude::*;
use crate::sys::Platform;

verus! {

/// The size of the buffer that the platform writes the slave's name into.
pub const SLAVE_NAME_BUFFER: usize = 128;

/// The directory of device files, with its closing slash: `/dev/`.
pub open spec fn dev_dir() -> Seq<u8> {
    seq![0x2f, 0x64, 0x65, 0x76, 0x2f]
}

/// Whether `name` is the name that a buffer holds: the bytes before the
/// first zero byte.
pub open spec fn is_name_in(buffer: Seq<u8>, name: Seq<u8>) -> bool {
    &&& name.len() < buffer.len()
    &&& buffer[name.len() as int] == 0
    &&& name == buffer.take(name.len() as int)
    &&& forall|i: int| 0 <= i < name.len() ==> name[i] != 0
}

/// The path of the slave device whose name is `name`: on FreeBSD the name
/// below `/dev/`, elsewhere the name itself.
pub open spec fn path_of(name: Seq<u8>, platform: Platform) -> Seq<u8> {
    match platform {
        Platform::FreeBsd => dev_dir() + name,
        _ => name,
    }
}

/// Returns the name that the platform wrote into `buffer`: the bytes before
/// the first zero byte. A buffer without a zero byte holds no name.
pub fn get_slave_name(buffer: &[u8]) -> (name: Option<Vec<u8>>)
    ensures
        match name {
            Some(name) => is_name_in(buffer@, name@),
            None => forall|i: int| 0 <= i < buffer.len() ==> buffer[i] != 0,
        },
{
    let mut name: Vec<u8> = Vec::new();
    let mut i: usize = 0;
    while i < buffer.len()
        invariant
            i <= buffer.len(),
            name@ == buffer@.take(i as int),
            forall|j: int| 0 <= j < i ==> buffer[j] != 0,
        decreases buffer.len() - i,
    {
        if buffer[i] == 0 {
            return Some(name);
        }
        name.push(buffer[i]);
        assert(name@ =~= buffer@.take(i + 1));
        i += 1;
    }
    None
}

/// Returns the path under which the slave device named `name` is opened on
/// `platform`: see [`path_of`].
pub fn slave_path(name: &[u8], platform: Platform) -> (path: Vec<u8>)
    ensures
        path@ == path_of(name@, platform),
{
    let mut path: Vec<u8> = Vec::new();
    match platform {
        Platform::FreeBsd => {
            path.push(0x2f);
            path.push(0x64);
            path.push(0x65);
            path.push(0x76);
            path.push(0x2f);
        },
        _ => {},
    }
    let ghost prefix = path@;
    assert(prefix =~= if platform is FreeBsd {
        dev_dir()
    } else {
        Seq::<u8>::empty()
    });
    let mut i: usize = 0;
    while i < name.len()
        invariant
            i <= name.len(),
            path@ == prefix + name@.take(i as int),
        decreases name.len() - i,
    {
        path.push(name[i]);
        assert(path@ =~= prefix + name@.take(i + 1));
        i += 1;
    }
    assert(name@.take(name.len() as int) =~= name@);
    assert(path@ =~= path_of(name@, platform));
    path
}

} // verus!

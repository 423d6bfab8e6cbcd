//! The exec report: how a child tells its parent that it could not exec.
//!
//! The report travels over a pipe whose write end a successful exec closes.
//! It is exactly four bytes, the error number as a signed integer with the
//! most significant byte first. A pipe that ends without a byte means that
//! the exec succeeded.

use vstd::prelude::*;
use crate::errno::{errno_of_raw, Errno, Error};

verus! {

/// The length of an exec report in bytes.
pub const REPORT_LEN: usize = 4;

/// The number that four bytes stand for, most significant byte first, read
/// as a signed integer of 32 bits.
pub open spec fn report_code(bytes: Seq<u8>) -> int
    recommends
        bytes.len() == 4,
{
    let unsigned = bytes[0] * 0x100_0000 + bytes[1] * 0x1_0000 + bytes[2] * 0x100 + bytes[3];
    if unsigned >= 0x8000_0000 {
        unsigned - 0x1_0000_0000
    } else {
        unsigned
    }
}

/// What the parent makes of the `len` bytes it read from the report pipe
/// into `bytes`: no byte means that the exec succeeded, four bytes hold the
/// error number of the child's failure, and 0 as that number counts as
/// success too. Fewer than four bytes are no report.
pub open spec fn report_verdict(bytes: Seq<u8>, len: usize) -> Result<(), Error>
    recommends
        bytes.len() == 4,
{
    if len == 0 {
        Ok(())
    } else if len < REPORT_LEN {
        Err(Error::PipeFailed(None))
    } else if report_code(bytes) == 0 {
        Ok(())
    } else {
        Err(Error::ExecFailed(errno_of_raw(report_code(bytes) as i32)))
    }
}

proof fn lemma_code_of_bytes(b0: u8, b1: u8, b2: u8, b3: u8, word: u32)
    requires
        word == (b0 as u32) << 24 | (b1 as u32) << 16 | (b2 as u32) << 8 | (b3 as u32),
    ensures
        word == b0 * 0x100_0000 + b1 * 0x1_0000 + b2 * 0x100 + b3,
{
    assert(word == (b0 as u32) * 0x100_0000 + (b1 as u32) * 0x1_0000 + (b2 as u32) * 0x100 + (
    b3 as u32)) by (bit_vector)
        requires
            word == (b0 as u32) << 24 | (b1 as u32) << 16 | (b2 as u32) << 8 | (b3 as u32),
    ;
}

proof fn lemma_bytes_of_word(word: u32)
    ensures
        word == ((word >> 24) as u8) * 0x100_0000 + (((word >> 16) & 0xff) as u8) * 0x1_0000 + (((
        word >> 8) & 0xff) as u8) * 0x100 + ((word & 0xff) as u8),
{
    let b0 = (word >> 24) as u8;
    let b1 = ((word >> 16) & 0xff) as u8;
    let b2 = ((word >> 8) & 0xff) as u8;
    let b3 = (word & 0xff) as u8;
    assert(word == (b0 as u32) * 0x100_0000 + (b1 as u32) * 0x1_0000 + (b2 as u32) * 0x100 + (
    b3 as u32)) by (bit_vector)
        requires
            b0 == (word >> 24) as u8,
            b1 == ((word >> 16) & 0xff) as u8,
            b2 == ((word >> 8) & 0xff) as u8,
            b3 == (word & 0xff) as u8,
    ;
}

/// Returns the exec report of an error number: the four bytes that stand for it.
pub fn encode_exec_report(code: i32) -> (bytes: [u8; 4])
    ensures
        report_code(bytes@) == code,
{
    let word: u32 = if code >= 0 {
        code as u32
    } else {
        (code as i64 + 0x1_0000_0000) as u32
    };
    let bytes: [u8; 4] = [
        (word >> 24) as u8,
        ((word >> 16) & 0xff) as u8,
        ((word >> 8) & 0xff) as u8,
        (word & 0xff) as u8,
    ];
    proof {
        lemma_bytes_of_word(word);
    }
    bytes
}

/// Returns the number that the four bytes of an exec report stand for.
pub fn decode_exec_report(bytes: &[u8; 4]) -> (code: i32)
    ensures
        code == report_code(bytes@),
{
    let word: u32 = (bytes[0] as u32) << 24 | (bytes[1] as u32) << 16 | (bytes[2] as u32) << 8 | (
    bytes[3] as u32);
    proof {
        lemma_code_of_bytes(bytes[0], bytes[1], bytes[2], bytes[3], word);
    }
    if word >= 0x8000_0000 {
        (word as i64 - 0x1_0000_0000) as i32
    } else {
        word as i32
    }
}

/// Judges what was read from the report pipe: see [`report_verdict`].
pub fn read_exec_report(bytes: &[u8; 4], len: usize) -> (verdict: Result<(), Error>)
    ensures
        verdict == report_verdict(bytes@, len),
{
    if len == 0 {
        Ok(())
    } else if len < REPORT_LEN {
        Err(Error::PipeFailed(None))
    } else {
        let code: i32 = decode_exec_report(bytes);
        if code == 0 {
            Ok(())
        } else {
            Err(Error::ExecFailed(Errno::from_raw(code)))
        }
    }
}

/// A full report is read as the number it stands for: as success for 0,
/// else as the failure of the exec with the error number of that value.
pub proof fn report_round_trip(code: i32, bytes: Seq<u8>)
    requires
        bytes.len() == 4,
        report_code(bytes) == code,
    ensures
        report_verdict(bytes, REPORT_LEN) == if code == 0 {
            Ok::<(), Error>(())
        } else {
            Err::<(), Error>(Error::ExecFailed(errno_of_raw(code)))
        },
{
}

/// Four bytes stand for one number only, and a number for four bytes only:
/// two reports of the same number are the same bytes.
pub proof fn report_is_unique(a: Seq<u8>, b: Seq<u8>)
    requires
        a.len() == 4,
        b.len() == 4,
        report_code(a) == report_code(b),
    ensures
        a == b,
{
    assert(a[0] == b[0] && a[1] == b[1] && a[2] == b[2] && a[3] == b[3]);
    assert(a =~= b);
}

} // verus!

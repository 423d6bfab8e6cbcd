//! Error numbers of the operating system, as far as the controller tells them apart.

use vstd::prelude::*;

verus! {

/// An error number reported by a failed operating-system call.
///
/// The named variants are the ones that some decision of this crate depends
/// on; every other error number is carried as its raw value.
#[derive(Clone, Copy, Debug, PartialEq, Eq)]
pub enum Errno {
    /// No such file or directory.
    ENOENT,
    /// No such process.
    ESRCH,
    /// Input/output error.
    EIO,
    /// No such device or address.
    ENXIO,
    /// No child processes.
    ECHILD,
    /// Resource temporarily unavailable; also the "would block" answer.
    EAGAIN,
    /// Operation not supported.
    ENOTSUP,
    /// Invalid argument.
    EINVAL,
    /// Any other error number, by its raw value on this platform.
    Other(i32),
}

/// The error number that the platform's table assigns to a raw value.
pub uninterp spec fn errno_of_raw(raw: i32) -> Errno;

/// Calls `nix::errno::Errno::from_i32`, which looks the raw value up in the
/// platform's table of error numbers and yields its "unknown" entry, whose
/// value is 0, for a value that the table lacks. The contract only names the
/// outcome: it is a function of the raw value, fixed for one platform.
#[verifier::external_body]
fn lookup_errno(raw: i32) -> (e: Errno)
    ensures
        e == errno_of_raw(raw),
{
    match nix::errno::Errno::from_i32(raw) {
        nix::errno::Errno::ENOENT => Errno::ENOENT,
        nix::errno::Errno::ESRCH => Errno::ESRCH,
        nix::errno::Errno::EIO => Errno::EIO,
        nix::errno::Errno::ENXIO => Errno::ENXIO,
        nix::errno::Errno::ECHILD => Errno::ECHILD,
        nix::errno::Errno::EAGAIN => Errno::EAGAIN,
        nix::errno::Errno::ENOTSUP => Errno::ENOTSUP,
        nix::errno::Errno::EINVAL => Errno::EINVAL,
        other => Errno::Other(other as i32),
    }
}

/// Why spawning a child on a pseudo-terminal failed.
#[derive(Clone, Copy, Debug, PartialEq, Eq)]
pub enum Error {
    /// Opening the master, granting access to the slave or unlocking it failed.
    PtyAllocFailed(Errno),
    /// The pipe for the exec report could not be made or read (with the
    /// error number), or held fewer than four bytes (without one).
    PipeFailed(Option<Errno>),
    /// The process could not be forked.
    ForkFailed(Errno),
    /// The child reported this error number before or at its exec.
    ExecFailed(Errno),
    /// Another call failed.
    SyscallFailed(Errno),
}

/// The raw value that the platform's table gives a named error number.
pub uninterp spec fn raw_of_errno(errno: Errno) -> i32;

/// Reads the value of a constant of `nix::errno::Errno`, which nix takes
/// from the platform's C library. The contract names it. An error number
/// that this crate has no name for has no constant: the answer is 0 then.
#[verifier::external_body]
fn named_errno_value(errno: Errno) -> (raw: i32)
    ensures
        raw == raw_of_errno(errno),
{
    match errno {
        Errno::ENOENT => nix::errno::Errno::ENOENT as i32,
        Errno::ESRCH => nix::errno::Errno::ESRCH as i32,
        Errno::EIO => nix::errno::Errno::EIO as i32,
        Errno::ENXIO => nix::errno::Errno::ENXIO as i32,
        Errno::ECHILD => nix::errno::Errno::ECHILD as i32,
        Errno::EAGAIN => nix::errno::Errno::EAGAIN as i32,
        Errno::ENOTSUP => nix::errno::Errno::ENOTSUP as i32,
        Errno::EINVAL => nix::errno::Errno::EINVAL as i32,
        Errno::Other(_) => nix::errno::Errno::UnknownErrno as i32,
    }
}

/// The raw value of an error number: its own for one that is carried by
/// value, the platform's for a named one.
pub open spec fn errno_value(errno: Errno) -> i32 {
    match errno {
        Errno::Other(raw) => raw,
        _ => raw_of_errno(errno),
    }
}

impl Errno {
    /// Returns the raw value of the error number: see [`errno_value`].
    pub fn raw(&self) -> (raw: i32)
        ensures
            raw == errno_value(*self),
    {
        match self {
            Errno::Other(raw) => *raw,
            _ => named_errno_value(*self),
        }
    }

    /// The error number of a raw value, as the platform's table has it.
    pub fn from_raw(raw: i32) -> (e: Errno)
        ensures
            e == errno_of_raw(raw),
    {
        lookup_errno(raw)
    }
}

} // verus!

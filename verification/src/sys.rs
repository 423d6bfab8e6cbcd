//! The operating-system interface that the controller consumes.
//!
//! A [`Syscall`] is a request that a machine of this crate makes of its
//! driver; a [`Response`] is what the driver hands back. Every value here is
//! plain data, so a contract can speak of it directly.

use vstd::prelude::*;
use crate::errno::Errno;
use crate::signal::Signal;

verus! {

/// The platforms whose ways with terminals the controller knows.
#[derive(Clone, Copy, Debug, PartialEq, Eq)]
pub enum Platform {
    /// Linux.
    Linux,
    /// macOS.
    MacOs,
    /// FreeBSD.
    FreeBsd,
}

/// The state of a child process, as a wait call reports it.
#[derive(Clone, Copy, Debug, PartialEq, Eq)]
pub enum WaitStatus {
    /// The child has not changed state: it is still running.
    StillAlive,
    /// The child exited normally with the given code.
    Exited { pid: i32, code: i32 },
    /// The child was killed by a signal; `core_dumped` tells whether it left a core file.
    Signaled { pid: i32, signal: Signal, core_dumped: bool },
    /// The child is stopped by a signal.
    Stopped { pid: i32, signal: Signal },
    /// The child was resumed.
    Continued { pid: i32 },
    /// The child is stopped by a tracer's event.
    Traced { pid: i32 },
}

/// Which side of a fork the caller is on.
#[derive(Clone, Copy, Debug, PartialEq, Eq)]
pub enum ForkResult {
    /// In the parent; `child` is the new process.
    Parent { child: i32 },
    /// In the new process.
    Child,
}

/// The attributes of a terminal that the controller reads or changes: the
/// four flag words and four of the special characters. A driver leaves every
/// other attribute of the terminal as it finds it.
#[derive(Clone, Copy, Debug, PartialEq, Eq)]
pub struct TermSettings {
    /// Input mode flags.
    pub input: u64,
    /// Output mode flags.
    pub output: u64,
    /// Control mode flags.
    pub control: u64,
    /// Local mode flags.
    pub local: u64,
    /// The end-of-file character.
    pub veof: u8,
    /// The interrupt character.
    pub vintr: u8,
    /// The minimum number of bytes of a read in non-canonical mode.
    pub vmin: u8,
    /// The timeout of a read in non-canonical mode, in tenths of a second.
    pub vtime: u8,
}

/// The size of a terminal window.
#[derive(Clone, Copy, Debug, PartialEq, Eq)]
pub struct Winsize {
    /// Rows, in characters.
    pub rows: u16,
    /// Columns, in characters.
    pub cols: u16,
    /// Width in pixels; unused.
    pub xpixel: u16,
    /// Height in pixels; unused.
    pub ypixel: u16,
}

/// A terminal device that a machine asks to open.
#[derive(Clone, Copy, Debug, PartialEq, Eq)]
pub enum TtyPath {
    /// The controlling terminal of the calling process, `/dev/tty`.
    Controlling,
    /// The slave device of the pseudo-terminal whose master is `master`,
    /// under the name that the platform gives it.
    Slave { master: i32 },
}

/// How a terminal device is opened.
#[derive(Clone, Copy, Debug, PartialEq, Eq)]
pub enum OpenMode {
    /// For reading and writing; the device may become the controlling terminal.
    ReadWrite,
    /// For reading and writing, without making the device the controlling terminal.
    ReadWriteNoCtty,
    /// For writing only.
    WriteOnly,
}

/// A request to the operating system.
#[derive(Clone, Copy, Debug, PartialEq, Eq)]
pub enum Syscall {
    /// Open a new pseudo-terminal master for reading and writing. Answer: `Fd`.
    OpenPty,
    /// Grant access to the slave of `master`. Answer: `Unit`.
    GrantPty { master: i32 },
    /// Unlock the slave of `master`. Answer: `Unit`.
    UnlockPty { master: i32 },
    /// Look up the name of the slave of `master`. Answer: `Unit`.
    SlaveName { master: i32 },
    /// Create an anonymous pipe. Answer: `Pipe`.
    Pipe,
    /// Fork the process. Answer: `Forked`.
    Fork,
    /// Open a terminal device. Answer: `Fd`.
    Open { path: TtyPath, mode: OpenMode },
    /// Close a descriptor. Answer: `Unit`.
    Close { fd: i32 },
    /// Duplicate a descriptor. Answer: `Fd`.
    Dup { fd: i32 },
    /// Make `to` a copy of `from`, closing `to` first if it is open. Answer: `Unit`.
    Dup2 { from: i32, to: i32 },
    /// Start a new session. Answer: `Unit`.
    SetSid,
    /// Make the terminal `fd` the controlling terminal of the session. Answer: `Unit`.
    SetControllingTty { fd: i32 },
    /// Read the attributes of the terminal `fd`. Answer: `Termios`.
    GetTermios { fd: i32 },
    /// Set the attributes of the terminal `fd` at once. Answer: `Unit`.
    SetTermios { fd: i32, settings: TermSettings },
    /// Read the window size of the terminal `fd`. Answer: `Window`.
    GetWindowSize { fd: i32 },
    /// Set the window size of the terminal `fd`. Answer: `Unit`.
    SetWindowSize { fd: i32, size: Winsize },
    /// Tell whether `fd` is a terminal. Answer: `Bool`.
    IsATty { fd: i32 },
    /// Read the status flags of the open file behind `fd`. Answer: `Flags`.
    GetFlags { fd: i32 },
    /// Set the status flags of the open file behind `fd`. Answer: `Unit`.
    SetFlags { fd: i32, flags: i32 },
    /// Mark `fd` to be closed by a successful exec. Answer: `Unit`.
    SetCloseOnExec { fd: i32 },
    /// Ask how many descriptors a process may have open. Answer: `Limit`.
    OpenMax,
    /// Replace the process by the configured command. Answers only when it fails.
    Exec,
    /// Read up to four bytes of an exec report from `fd`. Answer: `Report`.
    ReadReport { fd: i32 },
    /// Write the exec report of the error number `code` to `fd`. Answer: `Unit`.
    WriteReport { fd: i32, code: i32 },
    /// Read from `fd` into a buffer of `capacity` bytes. Answer: `Read`.
    Read { fd: i32, capacity: usize },
    /// Send `signal` to the process `pid`. Answer: `Unit`.
    Kill { pid: i32, signal: Signal },
    /// Ask for the status of the child `pid`; wait for a change unless `nohang`. Answer: `Status`.
    WaitPid { pid: i32, nohang: bool },
    /// Suspend the caller for `nanos` nanoseconds. Answer: `Unit`.
    Sleep { nanos: u128 },
    /// Read a clock that never runs backwards. Answer: `Time`.
    Clock,
}

/// What a successful request yields.
#[derive(Clone, Copy, Debug, PartialEq, Eq)]
pub enum Reply {
    /// Nothing but success.
    Unit,
    /// A new descriptor.
    Fd(i32),
    /// The two ends of a new pipe.
    Pipe { read: i32, write: i32 },
    /// The side of a fork.
    Forked(ForkResult),
    /// The attributes of a terminal.
    Termios(TermSettings),
    /// The window size of a terminal.
    Window(Winsize),
    /// A yes or no.
    Bool(bool),
    /// The status flags of an open file.
    Flags(i32),
    /// A limit of the system, if it has one.
    Limit(Option<i64>),
    /// The first `len` bytes of `bytes` were read from an exec report pipe.
    Report { bytes: [u8; 4], len: usize },
    /// `count` bytes were read; 0 at the end of the stream.
    Read { count: usize },
    /// The status of a child.
    Status(WaitStatus),
    /// The reading of the clock, in nanoseconds since an origin that the driver keeps.
    Time { nanos: u128 },
}

/// The answer to a request: what it yielded, or the error number it failed with.
pub type Response = Result<Reply, Errno>;

/// What a machine wants next: a request performed, or nothing more, with its outcome.
#[derive(Debug, PartialEq, Eq)]
pub enum Step<T> {
    /// Perform this request and hand the answer to the machine.
    Call(Syscall),
    /// The machine has finished with this outcome.
    Done(T),
}

} // verus!

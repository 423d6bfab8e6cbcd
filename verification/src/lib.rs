//! Verified core of a pseudo-terminal process controller.
//!
//! The crate holds every decision that spawning a child on a pseudo-terminal
//! and controlling it afterwards takes: which operating-system call comes
//! next, how its answer is read, what is reported to the caller. It performs
//! no call itself. A driver executes each [`sys::Syscall`] that a machine of
//! this crate asks for and hands the answer back as a [`sys::Response`].
//!
//! A machine is a pair of functions: one that begins an operation and one
//! that takes an answer, both returning the next state and a
//! [`sys::Step`], which is either the next request or the outcome. Beside
//! each machine stands the function that says what it does, and what is
//! proved of all its runs.
//!
//! - [`spawn`]: the parent's side of a spawn, which leaks no descriptor.
//! - [`child`]: the child's side, up to its exec or its report of a failure.
//! - [`tty`]: how the child takes the slave as its controlling terminal.
//! - [`process`]: the controller, how it terminates the child, and how it
//!   is released.
//! - [`control`]: window size, echo, handles.
//! - [`stream`]: reads that end cleanly, and reads that do not block.
//! - [`termios`], [`window`], [`descriptors`], [`pty`], [`wire`], [`send`]:
//!   the values that the machines work with.
//! - [`sys`], [`errno`], [`signal`]: the vocabulary.

pub mod errno;
pub mod signal;
pub mod sys;
pub mod process;
pub mod termios;
pub mod stream;
pub mod wire;
pub mod tty;
pub mod descriptors;
pub mod window;
pub mod child;
pub mod spawn;
pub mod control;
pub mod pty;
pub mod send;

pub use errno::{Errno, Error};
pub use process::PtyProcess;
pub use signal::Signal;
pub use stream::Stream;
pub use sys::WaitStatus;
pub use termios::set_raw;

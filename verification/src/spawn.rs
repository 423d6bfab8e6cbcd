//! How a child is spawned on a new pseudo-terminal: the parent's side.
//!
//! The parent notes the end-of-file and interrupt characters of its own
//! terminal, allocates the pseudo-terminal, makes the report pipe and forks.
//! Then it waits for the pipe to end, which means that the child has become
//! the command, or for the child's report. On every path that fails it
//! closes each descriptor that it opened.

use vstd::prelude::*;
use crate::descriptors::{NO_DESCRIPTOR, STDIN_FILENO, STDOUT_FILENO};
use crate::errno::{Errno, Error};
use crate::process::PtyProcess;
use crate::sys::{ForkResult, Reply, Response, Step, Syscall};
use crate::termios::{DEFAULT_INTR_CHAR, DEFAULT_VEOF_CHAR};
use crate::tty::{opened, read_opened};
use crate::window::{set_term_size, window, DEFAULT_TERM_COLS, DEFAULT_TERM_ROWS};
use crate::wire::{read_exec_report, report_verdict};

verus! {

/// What the parent is doing: the request that it made last.
#[derive(Clone, Copy, Debug, PartialEq, Eq)]
pub enum SpawnPhase {
    /// It asked for the attributes of its standard input.
    ReadingStdin,
    /// It asked for the attributes of its standard output.
    ReadingStdout,
    /// It opened a master.
    OpeningPty,
    /// It granted access to the slave.
    Granting,
    /// It unlocked the slave.
    Unlocking,
    /// It made the report pipe.
    Piping,
    /// It forked.
    Forking,
    /// It closed its copy of the write end of the report pipe.
    ClosingReportWrite,
    /// It read the report pipe.
    ReadingReport,
    /// It waited for the child that reported `error` to be gone.
    Reaping { error: Error },
    /// It closed the read end of the report pipe.
    ClosingReportRead,
    /// It set the size of the terminal.
    SizingWindow,
    /// It closed a descriptor because the spawn failed with `error`.
    Failing { error: Error },
}

/// The state of a spawn: the characters found so far, the descriptors that
/// the parent holds (`NO_DESCRIPTOR` for one that it does not hold), the
/// child's pid once it is forked (0 before), and the phase.
#[derive(Clone, Copy, Debug, PartialEq, Eq)]
pub struct Spawn {
    /// The end-of-file character found so far.
    pub eof_char: u8,
    /// The interrupt character found so far.
    pub intr_char: u8,
    /// The master, while the parent holds it.
    pub master: i32,
    /// The read end of the report pipe, while the parent holds it.
    pub report_read: i32,
    /// The write end of the report pipe, while the parent holds it.
    pub report_write: i32,
    /// The pid of the child; 0 before the fork.
    pub child: i32,
    /// What the spawn is waiting for.
    pub phase: SpawnPhase,
}

/// What a spawn that succeeded leaves behind, on either side of the fork.
#[derive(Debug, PartialEq, Eq)]
pub enum Spawned {
    /// In the parent: the controller of the child.
    Parent(PtyProcess),
    /// In the child: the descriptors that it starts its own work with.
    Child { master: i32, report_read: i32, report_write: i32 },
}

/// The outcome of a spawn.
pub type SpawnOutcome = Result<Spawned, Error>;

/// The descriptors that the parent holds in a state.
pub open spec fn held(state: Spawn) -> Set<i32> {
    Set::new(
        |fd: i32|
            fd >= 0 && (fd == state.master || fd == state.report_read || fd
                == state.report_write),
    )
}

/// How the spawn begins: with no descriptor held, the default characters,
/// and a look at the terminal on the standard input.
pub open spec fn spawn_begin() -> (Spawn, Step<SpawnOutcome>) {
    (
        Spawn {
            eof_char: DEFAULT_VEOF_CHAR,
            intr_char: DEFAULT_INTR_CHAR,
            master: NO_DESCRIPTOR,
            report_read: NO_DESCRIPTOR,
            report_write: NO_DESCRIPTOR,
            child: 0,
            phase: SpawnPhase::ReadingStdin,
        },
        Step::Call(Syscall::GetTermios { fd: STDIN_FILENO }),
    )
}

/// How the spawn fails with `error`: the parent closes what it holds, the
/// write end of the pipe first, then the read end, then the master, and
/// finishes with the error when nothing is left.
pub open spec fn spawn_fail(state: Spawn, error: Error) -> (Spawn, Step<SpawnOutcome>) {
    let failing = Spawn { phase: SpawnPhase::Failing { error }, ..state };
    if state.report_write >= 0 {
        (
            Spawn { report_write: NO_DESCRIPTOR, ..failing },
            Step::Call(Syscall::Close { fd: state.report_write }),
        )
    } else if state.report_read >= 0 {
        (
            Spawn { report_read: NO_DESCRIPTOR, ..failing },
            Step::Call(Syscall::Close { fd: state.report_read }),
        )
    } else if state.master >= 0 {
        (Spawn { master: NO_DESCRIPTOR, ..failing }, Step::Call(Syscall::Close { fd: state.master }))
    } else {
        (failing, Step::Done(Err(error)))
    }
}

/// How the spawn goes on once the parent's own terminal was looked at: it
/// opens a master.
pub open spec fn spawn_allocate(state: Spawn) -> (Spawn, Step<SpawnOutcome>) {
    (Spawn { phase: SpawnPhase::OpeningPty, ..state }, Step::Call(Syscall::OpenPty))
}

/// How the spawn goes on when `answer` arrives in `state`. In order:
///
/// 1. The end-of-file and interrupt characters are those of the terminal on
///    the standard input or, if that does not answer, on the standard
///    output, or else `^D` and `^C`.
/// 2. The master is opened, access to the slave granted, the slave unlocked.
///    A failure here is `PtyAllocFailed`.
/// 3. The report pipe is made; a failure is `PipeFailed`.
/// 4. The process forks; a failure is `ForkFailed`. In the child the spawn
///    is over: it hands on the three descriptors.
/// 5. The parent closes its write end of the pipe and reads the pipe. No
///    byte, or a report of 0, means that the exec succeeded; a report of an
///    error number is `ExecFailed`, and the parent waits for the child to be
///    gone; fewer bytes than a report, or a failed read, is `PipeFailed`.
/// 6. The parent closes the read end and sets the window of the master to
///    80 columns and 24 rows; a failure in these or in closing the write end
///    is `SyscallFailed`. The controller is made of the master, the child's
///    pid and the two characters.
///
/// An answer of the wrong kind counts as a failure with `EINVAL`, and so
/// does a descriptor or a pid that is none. Whenever the spawn fails the
/// parent first closes what it holds: see [`spawn_fail`].
pub open spec fn spawn_next(state: Spawn, answer: Response) -> (Spawn, Step<SpawnOutcome>) {
    match state.phase {
        SpawnPhase::ReadingStdin => match answer {
            Ok(Reply::Termios(settings)) => spawn_allocate(
                Spawn { eof_char: settings.veof, intr_char: settings.vintr, ..state },
            ),
            _ => (
                Spawn { phase: SpawnPhase::ReadingStdout, ..state },
                Step::Call(Syscall::GetTermios { fd: STDOUT_FILENO }),
            ),
        },
        SpawnPhase::ReadingStdout => match answer {
            Ok(Reply::Termios(settings)) => spawn_allocate(
                Spawn { eof_char: settings.veof, intr_char: settings.vintr, ..state },
            ),
            _ => spawn_allocate(state),
        },
        SpawnPhase::OpeningPty => match opened(answer) {
            Ok(master) => if master >= 0 {
                (
                    Spawn { master, phase: SpawnPhase::Granting, ..state },
                    Step::Call(Syscall::GrantPty { master }),
                )
            } else {
                spawn_fail(state, Error::PtyAllocFailed(Errno::EINVAL))
            },
            Err(e) => spawn_fail(state, Error::PtyAllocFailed(e)),
        },
        SpawnPhase::Granting => match answer {
            Ok(_) => (
                Spawn { phase: SpawnPhase::Unlocking, ..state },
                Step::Call(Syscall::UnlockPty { master: state.master }),
            ),
            Err(e) => spawn_fail(state, Error::PtyAllocFailed(e)),
        },
        SpawnPhase::Unlocking => match answer {
            Ok(_) => (Spawn { phase: SpawnPhase::Piping, ..state }, Step::Call(Syscall::Pipe)),
            Err(e) => spawn_fail(state, Error::PtyAllocFailed(e)),
        },
        SpawnPhase::Piping => match answer {
            Ok(Reply::Pipe { read, write }) => {
                let piped = Spawn { report_read: read, report_write: write, ..state };
                if read >= 0 && write >= 0 {
                    (Spawn { phase: SpawnPhase::Forking, ..piped }, Step::Call(Syscall::Fork))
                } else {
                    spawn_fail(piped, Error::PipeFailed(Some(Errno::EINVAL)))
                }
            },
            Ok(_) => spawn_fail(state, Error::PipeFailed(Some(Errno::EINVAL))),
            Err(e) => spawn_fail(state, Error::PipeFailed(Some(e))),
        },
        SpawnPhase::Forking => match answer {
            Ok(Reply::Forked(ForkResult::Parent { child })) => if child > 0 {
                (
                    Spawn {
                        child,
                        report_write: NO_DESCRIPTOR,
                        phase: SpawnPhase::ClosingReportWrite,
                        ..state
                    },
                    Step::Call(Syscall::Close { fd: state.report_write }),
                )
            } else {
                spawn_fail(state, Error::ForkFailed(Errno::EINVAL))
            },
            Ok(Reply::Forked(ForkResult::Child)) => (
                state,
                Step::Done(
                    Ok(
                        Spawned::Child {
                            master: state.master,
                            report_read: state.report_read,
                            report_write: state.report_write,
                        },
                    ),
                ),
            ),
            Ok(_) => spawn_fail(state, Error::ForkFailed(Errno::EINVAL)),
            Err(e) => spawn_fail(state, Error::ForkFailed(e)),
        },
        SpawnPhase::ClosingReportWrite => match answer {
            Ok(_) => (
                Spawn { phase: SpawnPhase::ReadingReport, ..state },
                Step::Call(Syscall::ReadReport { fd: state.report_read }),
            ),
            Err(e) => spawn_fail(state, Error::SyscallFailed(e)),
        },
        SpawnPhase::ReadingReport => match answer {
            Ok(Reply::Report { bytes, len }) => match report_verdict(bytes@, len) {
                Ok(_) => (
                    Spawn {
                        report_read: NO_DESCRIPTOR,
                        phase: SpawnPhase::ClosingReportRead,
                        ..state
                    },
                    Step::Call(Syscall::Close { fd: state.report_read }),
                ),
                Err(Error::ExecFailed(errno)) => (
                    Spawn { phase: SpawnPhase::Reaping { error: Error::ExecFailed(errno) }, ..state },
                    Step::Call(Syscall::WaitPid { pid: state.child, nohang: false }),
                ),
                Err(error) => spawn_fail(state, error),
            },
            Ok(_) => spawn_fail(state, Error::PipeFailed(Some(Errno::EINVAL))),
            Err(e) => spawn_fail(state, Error::PipeFailed(Some(e))),
        },
        SpawnPhase::Reaping { error } => spawn_fail(state, error),
        SpawnPhase::ClosingReportRead => match answer {
            Ok(_) => (
                Spawn { phase: SpawnPhase::SizingWindow, ..state },
                Step::Call(
                    Syscall::SetWindowSize {
                        fd: state.master,
                        size: window(DEFAULT_TERM_COLS, DEFAULT_TERM_ROWS),
                    },
                ),
            ),
            Err(e) => spawn_fail(state, Error::SyscallFailed(e)),
        },
        SpawnPhase::SizingWindow => match answer {
            Ok(_) => if state.child > 0 && state.master >= 0 {
                (
                    state,
                    Step::Done(
                        Ok(
                            Spawned::Parent(
                                PtyProcess::spec_new(
                                    state.master,
                                    state.child,
                                    state.eof_char,
                                    state.intr_char,
                                ),
                            ),
                        ),
                    ),
                )
            } else {
                spawn_fail(state, Error::SyscallFailed(Errno::EINVAL))
            },
            Err(e) => spawn_fail(state, Error::SyscallFailed(e)),
        },
        SpawnPhase::Failing { error } => spawn_fail(state, error),
    }
}

/// Where a spawn stands after the answers `answers`, each handed to the
/// machine in turn until it has finished.
pub open spec fn spawn_run(answers: Seq<Response>) -> (Spawn, Step<SpawnOutcome>)
    decreases answers.len(),
{
    if answers.len() == 0 {
        spawn_begin()
    } else {
        let (state, step) = spawn_run(answers.drop_last());
        match step {
            Step::Done(_) => (state, step),
            Step::Call(_) => spawn_next(state, answers.last()),
        }
    }
}

fn fail(state: Spawn, error: Error) -> (r: (Spawn, Step<SpawnOutcome>))
    ensures
        r == spawn_fail(state, error),
{
    let failing = Spawn { phase: SpawnPhase::Failing { error }, ..state };
    if state.report_write >= 0 {
        (
            Spawn { report_write: NO_DESCRIPTOR, ..failing },
            Step::Call(Syscall::Close { fd: state.report_write }),
        )
    } else if state.report_read >= 0 {
        (
            Spawn { report_read: NO_DESCRIPTOR, ..failing },
            Step::Call(Syscall::Close { fd: state.report_read }),
        )
    } else if state.master >= 0 {
        (Spawn { master: NO_DESCRIPTOR, ..failing }, Step::Call(Syscall::Close { fd: state.master }))
    } else {
        (failing, Step::Done(Err(error)))
    }
}

fn allocate(state: Spawn) -> (r: (Spawn, Step<SpawnOutcome>))
    ensures
        r == spawn_allocate(state),
{
    (Spawn { phase: SpawnPhase::OpeningPty, ..state }, Step::Call(Syscall::OpenPty))
}

impl PtyProcess {
    /// Begins to spawn a child on a new pseudo-terminal. Returns the
    /// machine's first state and step; [`PtyProcess::spawn_step`] goes on.
    pub fn spawn() -> (r: (Spawn, Step<SpawnOutcome>))
        ensures
            r == spawn_begin(),
    {
        (
            Spawn {
                eof_char: DEFAULT_VEOF_CHAR,
                intr_char: DEFAULT_INTR_CHAR,
                master: NO_DESCRIPTOR,
                report_read: NO_DESCRIPTOR,
                report_write: NO_DESCRIPTOR,
                child: 0,
                phase: SpawnPhase::ReadingStdin,
            },
            Step::Call(Syscall::GetTermios { fd: STDIN_FILENO }),
        )
    }

    /// Takes the answer to the request that the spawn made last, and returns
    /// the next state and step: see [`spawn_next`].
    pub fn spawn_step(state: Spawn, answer: Response) -> (r: (Spawn, Step<SpawnOutcome>))
        ensures
            r == spawn_next(state, answer),
    {
        match state.phase {
            SpawnPhase::ReadingStdin => match answer {
                Ok(Reply::Termios(settings)) => allocate(
                    Spawn { eof_char: settings.veof, intr_char: settings.vintr, ..state },
                ),
                _ => (
                    Spawn { phase: SpawnPhase::ReadingStdout, ..state },
                    Step::Call(Syscall::GetTermios { fd: STDOUT_FILENO }),
                ),
            },
            SpawnPhase::ReadingStdout => match answer {
                Ok(Reply::Termios(settings)) => allocate(
                    Spawn { eof_char: settings.veof, intr_char: settings.vintr, ..state },
                ),
                _ => allocate(state),
            },
            SpawnPhase::OpeningPty => match read_opened(answer) {
                Ok(master) => if master >= 0 {
                    (
                        Spawn { master, phase: SpawnPhase::Granting, ..state },
                        Step::Call(Syscall::GrantPty { master }),
                    )
                } else {
                    fail(state, Error::PtyAllocFailed(Errno::EINVAL))
                },
                Err(e) => fail(state, Error::PtyAllocFailed(e)),
            },
            SpawnPhase::Granting => match answer {
                Ok(_) => (
                    Spawn { phase: SpawnPhase::Unlocking, ..state },
                    Step::Call(Syscall::UnlockPty { master: state.master }),
                ),
                Err(e) => fail(state, Error::PtyAllocFailed(e)),
            },
            SpawnPhase::Unlocking => match answer {
                Ok(_) => (Spawn { phase: SpawnPhase::Piping, ..state }, Step::Call(Syscall::Pipe)),
                Err(e) => fail(state, Error::PtyAllocFailed(e)),
            },
            SpawnPhase::Piping => match answer {
                Ok(Reply::Pipe { read, write }) => {
                    let piped = Spawn { report_read: read, report_write: write, ..state };
                    if read >= 0 && write >= 0 {
                        (Spawn { phase: SpawnPhase::Forking, ..piped }, Step::Call(Syscall::Fork))
                    } else {
                        fail(piped, Error::PipeFailed(Some(Errno::EINVAL)))
                    }
                },
                Ok(_) => fail(state, Error::PipeFailed(Some(Errno::EINVAL))),
                Err(e) => fail(state, Error::PipeFailed(Some(e))),
            },
            SpawnPhase::Forking => match answer {
                Ok(Reply::Forked(ForkResult::Parent { child })) => if child > 0 {
                    (
                        Spawn {
                            child,
                            report_write: NO_DESCRIPTOR,
                            phase: SpawnPhase::ClosingReportWrite,
                            ..state
                        },
                        Step::Call(Syscall::Close { fd: state.report_write }),
                    )
                } else {
                    fail(state, Error::ForkFailed(Errno::EINVAL))
                },
                Ok(Reply::Forked(ForkResult::Child)) => (
                    state,
                    Step::Done(
                        Ok(
                            Spawned::Child {
                                master: state.master,
                                report_read: state.report_read,
                                report_write: state.report_write,
                            },
                        ),
                    ),
                ),
                Ok(_) => fail(state, Error::ForkFailed(Errno::EINVAL)),
                Err(e) => fail(state, Error::ForkFailed(e)),
            },
            SpawnPhase::ClosingReportWrite => match answer {
                Ok(_) => (
                    Spawn { phase: SpawnPhase::ReadingReport, ..state },
                    Step::Call(Syscall::ReadReport { fd: state.report_read }),
                ),
                Err(e) => fail(state, Error::SyscallFailed(e)),
            },
            SpawnPhase::ReadingReport => match answer {
                Ok(Reply::Report { bytes, len }) => match read_exec_report(&bytes, len) {
                    Ok(_) => (
                        Spawn {
                            report_read: NO_DESCRIPTOR,
                            phase: SpawnPhase::ClosingReportRead,
                            ..state
                        },
                        Step::Call(Syscall::Close { fd: state.report_read }),
                    ),
                    Err(Error::ExecFailed(errno)) => (
                        Spawn {
                            phase: SpawnPhase::Reaping { error: Error::ExecFailed(errno) },
                            ..state
                        },
                        Step::Call(Syscall::WaitPid { pid: state.child, nohang: false }),
                    ),
                    Err(error) => fail(state, error),
                },
                Ok(_) => fail(state, Error::PipeFailed(Some(Errno::EINVAL))),
                Err(e) => fail(state, Error::PipeFailed(Some(e))),
            },
            SpawnPhase::Reaping { error } => fail(state, error),
            SpawnPhase::ClosingReportRead => match answer {
                Ok(_) => (
                    Spawn { phase: SpawnPhase::SizingWindow, ..state },
                    Step::Call(set_term_size(state.master, DEFAULT_TERM_COLS, DEFAULT_TERM_ROWS)),
                ),
                Err(e) => fail(state, Error::SyscallFailed(e)),
            },
            SpawnPhase::SizingWindow => match answer {
                Ok(_) => match PtyProcess::new(
                    state.master,
                    state.child,
                    state.eof_char,
                    state.intr_char,
                ) {
                    Some(process) => (state, Step::Done(Ok(Spawned::Parent(process)))),
                    None => fail(state, Error::SyscallFailed(Errno::EINVAL)),
                },
                Err(e) => fail(state, Error::SyscallFailed(e)),
            },
            SpawnPhase::Failing { error } => fail(state, error),
        }
    }
}


/// The descriptors that an answer hands to the parent in a state: the
/// master when it is opened, the two ends of the pipe when it is made.
pub open spec fn gained(state: Spawn, answer: Response) -> Set<i32> {
    match (state.phase, answer) {
        (SpawnPhase::OpeningPty, Ok(Reply::Fd(fd))) => Set::new(|d: i32| d >= 0 && d == fd),
        (SpawnPhase::Piping, Ok(Reply::Pipe { read, write })) => Set::new(
            |d: i32| d >= 0 && (d == read || d == write),
        ),
        _ => Set::empty(),
    }
}

/// What the states of a spawn have in common, phase by phase: which
/// descriptors the parent holds, and whether it has a child.
pub open spec fn spawn_wf(state: Spawn) -> bool {
    match state.phase {
        SpawnPhase::ReadingStdin | SpawnPhase::ReadingStdout | SpawnPhase::OpeningPty => {
            &&& state.master < 0
            &&& state.report_read < 0
            &&& state.report_write < 0
            &&& state.child == 0
        },
        SpawnPhase::Granting | SpawnPhase::Unlocking | SpawnPhase::Piping => {
            &&& state.master >= 0
            &&& state.report_read < 0
            &&& state.report_write < 0
            &&& state.child == 0
        },
        SpawnPhase::Forking => {
            &&& state.master >= 0
            &&& state.report_read >= 0
            &&& state.report_write >= 0
            &&& state.child == 0
        },
        SpawnPhase::ClosingReportWrite | SpawnPhase::ReadingReport | SpawnPhase::Reaping { .. } => {
            &&& state.master >= 0
            &&& state.report_read >= 0
            &&& state.report_write < 0
            &&& state.child > 0
        },
        SpawnPhase::ClosingReportRead | SpawnPhase::SizingWindow => {
            &&& state.master >= 0
            &&& state.report_read < 0
            &&& state.report_write < 0
            &&& state.child > 0
        },
        SpawnPhase::Failing { .. } => true,
    }
}

/// The parent keeps books on its descriptors. After each step from a state
/// that is as its phase says, it holds nothing but what it held before or
/// was just handed; it asks to close only what it holds; and whatever has
/// left its books was asked to be closed in that step.
pub proof fn spawn_keeps_books(state: Spawn, answer: Response)
    requires
        spawn_wf(state),
    ensures
        ({
            let (next, step) = spawn_next(state, answer);
            let had = held(state).union(gained(state, answer));
            &&& held(next).subset_of(had)
            &&& step matches Step::Call(Syscall::Close { fd }) ==> had.contains(fd)
            &&& forall|fd: i32| #[trigger]
                had.contains(fd) && !held(next).contains(fd) ==> step == Step::<SpawnOutcome>::Call(
                    Syscall::Close { fd },
                )
        }),
{
}

/// In every run of a spawn the state is as its phase says, and the child's
/// pid, once there is one, is the pid that the fork answered.
pub proof fn spawn_run_wf(answers: Seq<Response>)
    ensures
        spawn_wf(spawn_run(answers).0),
        spawn_run(answers).0.child != 0 ==> exists|i: int|
            0 <= i < answers.len() && answers[i] == Ok::<Reply, Errno>(
                Reply::Forked(ForkResult::Parent { child: spawn_run(answers).0.child }),
            ),
    decreases answers.len(),
{
    if answers.len() > 0 {
        let before = answers.drop_last();
        spawn_run_wf(before);
        let (state, step) = spawn_run(before);
        let after = spawn_run(answers).0;
        if after.child != 0 {
            if state.child == after.child {
                let i = choose|i: int|
                    0 <= i < before.len() && before[i] == Ok::<Reply, Errno>(
                        Reply::Forked(ForkResult::Parent { child: state.child }),
                    );
                assert(answers[i] == before[i]);
            } else {
                assert(answers[answers.len() - 1] == answers.last());
            }
        }
    }
}

/// When a spawn has failed, the parent holds no descriptor any more.
pub proof fn spawn_failure_holds_nothing(answers: Seq<Response>)
    requires
        spawn_run(answers).1 matches Step::Done(Err(_)),
    ensures
        held(spawn_run(answers).0) == Set::<i32>::empty(),
    decreases answers.len(),
{
    if answers.len() > 0 {
        let before = answers.drop_last();
        let (state, step) = spawn_run(before);
        if step is Done {
            spawn_failure_holds_nothing(before);
        }
    }
    assert(held(spawn_run(answers).0) =~= Set::<i32>::empty());
}

/// A spawn that succeeds in the parent leaves a controller of a child that
/// exists: its pid is positive and is the pid that the fork answered, its
/// master is the one descriptor that the parent still holds, and it pauses
/// for the default delay.
pub proof fn spawn_success_controls_child(answers: Seq<Response>, process: PtyProcess)
    requires
        spawn_run(answers).1 == Step::<SpawnOutcome>::Done(Ok(Spawned::Parent(process))),
    ensures
        process.spec_pid() > 0,
        process.spec_master() >= 0,
        exists|i: int|
            0 <= i < answers.len() && answers[i] == Ok::<Reply, Errno>(
                Reply::Forked(ForkResult::Parent { child: process.spec_pid() }),
            ),
        held(spawn_run(answers).0) == set![process.spec_master()],
        process.spec_eof_char() == spawn_run(answers).0.eof_char,
        process.spec_intr_char() == spawn_run(answers).0.intr_char,
        process.spec_terminate_delay() == crate::process::DEFAULT_TERMINATE_DELAY,
    decreases answers.len(),
{
    broadcast use PtyProcess::new_controller;

    if answers.len() > 0 {
        let before = answers.drop_last();
        let (state, step) = spawn_run(before);
        if step is Done {
            spawn_success_controls_child(before, process);
            let i = choose|i: int|
                0 <= i < before.len() && before[i] == Ok::<Reply, Errno>(
                    Reply::Forked(ForkResult::Parent { child: process.spec_pid() }),
                );
            assert(answers[i] == before[i]);
        } else {
            spawn_run_wf(before);
            spawn_run_wf(answers);
            assert(held(spawn_run(answers).0) =~= set![process.spec_master()]);
        }
    }
}


/// The requests that a spawn has made after the answers `answers`, in the
/// order in which it made them.
pub open spec fn spawn_calls(answers: Seq<Response>) -> Seq<Syscall>
    decreases answers.len(),
{
    if answers.len() == 0 {
        seq![Syscall::GetTermios { fd: STDIN_FILENO }]
    } else {
        let before = spawn_calls(answers.drop_last());
        match (spawn_run(answers.drop_last()).1, spawn_run(answers).1) {
            (Step::Call(_), Step::Call(call)) => before.push(call),
            _ => before,
        }
    }
}

/// Whether some answer of the run handed the descriptor `fd` to the parent.
pub open spec fn was_handed(answers: Seq<Response>, fd: i32) -> bool {
    exists|i: int|
        0 <= i < answers.len() && (#[trigger] spawn_run(answers.take(i))).1 is Call && gained(
            spawn_run(answers.take(i)).0,
            answers[i],
        ).contains(fd)
}

/// Whether the parent asked in the run for the descriptor `fd` to be closed.
pub open spec fn was_closed(answers: Seq<Response>, fd: i32) -> bool {
    spawn_calls(answers).contains(Syscall::Close { fd })
}

proof fn lemma_spawn_prefix(answers: Seq<Response>, i: int)
    requires
        answers.len() > 0,
        0 <= i < answers.len(),
    ensures
        answers.drop_last().take(i) == answers.take(i),
        i < answers.len() - 1 ==> answers.drop_last()[i] == answers[i],
        answers.take(answers.len() - 1) == answers.drop_last(),
{
    assert(answers.drop_last().take(i) =~= answers.take(i));
    assert(answers.take(answers.len() - 1) =~= answers.drop_last());
}

/// The books of a spawn balance: at every point of a run, each descriptor
/// that was handed to the parent is either still held or was asked to be
/// closed.
pub proof fn spawn_books_balance(answers: Seq<Response>, fd: i32)
    requires
        was_handed(answers, fd),
    ensures
        held(spawn_run(answers).0).contains(fd) || was_closed(answers, fd),
    decreases answers.len(),
{
    let i = choose|i: int|
        0 <= i < answers.len() && (#[trigger] spawn_run(answers.take(i))).1 is Call && gained(
            spawn_run(answers.take(i)).0,
            answers[i],
        ).contains(fd);
    let before = answers.drop_last();
    let (state, step) = spawn_run(before);
    lemma_spawn_prefix(answers, i);
    if i < answers.len() - 1 {
        assert(spawn_run(before.take(i)).1 is Call);
        assert(was_handed(before, fd));
        spawn_books_balance(before, fd);
    }
    if step is Call {
        spawn_run_wf(before);
        spawn_keeps_books(state, answers.last());
        let (next, stepped) = spawn_next(state, answers.last());
        if was_closed(before, fd) {
            let j = choose|j: int|
                0 <= j < spawn_calls(before).len() && spawn_calls(before)[j] == (Syscall::Close {
                    fd,
                });
            assert(spawn_calls(answers)[j] == Syscall::Close { fd });
        } else if !held(next).contains(fd) {
            assert(held(state).union(gained(state, answers.last())).contains(fd));
            assert(stepped == Step::<SpawnOutcome>::Call(Syscall::Close { fd }));
            assert(spawn_calls(answers) == spawn_calls(before).push(Syscall::Close { fd }));
            assert(spawn_calls(answers)[spawn_calls(before).len() as int] == Syscall::Close { fd });
        }
    }
}

/// A spawn that fails leaks nothing: the parent has asked for every
/// descriptor to be closed that was handed to it on the way, the master and
/// both ends of the report pipe among them.
pub proof fn spawn_failure_leaks_nothing(answers: Seq<Response>, fd: i32)
    requires
        spawn_run(answers).1 matches Step::Done(Err(_)),
        was_handed(answers, fd),
    ensures
        was_closed(answers, fd),
{
    spawn_books_balance(answers, fd);
    spawn_failure_holds_nothing(answers);
}

/// A spawn that succeeds in the parent keeps the master and nothing else:
/// the parent has asked for every other descriptor to be closed that was
/// handed to it on the way.
pub proof fn spawn_success_keeps_the_master(answers: Seq<Response>, process: PtyProcess, fd: i32)
    requires
        spawn_run(answers).1 == Step::<SpawnOutcome>::Done(Ok(Spawned::Parent(process))),
        was_handed(answers, fd),
        fd != process.spec_master(),
    ensures
        was_closed(answers, fd),
{
    spawn_books_balance(answers, fd);
    spawn_success_controls_child(answers, process);
}

} // verus!

//! What a freshly forked child does before it becomes the command.
//!
//! The child takes the slave as its controlling terminal and as its three
//! standard streams, switches echo off, gives the terminal its first size,
//! closes every descriptor that is none of its business, and execs. If any
//! of this fails it writes the error number to the report pipe and exits
//! with it. The write end of that pipe is marked to be closed by the exec,
//! so the parent reads either a report or the end of the pipe.

use vstd::prelude::*;
use crate::descriptors::{
    next_closed,
    next_to_close,
    redirect_std_streams,
    redirection,
    NO_DESCRIPTOR,
    STDERR_FILENO,
    STDIN_FILENO,
    STDOUT_FILENO,
};
use crate::errno::{errno_value, Errno};
use crate::sys::{OpenMode, Platform, Reply, Response, Step, Syscall, TtyPath};
use crate::termios::{echo, set_echo, with_echo};
use crate::tty::{
    make_controlling_tty,
    make_controlling_tty_step,
    opened,
    read_opened,
    tty_begin,
    tty_next,
    Tty,
};
use crate::window::{set_term_size, window, DEFAULT_TERM_COLS, DEFAULT_TERM_ROWS};

verus! {

/// What the child is doing: the request that it made last.
#[derive(Clone, Copy, Debug, PartialEq, Eq)]
pub enum ChildPhase {
    /// It is taking the slave as its controlling terminal.
    AcquiringTty(Tty),
    /// It opened the slave.
    OpeningSlave,
    /// It made the request number `done` of those that redirect its standard streams.
    Redirecting { done: usize },
    /// It asked for the attributes of its terminal.
    ReadingEcho,
    /// It set the attributes of its terminal with echo off.
    SettingEcho,
    /// It set the size of its terminal.
    SizingWindow,
    /// It asked how many descriptors it may have.
    AskingLimit,
    /// It closed the descriptor `fd`, one of those below `limit` that it does not keep.
    ClosingOthers { fd: i32, limit: i32 },
    /// It closed the slave, which its standard streams stand for now.
    ClosingSlave,
    /// It closed the read end of the report pipe.
    ClosingReportRead,
    /// It closed the master.
    ClosingMaster,
    /// It marked the write end of the report pipe to be closed by the exec.
    MarkingReport,
    /// It asked to become the command.
    Executing,
    /// It wrote the report of the error number `code`.
    Reporting { code: i32 },
    /// It closed the write end of the report pipe after a failure.
    ClosingReport { code: i32 },
}

/// The state of the child: the descriptors it got from its parent, the
/// slave once it is open, and its phase.
#[derive(Clone, Copy, Debug, PartialEq, Eq)]
pub struct Child {
    /// The master, which the child inherits and closes before its exec.
    pub master: i32,
    /// The read end of the report pipe, which is the parent's business.
    pub report_read: i32,
    /// The write end of the report pipe.
    pub report_write: i32,
    /// The slave, once the child has opened it; `NO_DESCRIPTOR` before.
    pub slave: i32,
    /// What the child is waiting for.
    pub phase: ChildPhase,
}

/// The descriptors that the child does not close when it clears its table:
/// the standard streams, the slave, both ends of the report pipe, the master.
pub open spec fn kept(state: Child) -> Seq<i32> {
    seq![
        STDIN_FILENO,
        STDOUT_FILENO,
        STDERR_FILENO,
        state.slave,
        state.report_write,
        state.report_read,
        state.master,
    ]
}

/// The room of a descriptor table as a descriptor: a limit below 0 counts
/// as 0, one beyond the largest descriptor as that.
pub open spec fn table_limit(limit: i64) -> i32 {
    if limit < 0 {
        0
    } else if limit > i32::MAX {
        i32::MAX
    } else {
        limit as i32
    }
}

/// How the child fails with the error number `errno`: it writes the report
/// of its raw value.
pub open spec fn child_fail(state: Child, errno: Errno) -> (Child, Step<i32>) {
    (
        Child { phase: ChildPhase::Reporting { code: errno_value(errno) }, ..state },
        Step::Call(Syscall::WriteReport { fd: state.report_write, code: errno_value(errno) }),
    )
}

/// How the child goes on clearing its table from the descriptor `from` on:
/// it closes the next that it does not keep, or, if none is left below
/// `limit`, goes on to close the slave.
pub open spec fn child_clear(state: Child, from: int, limit: i32) -> (Child, Step<i32>) {
    match next_closed(from, limit as int, kept(state)) {
        Some(fd) => (
            Child { phase: ChildPhase::ClosingOthers { fd, limit }, ..state },
            Step::Call(Syscall::Close { fd }),
        ),
        None => (
            Child { phase: ChildPhase::ClosingSlave, ..state },
            Step::Call(Syscall::Close { fd: state.slave }),
        ),
    }
}

/// How the child goes on once its terminal machine has made the step `step`
/// and is in the state `tty`.
pub open spec fn child_after_tty(state: Child, tty: Tty, step: Step<Result<(), Errno>>) -> (
    Child,
    Step<i32>,
) {
    match step {
        Step::Call(call) => (
            Child { phase: ChildPhase::AcquiringTty(tty), ..state },
            Step::Call(call),
        ),
        Step::Done(Ok(_)) => (
            Child { phase: ChildPhase::OpeningSlave, ..state },
            Step::Call(
                Syscall::Open {
                    path: TtyPath::Slave { master: state.master },
                    mode: OpenMode::ReadWriteNoCtty,
                },
            ),
        ),
        Step::Done(Err(e)) => child_fail(state, e),
    }
}

/// How the child begins: with the acquisition of its controlling terminal.
pub open spec fn child_begin(
    master: i32,
    report_read: i32,
    report_write: i32,
    platform: Platform,
) -> (Child, Step<i32>) {
    let (tty, step) = tty_begin(master, platform);
    child_after_tty(
        Child { master, report_read, report_write, slave: NO_DESCRIPTOR, phase: ChildPhase::AcquiringTty(tty) },
        tty,
        step,
    )
}

/// How the child goes on when `answer` arrives in `state`. In order:
///
/// 1. It takes the slave as its controlling terminal.
/// 2. It opens the slave, without adopting it anew.
/// 3. It closes its standard streams and makes each a copy of the slave.
/// 4. It switches echo off on its standard input and sets the window of
///    that terminal to 80 columns and 24 rows.
/// 5. It asks for the room of its descriptor table and closes every
///    descriptor in it but those it keeps, whatever closing answers. A table
///    without a limit cannot be cleared: the child fails with `ENOTSUP`.
/// 6. It closes the slave, the read end of the report pipe and, whatever
///    that answers, the master.
/// 7. It marks the write end of the report pipe to be closed by the exec.
/// 8. It execs.
///
/// A call that fails where its answer counts, the exec among them, makes
/// the child write the error number to the report pipe, close the pipe and,
/// whatever these two answer, finish with the number as its exit code.
pub open spec fn child_next(state: Child, answer: Response) -> (Child, Step<i32>) {
    match state.phase {
        ChildPhase::AcquiringTty(tty) => {
            let (tty, step) = tty_next(state.master, tty, answer);
            child_after_tty(state, tty, step)
        },
        ChildPhase::OpeningSlave => match opened(answer) {
            Ok(slave) => (
                Child { slave, phase: ChildPhase::Redirecting { done: 0 }, ..state },
                Step::Call(redirection(slave)[0]),
            ),
            Err(e) => child_fail(state, e),
        },
        ChildPhase::Redirecting { done } => match answer {
            Ok(_) => if done + 1 < redirection(state.slave).len() {
                (
                    Child {
                        phase: ChildPhase::Redirecting { done: (done + 1) as usize },
                        ..state
                    },
                    Step::Call(redirection(state.slave)[done + 1]),
                )
            } else {
                (
                    Child { phase: ChildPhase::ReadingEcho, ..state },
                    Step::Call(Syscall::GetTermios { fd: STDIN_FILENO }),
                )
            },
            Err(e) => child_fail(state, e),
        },
        ChildPhase::ReadingEcho => match answer {
            Ok(Reply::Termios(settings)) => (
                Child { phase: ChildPhase::SettingEcho, ..state },
                Step::Call(
                    Syscall::SetTermios { fd: STDIN_FILENO, settings: with_echo(settings, false) },
                ),
            ),
            Ok(_) => child_fail(state, Errno::EINVAL),
            Err(e) => child_fail(state, e),
        },
        ChildPhase::SettingEcho => match answer {
            Ok(_) => (
                Child { phase: ChildPhase::SizingWindow, ..state },
                Step::Call(
                    Syscall::SetWindowSize {
                        fd: STDIN_FILENO,
                        size: window(DEFAULT_TERM_COLS, DEFAULT_TERM_ROWS),
                    },
                ),
            ),
            Err(e) => child_fail(state, e),
        },
        ChildPhase::SizingWindow => match answer {
            Ok(_) => (Child { phase: ChildPhase::AskingLimit, ..state }, Step::Call(Syscall::OpenMax)),
            Err(e) => child_fail(state, e),
        },
        ChildPhase::AskingLimit => match answer {
            Ok(Reply::Limit(Some(limit))) => child_clear(state, 0, table_limit(limit)),
            Ok(Reply::Limit(None)) => child_fail(state, Errno::ENOTSUP),
            Ok(_) => child_fail(state, Errno::EINVAL),
            Err(e) => child_fail(state, e),
        },
        ChildPhase::ClosingOthers { fd, limit } => child_clear(
            state,
            if 0 <= fd < limit {
                fd + 1
            } else {
                limit as int
            },
            limit,
        ),
        ChildPhase::ClosingSlave => match answer {
            Ok(_) => (
                Child { phase: ChildPhase::ClosingReportRead, ..state },
                Step::Call(Syscall::Close { fd: state.report_read }),
            ),
            Err(e) => child_fail(state, e),
        },
        ChildPhase::ClosingReportRead => match answer {
            Ok(_) => (
                Child { phase: ChildPhase::ClosingMaster, ..state },
                Step::Call(Syscall::Close { fd: state.master }),
            ),
            Err(e) => child_fail(state, e),
        },
        ChildPhase::ClosingMaster => (
            Child { phase: ChildPhase::MarkingReport, ..state },
            Step::Call(Syscall::SetCloseOnExec { fd: state.report_write }),
        ),
        ChildPhase::MarkingReport => match answer {
            Ok(_) => (Child { phase: ChildPhase::Executing, ..state }, Step::Call(Syscall::Exec)),
            Err(e) => child_fail(state, e),
        },
        ChildPhase::Executing => match answer {
            Ok(_) => child_fail(state, Errno::EINVAL),
            Err(e) => child_fail(state, e),
        },
        ChildPhase::Reporting { code } => (
            Child { phase: ChildPhase::ClosingReport { code }, ..state },
            Step::Call(Syscall::Close { fd: state.report_write }),
        ),
        ChildPhase::ClosingReport { code } => (state, Step::Done(code)),
    }
}

/// Where the child stands after the answers `answers`, each handed to the
/// machine in turn until it has finished.
pub open spec fn child_run(
    master: i32,
    report_read: i32,
    report_write: i32,
    platform: Platform,
    answers: Seq<Response>,
) -> (Child, Step<i32>)
    decreases answers.len(),
{
    if answers.len() == 0 {
        child_begin(master, report_read, report_write, platform)
    } else {
        let (state, step) = child_run(
            master,
            report_read,
            report_write,
            platform,
            answers.drop_last(),
        );
        match step {
            Step::Done(_) => (state, step),
            Step::Call(_) => child_next(state, answers.last()),
        }
    }
}

fn fail(state: Child, errno: Errno) -> (r: (Child, Step<i32>))
    ensures
        r == child_fail(state, errno),
{
    let code: i32 = errno.raw();
    (
        Child { phase: ChildPhase::Reporting { code }, ..state },
        Step::Call(Syscall::WriteReport { fd: state.report_write, code }),
    )
}

fn clear(state: Child, from: i32, limit: i32) -> (r: (Child, Step<i32>))
    requires
        0 <= from,
    ensures
        r == child_clear(state, from as int, limit),
{
    let keep: [i32; 7] = [
        STDIN_FILENO,
        STDOUT_FILENO,
        STDERR_FILENO,
        state.slave,
        state.report_write,
        state.report_read,
        state.master,
    ];
    assert(keep@ =~= kept(state));
    match next_to_close(from, limit, keep.as_slice()) {
        Some(fd) => (
            Child { phase: ChildPhase::ClosingOthers { fd, limit }, ..state },
            Step::Call(Syscall::Close { fd }),
        ),
        None => (
            Child { phase: ChildPhase::ClosingSlave, ..state },
            Step::Call(Syscall::Close { fd: state.slave }),
        ),
    }
}

fn after_tty(state: Child, tty: Tty, step: Step<Result<(), Errno>>) -> (r: (Child, Step<i32>))
    ensures
        r == child_after_tty(state, tty, step),
{
    match step {
        Step::Call(call) => (
            Child { phase: ChildPhase::AcquiringTty(tty), ..state },
            Step::Call(call),
        ),
        Step::Done(Ok(_)) => (
            Child { phase: ChildPhase::OpeningSlave, ..state },
            Step::Call(
                Syscall::Open {
                    path: TtyPath::Slave { master: state.master },
                    mode: OpenMode::ReadWriteNoCtty,
                },
            ),
        ),
        Step::Done(Err(e)) => fail(state, e),
    }
}

/// Begins the work of a child that was forked with the master `master` and
/// the two ends of the report pipe open, on `platform`. Returns the
/// machine's first state and step; [`child_step`] goes on. The machine
/// finishes only if the child fails, with its exit code.
pub fn child(master: i32, report_read: i32, report_write: i32, platform: Platform) -> (r: (
    Child,
    Step<i32>,
))
    ensures
        r == child_begin(master, report_read, report_write, platform),
{
    let (tty, step) = make_controlling_tty(master, platform);
    after_tty(
        Child { master, report_read, report_write, slave: NO_DESCRIPTOR, phase: ChildPhase::AcquiringTty(tty) },
        tty,
        step,
    )
}

/// Takes the answer to the request that the child made last, and returns
/// the next state and step: see [`child_next`]. The attributes that the
/// child sets have echo off.
pub fn child_step(state: Child, answer: Response) -> (r: (Child, Step<i32>))
    ensures
        r == child_next(state, answer),
        r.1 matches Step::Call(Syscall::SetTermios { settings, .. }) ==> !echo(settings),
{
    match state.phase {
        ChildPhase::AcquiringTty(tty) => {
            let (tty, step) = make_controlling_tty_step(state.master, tty, answer);
            after_tty(state, tty, step)
        },
        ChildPhase::OpeningSlave => match read_opened(answer) {
            Ok(slave) => {
                let plan = redirect_std_streams(slave);
                (
                    Child { slave, phase: ChildPhase::Redirecting { done: 0 }, ..state },
                    Step::Call(plan[0]),
                )
            },
            Err(e) => fail(state, e),
        },
        ChildPhase::Redirecting { done } => match answer {
            Ok(_) => {
                let plan = redirect_std_streams(state.slave);
                if done < plan.len() - 1 {
                    (
                        Child { phase: ChildPhase::Redirecting { done: done + 1 }, ..state },
                        Step::Call(plan[done + 1]),
                    )
                } else {
                    (
                        Child { phase: ChildPhase::ReadingEcho, ..state },
                        Step::Call(Syscall::GetTermios { fd: STDIN_FILENO }),
                    )
                }
            },
            Err(e) => fail(state, e),
        },
        ChildPhase::ReadingEcho => match answer {
            Ok(Reply::Termios(settings)) => (
                Child { phase: ChildPhase::SettingEcho, ..state },
                Step::Call(
                    Syscall::SetTermios { fd: STDIN_FILENO, settings: set_echo(settings, false) },
                ),
            ),
            Ok(_) => fail(state, Errno::EINVAL),
            Err(e) => fail(state, e),
        },
        ChildPhase::SettingEcho => match answer {
            Ok(_) => (
                Child { phase: ChildPhase::SizingWindow, ..state },
                Step::Call(set_term_size(STDIN_FILENO, DEFAULT_TERM_COLS, DEFAULT_TERM_ROWS)),
            ),
            Err(e) => fail(state, e),
        },
        ChildPhase::SizingWindow => match answer {
            Ok(_) => (Child { phase: ChildPhase::AskingLimit, ..state }, Step::Call(Syscall::OpenMax)),
            Err(e) => fail(state, e),
        },
        ChildPhase::AskingLimit => match answer {
            Ok(Reply::Limit(Some(limit))) => {
                let room: i32 = if limit < 0 {
                    0
                } else if limit > i32::MAX as i64 {
                    i32::MAX
                } else {
                    limit as i32
                };
                clear(state, 0, room)
            },
            Ok(Reply::Limit(None)) => fail(state, Errno::ENOTSUP),
            Ok(_) => fail(state, Errno::EINVAL),
            Err(e) => fail(state, e),
        },
        ChildPhase::ClosingOthers { fd, limit } => {
            let from: i32 = if 0 <= fd && fd < limit {
                fd + 1
            } else {
                limit
            };
            if from < 0 {
                proof {
                    reveal_with_fuel(next_closed, 1);
                }
                assert(next_closed(from as int, limit as int, kept(state)) == next_closed(
                    0,
                    limit as int,
                    kept(state),
                ));
                clear(state, 0, limit)
            } else {
                clear(state, from, limit)
            }
        },
        ChildPhase::ClosingSlave => match answer {
            Ok(_) => (
                Child { phase: ChildPhase::ClosingReportRead, ..state },
                Step::Call(Syscall::Close { fd: state.report_read }),
            ),
            Err(e) => fail(state, e),
        },
        ChildPhase::ClosingReportRead => match answer {
            Ok(_) => (
                Child { phase: ChildPhase::ClosingMaster, ..state },
                Step::Call(Syscall::Close { fd: state.master }),
            ),
            Err(e) => fail(state, e),
        },
        ChildPhase::ClosingMaster => (
            Child { phase: ChildPhase::MarkingReport, ..state },
            Step::Call(Syscall::SetCloseOnExec { fd: state.report_write }),
        ),
        ChildPhase::MarkingReport => match answer {
            Ok(_) => (Child { phase: ChildPhase::Executing, ..state }, Step::Call(Syscall::Exec)),
            Err(e) => fail(state, e),
        },
        ChildPhase::Executing => match answer {
            Ok(_) => fail(state, Errno::EINVAL),
            Err(e) => fail(state, e),
        },
        ChildPhase::Reporting { code } => (
            Child { phase: ChildPhase::ClosingReport { code }, ..state },
            Step::Call(Syscall::Close { fd: state.report_write }),
        ),
        ChildPhase::ClosingReport { code } => (state, Step::Done(code)),
    }
}


/// Whether the child is in one of its phases from the setting of the echo
/// up to the exec.
pub open spec fn echo_is_set(phase: ChildPhase) -> bool {
    phase is SettingEcho || window_is_set(phase)
}

/// Whether the child is in one of its phases from the setting of the window
/// up to the exec.
pub open spec fn window_is_set(phase: ChildPhase) -> bool {
    phase is SizingWindow || phase is AskingLimit || phase is ClosingOthers || phase
        is ClosingSlave || phase is ClosingReportRead || phase is ClosingMaster || phase
        is MarkingReport || phase is Executing
}

/// Whether at some point of the run the child asked for the echo of its
/// standard input to be switched off.
pub open spec fn asked_echo_off(
    master: i32,
    report_read: i32,
    report_write: i32,
    platform: Platform,
    answers: Seq<Response>,
) -> bool {
    exists|i: int, found: crate::sys::TermSettings|
        #![trigger child_run(master, report_read, report_write, platform, answers.take(i)), with_echo(found, false)]
        0 <= i <= answers.len() && child_run(
            master,
            report_read,
            report_write,
            platform,
            answers.take(i),
        ).1 == Step::<i32>::Call(
            Syscall::SetTermios { fd: STDIN_FILENO, settings: with_echo(found, false) },
        )
}

/// Whether at some point of the run the child asked for the window of its
/// standard input to be 80 columns by 24 rows.
pub open spec fn asked_window(
    master: i32,
    report_read: i32,
    report_write: i32,
    platform: Platform,
    answers: Seq<Response>,
) -> bool {
    exists|i: int|
        0 <= i <= answers.len() && (#[trigger] child_run(
            master,
            report_read,
            report_write,
            platform,
            answers.take(i),
        )).1 == Step::<i32>::Call(
            Syscall::SetWindowSize {
                fd: STDIN_FILENO,
                size: window(DEFAULT_TERM_COLS, DEFAULT_TERM_ROWS),
            },
        )
}

/// Whether at some point of the run the child asked for the report of
/// `code` to be written to the report pipe.
pub open spec fn asked_report(
    master: i32,
    report_read: i32,
    report_write: i32,
    platform: Platform,
    answers: Seq<Response>,
    code: i32,
) -> bool {
    exists|i: int|
        0 <= i <= answers.len() && (#[trigger] child_run(
            master,
            report_read,
            report_write,
            platform,
            answers.take(i),
        )).1 == Step::<i32>::Call(Syscall::WriteReport { fd: report_write, code })
}

/// What one step of the child does to its phase: the descriptors it got
/// stay; it comes to have the echo set only by asking for it to be off, and
/// the window only by asking for it; it asks for the exec only on entering
/// its last phase; it comes to report only by asking for the report, to
/// close the report pipe only from there, and to finish only from there.
pub proof fn child_next_order(state: Child, answer: Response)
    ensures
        ({
            let (next, step) = child_next(state, answer);
            &&& next.master == state.master
            &&& next.report_read == state.report_read
            &&& next.report_write == state.report_write
            &&& step is Call && echo_is_set(next.phase) ==> echo_is_set(state.phase) || (
            answer matches Ok(Reply::Termios(found)) && step == Step::<i32>::Call(
                Syscall::SetTermios { fd: STDIN_FILENO, settings: with_echo(found, false) },
            ))
            &&& step is Call && window_is_set(next.phase) ==> window_is_set(state.phase) || step
                == Step::<i32>::Call(
                Syscall::SetWindowSize {
                    fd: STDIN_FILENO,
                    size: window(DEFAULT_TERM_COLS, DEFAULT_TERM_ROWS),
                },
            )
            &&& step == Step::<i32>::Call(Syscall::Exec) ==> next.phase is Executing
            &&& step is Call ==> (next.phase matches ChildPhase::Reporting { code } ==> step
                == Step::<i32>::Call(Syscall::WriteReport { fd: state.report_write, code }))
            &&& step is Call ==> (next.phase matches ChildPhase::ClosingReport { code }
                ==> state.phase == ChildPhase::Reporting { code })
            &&& step matches Step::Done(code) ==> state.phase == ChildPhase::ClosingReport { code }
        }),
{
}

proof fn lemma_prefix_of_longer(answers: Seq<Response>, i: int)
    requires
        answers.len() > 0,
        0 <= i < answers.len(),
    ensures
        answers.drop_last().take(i) == answers.take(i),
{
    assert(answers.drop_last().take(i) =~= answers.take(i));
}

proof fn lemma_asked_echo_off_stays(
    master: i32,
    report_read: i32,
    report_write: i32,
    platform: Platform,
    answers: Seq<Response>,
)
    requires
        answers.len() > 0,
        asked_echo_off(master, report_read, report_write, platform, answers.drop_last()),
    ensures
        asked_echo_off(master, report_read, report_write, platform, answers),
{
    let before = answers.drop_last();
    let (i, found) = choose|i: int, found: crate::sys::TermSettings|
        #![trigger child_run(master, report_read, report_write, platform, before.take(i)), with_echo(found, false)]
        0 <= i <= before.len() && child_run(
            master,
            report_read,
            report_write,
            platform,
            before.take(i),
        ).1 == Step::<i32>::Call(
            Syscall::SetTermios { fd: STDIN_FILENO, settings: with_echo(found, false) },
        );
    lemma_prefix_of_longer(answers, i);
}

proof fn lemma_asked_window_stays(
    master: i32,
    report_read: i32,
    report_write: i32,
    platform: Platform,
    answers: Seq<Response>,
)
    requires
        answers.len() > 0,
        asked_window(master, report_read, report_write, platform, answers.drop_last()),
    ensures
        asked_window(master, report_read, report_write, platform, answers),
{
    let before = answers.drop_last();
    let i = choose|i: int|
        0 <= i <= before.len() && (#[trigger] child_run(
            master,
            report_read,
            report_write,
            platform,
            before.take(i),
        )).1 == Step::<i32>::Call(
            Syscall::SetWindowSize {
                fd: STDIN_FILENO,
                size: window(DEFAULT_TERM_COLS, DEFAULT_TERM_ROWS),
            },
        );
    lemma_prefix_of_longer(answers, i);
}

proof fn lemma_asked_report_stays(
    master: i32,
    report_read: i32,
    report_write: i32,
    platform: Platform,
    answers: Seq<Response>,
    code: i32,
)
    requires
        answers.len() > 0,
        asked_report(master, report_read, report_write, platform, answers.drop_last(), code),
    ensures
        asked_report(master, report_read, report_write, platform, answers, code),
{
    let before = answers.drop_last();
    let i = choose|i: int|
        0 <= i <= before.len() && (#[trigger] child_run(
            master,
            report_read,
            report_write,
            platform,
            before.take(i),
        )).1 == Step::<i32>::Call(Syscall::WriteReport { fd: report_write, code });
    lemma_prefix_of_longer(answers, i);
}

/// In every run the child still has the descriptors that it got.
pub proof fn child_keeps_descriptors(
    master: i32,
    report_read: i32,
    report_write: i32,
    platform: Platform,
    answers: Seq<Response>,
)
    ensures
        ({
            let (state, step) = child_run(master, report_read, report_write, platform, answers);
            &&& state.master == master
            &&& state.report_read == report_read
            &&& state.report_write == report_write
            &&& answers.len() == 0 ==> step is Call && state.phase is AcquiringTty
        }),
    decreases answers.len(),
{
    if answers.len() > 0 {
        let before = answers.drop_last();
        child_keeps_descriptors(master, report_read, report_write, platform, before);
        let (state, step) = child_run(master, report_read, report_write, platform, before);
        child_next_order(state, answers.last());
    }
}

/// What a run of the child has behind it, by its phase: once it is past
/// the setting of the echo it has asked for the echo to be off, and past
/// the setting of the window for the window.
pub proof fn child_run_settings(
    master: i32,
    report_read: i32,
    report_write: i32,
    platform: Platform,
    answers: Seq<Response>,
)
    ensures
        ({
            let (state, step) = child_run(master, report_read, report_write, platform, answers);
            &&& step is Call && echo_is_set(state.phase) ==> asked_echo_off(
                master,
                report_read,
                report_write,
                platform,
                answers,
            )
            &&& step is Call && window_is_set(state.phase) ==> asked_window(
                master,
                report_read,
                report_write,
                platform,
                answers,
            )
            &&& step == Step::<i32>::Call(Syscall::Exec) ==> state.phase is Executing
        }),
    decreases answers.len(),
{
    let (state, step) = child_run(master, report_read, report_write, platform, answers);
    child_keeps_descriptors(master, report_read, report_write, platform, answers);
    if answers.len() > 0 {
        let before = answers.drop_last();
        child_run_settings(master, report_read, report_write, platform, before);
        let (old_state, old_step) = child_run(master, report_read, report_write, platform, before);
        if old_step is Call {
            child_next_order(old_state, answers.last());
            assert(answers.take(answers.len() as int) == answers);
            if step is Call && echo_is_set(state.phase) {
                if echo_is_set(old_state.phase) {
                    lemma_asked_echo_off_stays(master, report_read, report_write, platform, answers);
                } else {
                    let found = answers.last()->Ok_0->Termios_0;
                    assert(child_run(
                        master,
                        report_read,
                        report_write,
                        platform,
                        answers.take(answers.len() as int),
                    ).1 == Step::<i32>::Call(
                        Syscall::SetTermios { fd: STDIN_FILENO, settings: with_echo(found, false) },
                    ));
                }
            }
            if step is Call && window_is_set(state.phase) {
                if window_is_set(old_state.phase) {
                    lemma_asked_window_stays(master, report_read, report_write, platform, answers);
                } else {
                    assert(child_run(
                        master,
                        report_read,
                        report_write,
                        platform,
                        answers.take(answers.len() as int),
                    ).1 == step);
                }
            }
        }
    }
}

/// What a run of the child has behind it when it fails: it reports, closes
/// the report pipe and finishes only after it has asked for the report of
/// the code in question.
pub proof fn child_run_reports(
    master: i32,
    report_read: i32,
    report_write: i32,
    platform: Platform,
    answers: Seq<Response>,
)
    ensures
        ({
            let (state, step) = child_run(master, report_read, report_write, platform, answers);
            &&& step is Call ==> (state.phase matches ChildPhase::Reporting { code }
                ==> asked_report(master, report_read, report_write, platform, answers, code))
            &&& step is Call ==> (state.phase matches ChildPhase::ClosingReport { code }
                ==> asked_report(master, report_read, report_write, platform, answers, code))
            &&& step matches Step::Done(code) ==> asked_report(
                master,
                report_read,
                report_write,
                platform,
                answers,
                code,
            )
        }),
    decreases answers.len(),
{
    let (state, step) = child_run(master, report_read, report_write, platform, answers);
    child_keeps_descriptors(master, report_read, report_write, platform, answers);
    if answers.len() > 0 {
        let before = answers.drop_last();
        child_run_reports(master, report_read, report_write, platform, before);
        child_keeps_descriptors(master, report_read, report_write, platform, before);
        let (old_state, old_step) = child_run(master, report_read, report_write, platform, before);
        match old_step {
            Step::Done(code) => {
                lemma_asked_report_stays(master, report_read, report_write, platform, answers, code);
            },
            Step::Call(_) => {
                child_next_order(old_state, answers.last());
                assert(answers.take(answers.len() as int) == answers);
                match step {
                    Step::Done(code) => {
                        lemma_asked_report_stays(
                            master,
                            report_read,
                            report_write,
                            platform,
                            answers,
                            code,
                        );
                    },
                    Step::Call(_) => {
                        match state.phase {
                            ChildPhase::Reporting { code } => {
                                assert(child_run(
                                    master,
                                    report_read,
                                    report_write,
                                    platform,
                                    answers.take(answers.len() as int),
                                ).1 == Step::<i32>::Call(
                                    Syscall::WriteReport { fd: report_write, code },
                                ));
                            },
                            ChildPhase::ClosingReport { code } => {
                                lemma_asked_report_stays(
                                    master,
                                    report_read,
                                    report_write,
                                    platform,
                                    answers,
                                    code,
                                );
                            },
                            _ => {},
                        }
                    },
                }
            },
        }
    }
}

/// The child execs only after it has asked for the echo of its standard
/// input to be off and for its window to be 80 columns by 24 rows.
pub proof fn child_execs_prepared(
    master: i32,
    report_read: i32,
    report_write: i32,
    platform: Platform,
    answers: Seq<Response>,
)
    requires
        child_run(master, report_read, report_write, platform, answers).1 == Step::<i32>::Call(
            Syscall::Exec,
        ),
    ensures
        asked_echo_off(master, report_read, report_write, platform, answers),
        asked_window(master, report_read, report_write, platform, answers),
{
    child_run_settings(master, report_read, report_write, platform, answers);
}

/// The child exits only with a code that it has asked to be reported to
/// its parent.
pub proof fn child_exit_is_reported(
    master: i32,
    report_read: i32,
    report_write: i32,
    platform: Platform,
    answers: Seq<Response>,
    code: i32,
)
    requires
        child_run(master, report_read, report_write, platform, answers).1 == Step::<i32>::Done(
            code,
        ),
    ensures
        asked_report(master, report_read, report_write, platform, answers, code),
{
    child_run_reports(master, report_read, report_write, platform, answers);
}

} // verus!

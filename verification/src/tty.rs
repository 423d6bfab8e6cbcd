//! How a freshly forked child makes the slave its controlling terminal.
//!
//! Linux gives a session leader the first terminal it opens, so the child
//! leaves its old terminal, starts a session, checks that it has no terminal
//! left, opens the slave and checks that it has one again. macOS and FreeBSD
//! have a request for it: the child starts a session and asks.

use vstd::prelude::*;
use crate::errno::Errno;
use crate::sys::{OpenMode, Platform, Reply, Response, Step, Syscall, TtyPath};

verus! {

/// Where the acquisition of the controlling terminal stands: the request
/// that was made last.
#[derive(Clone, Copy, Debug, PartialEq, Eq)]
pub enum Tty {
    /// Linux: the slave's name was looked up.
    Naming,
    /// Linux: the old controlling terminal was opened, to see whether there is one.
    Detaching,
    /// Linux: the old controlling terminal, found open, was closed.
    ClosingOld,
    /// Linux: a new session was started.
    Leading,
    /// Linux: the controlling terminal was opened again; it must be gone.
    Verifying,
    /// Linux: a controlling terminal that should be gone was closed.
    ClosingUnexpected,
    /// Linux: the slave was opened, which makes it the controlling terminal.
    OpeningSlave,
    /// Linux: the slave was closed again.
    ClosingSlave,
    /// Linux: the controlling terminal was opened for writing, to see that there is one.
    Confirming,
    /// Linux: the controlling terminal was closed again.
    ClosingConfirmed,
    /// macOS, FreeBSD: the slave was opened.
    OpeningForRequest,
    /// macOS, FreeBSD: a new session was started; `slave` is the open slave.
    LeadingForRequest { slave: i32 },
    /// macOS, FreeBSD: the slave was asked to be the controlling terminal.
    Requesting,
}

/// The outcome of the acquisition: done, or the error number of the failure.
pub type TtyOutcome = Result<(), Errno>;

/// The request to open the controlling terminal in a given mode.
pub open spec fn open_controlling(mode: OpenMode) -> Step<TtyOutcome> {
    Step::Call(Syscall::Open { path: TtyPath::Controlling, mode })
}

/// The request to open the slave of `master` in a given mode.
pub open spec fn open_slave(master: i32, mode: OpenMode) -> Step<TtyOutcome> {
    Step::Call(Syscall::Open { path: TtyPath::Slave { master }, mode })
}

/// How the acquisition begins on a platform.
pub open spec fn tty_begin(master: i32, platform: Platform) -> (Tty, Step<TtyOutcome>) {
    match platform {
        Platform::Linux => (Tty::Naming, Step::Call(Syscall::SlaveName { master })),
        Platform::MacOs => (Tty::OpeningForRequest, open_slave(master, OpenMode::ReadWriteNoCtty)),
        Platform::FreeBsd => (
            Tty::OpeningForRequest,
            open_slave(master, OpenMode::ReadWriteNoCtty),
        ),
    }
}

/// What follows an answer to an open request: `opened` with the new
/// descriptor, or the failure. An answer of another kind counts as a failure
/// with `EINVAL`.
pub open spec fn opened(answer: Response) -> Result<i32, Errno> {
    match answer {
        Ok(Reply::Fd(fd)) => Ok(fd),
        Ok(_) => Err(Errno::EINVAL),
        Err(e) => Err(e),
    }
}

/// How the acquisition goes on when `answer` arrives in `state`.
///
/// On Linux:
/// 1. The old controlling terminal is opened without adopting it. If that
///    works it is closed again; `ENXIO` means that there was none, which is
///    as good. Another failure ends the acquisition.
/// 2. A new session is started.
/// 3. The controlling terminal is opened once more, and this must fail with
///    `ENXIO`. If it opens it is closed, and the acquisition fails with
///    `ENOTSUP`, as it does on any other failure.
/// 4. The slave is opened for reading and writing, and closed.
/// 5. The controlling terminal is opened for writing, and closed.
///
/// On macOS and FreeBSD the slave is opened, a session started, and the
/// slave asked to be the controlling terminal.
///
/// Any call that fails where nothing else is said ends the acquisition with
/// its error number.
pub open spec fn tty_next(master: i32, state: Tty, answer: Response) -> (Tty, Step<TtyOutcome>) {
    match state {
        Tty::Naming => match answer {
            Ok(_) => (Tty::Detaching, open_controlling(OpenMode::ReadWriteNoCtty)),
            Err(e) => (state, Step::Done(Err(e))),
        },
        Tty::Detaching => match opened(answer) {
            Ok(fd) => (Tty::ClosingOld, Step::Call(Syscall::Close { fd })),
            Err(Errno::ENXIO) => (Tty::Leading, Step::Call(Syscall::SetSid)),
            Err(e) => (state, Step::Done(Err(e))),
        },
        Tty::ClosingOld => match answer {
            Ok(_) => (Tty::Leading, Step::Call(Syscall::SetSid)),
            Err(e) => (state, Step::Done(Err(e))),
        },
        Tty::Leading => match answer {
            Ok(_) => (Tty::Verifying, open_controlling(OpenMode::ReadWriteNoCtty)),
            Err(e) => (state, Step::Done(Err(e))),
        },
        Tty::Verifying => match opened(answer) {
            Ok(fd) => (Tty::ClosingUnexpected, Step::Call(Syscall::Close { fd })),
            Err(Errno::ENXIO) => (Tty::OpeningSlave, open_slave(master, OpenMode::ReadWrite)),
            Err(_) => (state, Step::Done(Err(Errno::ENOTSUP))),
        },
        Tty::ClosingUnexpected => match answer {
            Ok(_) => (state, Step::Done(Err(Errno::ENOTSUP))),
            Err(e) => (state, Step::Done(Err(e))),
        },
        Tty::OpeningSlave => match opened(answer) {
            Ok(fd) => (Tty::ClosingSlave, Step::Call(Syscall::Close { fd })),
            Err(e) => (state, Step::Done(Err(e))),
        },
        Tty::ClosingSlave => match answer {
            Ok(_) => (Tty::Confirming, open_controlling(OpenMode::WriteOnly)),
            Err(e) => (state, Step::Done(Err(e))),
        },
        Tty::Confirming => match opened(answer) {
            Ok(fd) => (Tty::ClosingConfirmed, Step::Call(Syscall::Close { fd })),
            Err(e) => (state, Step::Done(Err(e))),
        },
        Tty::ClosingConfirmed => match answer {
            Ok(_) => (state, Step::Done(Ok(()))),
            Err(e) => (state, Step::Done(Err(e))),
        },
        Tty::OpeningForRequest => match opened(answer) {
            Ok(slave) => (Tty::LeadingForRequest { slave }, Step::Call(Syscall::SetSid)),
            Err(e) => (state, Step::Done(Err(e))),
        },
        Tty::LeadingForRequest { slave } => match answer {
            Ok(_) => (Tty::Requesting, Step::Call(Syscall::SetControllingTty { fd: slave })),
            Err(e) => (state, Step::Done(Err(e))),
        },
        Tty::Requesting => match answer {
            Ok(_) => (state, Step::Done(Ok(()))),
            Err(e) => (state, Step::Done(Err(e))),
        },
    }
}

/// Where the acquisition stands after the answers `answers`, each handed to
/// the machine in turn until it has finished.
pub open spec fn tty_run(master: i32, platform: Platform, answers: Seq<Response>) -> (
    Tty,
    Step<TtyOutcome>,
)
    decreases answers.len(),
{
    if answers.len() == 0 {
        tty_begin(master, platform)
    } else {
        let (state, step) = tty_run(master, platform, answers.drop_last());
        match step {
            Step::Done(_) => (state, step),
            Step::Call(_) => tty_next(master, state, answers.last()),
        }
    }
}

/// Reads the answer to an open request: see [`opened`].
pub fn read_opened(answer: Response) -> (fd: Result<i32, Errno>)
    ensures
        fd == opened(answer),
{
    match answer {
        Ok(Reply::Fd(fd)) => Ok(fd),
        Ok(_) => Err(Errno::EINVAL),
        Err(e) => Err(e),
    }
}

/// Begins to make the slave of `master` the controlling terminal of the
/// calling process, in the way of `platform`. Returns the machine's first
/// state and step; [`make_controlling_tty_step`] goes on.
pub fn make_controlling_tty(master: i32, platform: Platform) -> (r: (Tty, Step<TtyOutcome>))
    ensures
        r == tty_begin(master, platform),
{
    match platform {
        Platform::Linux => (Tty::Naming, Step::Call(Syscall::SlaveName { master })),
        Platform::MacOs => (
            Tty::OpeningForRequest,
            Step::Call(
                Syscall::Open { path: TtyPath::Slave { master }, mode: OpenMode::ReadWriteNoCtty },
            ),
        ),
        Platform::FreeBsd => (
            Tty::OpeningForRequest,
            Step::Call(
                Syscall::Open { path: TtyPath::Slave { master }, mode: OpenMode::ReadWriteNoCtty },
            ),
        ),
    }
}

fn call_open_controlling(mode: OpenMode) -> (step: Step<TtyOutcome>)
    ensures
        step == open_controlling(mode),
{
    Step::Call(Syscall::Open { path: TtyPath::Controlling, mode })
}

/// Takes the answer to the request that the acquisition made last, and
/// returns the next state and step: see [`tty_next`].
pub fn make_controlling_tty_step(master: i32, state: Tty, answer: Response) -> (r: (
    Tty,
    Step<TtyOutcome>,
))
    ensures
        r == tty_next(master, state, answer),
{
    match state {
        Tty::Naming => match answer {
            Ok(_) => (Tty::Detaching, call_open_controlling(OpenMode::ReadWriteNoCtty)),
            Err(e) => (state, Step::Done(Err(e))),
        },
        Tty::Detaching => match read_opened(answer) {
            Ok(fd) => (Tty::ClosingOld, Step::Call(Syscall::Close { fd })),
            Err(Errno::ENXIO) => (Tty::Leading, Step::Call(Syscall::SetSid)),
            Err(e) => (state, Step::Done(Err(e))),
        },
        Tty::ClosingOld => match answer {
            Ok(_) => (Tty::Leading, Step::Call(Syscall::SetSid)),
            Err(e) => (state, Step::Done(Err(e))),
        },
        Tty::Leading => match answer {
            Ok(_) => (Tty::Verifying, call_open_controlling(OpenMode::ReadWriteNoCtty)),
            Err(e) => (state, Step::Done(Err(e))),
        },
        Tty::Verifying => match read_opened(answer) {
            Ok(fd) => (Tty::ClosingUnexpected, Step::Call(Syscall::Close { fd })),
            Err(Errno::ENXIO) => (
                Tty::OpeningSlave,
                Step::Call(
                    Syscall::Open { path: TtyPath::Slave { master }, mode: OpenMode::ReadWrite },
                ),
            ),
            Err(_) => (state, Step::Done(Err(Errno::ENOTSUP))),
        },
        Tty::ClosingUnexpected => match answer {
            Ok(_) => (state, Step::Done(Err(Errno::ENOTSUP))),
            Err(e) => (state, Step::Done(Err(e))),
        },
        Tty::OpeningSlave => match read_opened(answer) {
            Ok(fd) => (Tty::ClosingSlave, Step::Call(Syscall::Close { fd })),
            Err(e) => (state, Step::Done(Err(e))),
        },
        Tty::ClosingSlave => match answer {
            Ok(_) => (Tty::Confirming, call_open_controlling(OpenMode::WriteOnly)),
            Err(e) => (state, Step::Done(Err(e))),
        },
        Tty::Confirming => match read_opened(answer) {
            Ok(fd) => (Tty::ClosingConfirmed, Step::Call(Syscall::Close { fd })),
            Err(e) => (state, Step::Done(Err(e))),
        },
        Tty::ClosingConfirmed => match answer {
            Ok(_) => (state, Step::Done(Ok(()))),
            Err(e) => (state, Step::Done(Err(e))),
        },
        Tty::OpeningForRequest => match read_opened(answer) {
            Ok(slave) => (Tty::LeadingForRequest { slave }, Step::Call(Syscall::SetSid)),
            Err(e) => (state, Step::Done(Err(e))),
        },
        Tty::LeadingForRequest { slave } => match answer {
            Ok(_) => (Tty::Requesting, Step::Call(Syscall::SetControllingTty { fd: slave })),
            Err(e) => (state, Step::Done(Err(e))),
        },
        Tty::Requesting => match answer {
            Ok(_) => (state, Step::Done(Ok(()))),
            Err(e) => (state, Step::Done(Err(e))),
        },
    }
}


/// Whether the acquisition is past the check that the old controlling
/// terminal is gone: the phases of Linux from the opening of the slave on.
pub open spec fn past_check(state: Tty) -> bool {
    state is OpeningSlave || state is ClosingSlave || state is Confirming || state
        is ClosingConfirmed
}

/// Whether the answers show the check passed: at some point the machine had
/// opened the controlling terminal a second time, and the answer was `ENXIO`.
pub open spec fn check_passed(master: i32, answers: Seq<Response>) -> bool {
    exists|i: int|
        0 <= i < answers.len() && answers[i] == Err::<Reply, Errno>(Errno::ENXIO) && (
        #[trigger] tty_run(master, Platform::Linux, answers.take(i))) == (
            Tty::Verifying,
            open_controlling(OpenMode::ReadWriteNoCtty),
        )
}

/// On Linux the acquisition gets past its check only by passing it, and it
/// succeeds only from the last phase past the check.
pub proof fn tty_linux_checks(master: i32, answers: Seq<Response>)
    ensures
        ({
            let (state, step) = tty_run(master, Platform::Linux, answers);
            &&& !(state is OpeningForRequest || state is LeadingForRequest || state is Requesting)
            &&& past_check(state) ==> check_passed(master, answers)
            &&& step == Step::<TtyOutcome>::Done(Ok(())) ==> state is ClosingConfirmed
        }),
    decreases answers.len(),
{
    if answers.len() > 0 {
        let before = answers.drop_last();
        tty_linux_checks(master, before);
        let (state, step) = tty_run(master, Platform::Linux, before);
        let (after, _) = tty_run(master, Platform::Linux, answers);
        if past_check(after) {
            if past_check(state) {
                let i = choose|i: int|
                    0 <= i < before.len() && before[i] == Err::<Reply, Errno>(Errno::ENXIO) && (
                    #[trigger] tty_run(master, Platform::Linux, before.take(i))) == (
                        Tty::Verifying,
                        open_controlling(OpenMode::ReadWriteNoCtty),
                    );
                assert(before.take(i) == answers.take(i));
                assert(answers[i] == before[i]);
            } else {
                let i = answers.len() - 1;
                assert(answers.take(i) == before);
                assert(state == Tty::Verifying);
                assert(opened(answers.last()) == Err::<i32, Errno>(Errno::ENXIO));
                assert(answers[i] == Err::<Reply, Errno>(Errno::ENXIO));
            }
        }
    }
}

/// On Linux the acquisition succeeds only if it found the old controlling
/// terminal gone after it had started its session.
pub proof fn tty_linux_success_was_checked(master: i32, answers: Seq<Response>)
    requires
        tty_run(master, Platform::Linux, answers).1 == Step::<TtyOutcome>::Done(Ok(())),
    ensures
        check_passed(master, answers),
{
    tty_linux_checks(master, answers);
}

/// The acquisition finishes: nine answers are all it ever takes.
pub proof fn tty_finishes(master: i32, platform: Platform, answers: Seq<Response>)
    requires
        answers.len() >= 9,
    ensures
        tty_run(master, platform, answers).1 is Done,
{
    tty_run_rank(master, platform, answers);
}

/// How many requests an acquisition has made at the least when it is in a state.
pub open spec fn tty_rank(state: Tty) -> int {
    match state {
        Tty::Naming => 1,
        Tty::Detaching => 2,
        Tty::ClosingOld => 3,
        Tty::Leading => 3,
        Tty::Verifying => 4,
        Tty::ClosingUnexpected => 5,
        Tty::OpeningSlave => 5,
        Tty::ClosingSlave => 6,
        Tty::Confirming => 7,
        Tty::ClosingConfirmed => 8,
        Tty::OpeningForRequest => 1,
        Tty::LeadingForRequest { .. } => 2,
        Tty::Requesting => 3,
    }
}

/// Whether an acquisition may have made one request more than the least
/// when it is in a state: from the start of the session on, on Linux, for
/// the old controlling terminal may have had to be closed.
pub open spec fn tty_delayed(state: Tty) -> bool {
    state is Leading || state is Verifying || state is ClosingUnexpected || past_check(state)
}

/// While an acquisition runs, the number of its answers tells how far it
/// is: it has made the least number of requests that its state takes, or
/// one more where the old controlling terminal may have had to be closed.
pub proof fn tty_run_rank(master: i32, platform: Platform, answers: Seq<Response>)
    ensures
        ({
            let (state, step) = tty_run(master, platform, answers);
            step is Call ==> {
                ||| answers.len() + 1 == tty_rank(state)
                ||| tty_delayed(state) && answers.len() == tty_rank(state)
            }
        }),
    decreases answers.len(),
{
    if answers.len() > 0 {
        tty_run_rank(master, platform, answers.drop_last());
    }
}

} // verus!

//! The controller of a spawned child: what it remembers, and how it ends the child.

use vstd::prelude::*;
use crate::errno::Errno;
use crate::signal::{escalation, escalation_signal, Signal, GRACEFUL_SIGNALS};
use crate::sys::{Reply, Response, Step, Syscall, WaitStatus};

verus! {

/// The pause between two tries of a termination unless another is set: 100 ms.
pub const DEFAULT_TERMINATE_DELAY: u128 = 100_000_000;

/// The controller of a child process that runs on a pseudo-terminal.
///
/// It owns the master side of the terminal and remembers the child's pid,
/// the end-of-file and interrupt characters found when the child was spawned,
/// and the pause between two tries of [`PtyProcess::exit`], in nanoseconds.
#[derive(Debug, PartialEq, Eq)]
pub struct PtyProcess {
    master: i32,
    child_pid: i32,
    eof_char: u8,
    intr_char: u8,
    terminate_delay: u128,
}

/// Where a termination stands.
#[derive(Clone, Copy, Debug, PartialEq, Eq)]
pub enum ExitPhase {
    /// The status of the child was asked for, after `sent` signals.
    Probing { sent: u8 },
    /// The signal of try `attempt` was sent.
    Signalling { attempt: u8 },
    /// The pause after try `attempt` is running.
    Pausing { attempt: u8 },
}

/// The state of a termination: whether it may end in `SIGKILL`, and its phase.
#[derive(Clone, Copy, Debug, PartialEq, Eq)]
pub struct Exit {
    /// Whether `SIGKILL` is sent when the four gentler signals did not help.
    pub force: bool,
    /// What the termination is waiting for.
    pub phase: ExitPhase,
}

/// The status that an answer to a wait request carries. An answer of another
/// kind counts as a failure with `EINVAL`.
pub open spec fn status_of(answer: Response) -> Result<WaitStatus, Errno> {
    match answer {
        Ok(Reply::Status(status)) => Ok(status),
        Ok(_) => Err(Errno::EINVAL),
        Err(e) => Err(e),
    }
}

/// Computes [`status_of`].
pub fn read_status(answer: Response) -> (status: Result<WaitStatus, Errno>)
    ensures
        status == status_of(answer),
{
    match answer {
        Ok(Reply::Status(status)) => Ok(status),
        Ok(_) => Err(Errno::EINVAL),
        Err(e) => Err(e),
    }
}

/// Whether a child is alive, judged by the outcome of a wait call that does
/// not block: alive exactly when it has not changed state. A child that is
/// gone (`ECHILD`, `ESRCH`) is not alive; any other failure stays a failure.
pub open spec fn alive(status: Result<WaitStatus, Errno>) -> Result<bool, Errno> {
    match status {
        Ok(WaitStatus::StillAlive) => Ok(true),
        Ok(_) => Ok(false),
        Err(Errno::ECHILD) => Ok(false),
        Err(Errno::ESRCH) => Ok(false),
        Err(e) => Err(e),
    }
}

impl PtyProcess {
    /// What every controller satisfies: the pid is that of a forked child and
    /// the master is a descriptor.
    #[verifier::type_invariant]
    pub closed spec fn inv(&self) -> bool {
        self.child_pid > 0 && self.master >= 0
    }

    /// The pid of the child.
    pub closed spec fn spec_pid(&self) -> i32 {
        self.child_pid
    }

    /// The descriptor of the master side.
    pub closed spec fn spec_master(&self) -> i32 {
        self.master
    }

    /// The end-of-file character.
    pub closed spec fn spec_eof_char(&self) -> u8 {
        self.eof_char
    }

    /// The interrupt character.
    pub closed spec fn spec_intr_char(&self) -> u8 {
        self.intr_char
    }

    /// The pause between two tries of a termination, in nanoseconds.
    pub closed spec fn spec_terminate_delay(&self) -> u128 {
        self.terminate_delay
    }

    /// The controller of the child `child_pid` on the terminal `master` that
    /// remembers the two characters and pauses for the default delay.
    pub closed spec fn spec_new(master: i32, child_pid: i32, eof_char: u8, intr_char: u8) -> PtyProcess {
        PtyProcess {
            master,
            child_pid,
            eof_char,
            intr_char,
            terminate_delay: DEFAULT_TERMINATE_DELAY,
        }
    }

    /// A new controller holds what it was made of.
    pub broadcast proof fn new_controller(master: i32, child_pid: i32, eof_char: u8, intr_char: u8)
        ensures
            ({
                let p = #[trigger] PtyProcess::spec_new(master, child_pid, eof_char, intr_char);
                &&& p.spec_master() == master
                &&& p.spec_pid() == child_pid
                &&& p.spec_eof_char() == eof_char
                &&& p.spec_intr_char() == intr_char
                &&& p.spec_terminate_delay() == DEFAULT_TERMINATE_DELAY
            }),
    {
    }

    /// The controller of the child `child_pid` on the terminal `master`, with
    /// the default pause; `None` unless `child_pid` is positive and `master`
    /// is not negative.
    pub fn new(master: i32, child_pid: i32, eof_char: u8, intr_char: u8) -> (process: Option<
        PtyProcess,
    >)
        ensures
            process == if child_pid > 0 && master >= 0 {
                Some(PtyProcess::spec_new(master, child_pid, eof_char, intr_char))
            } else {
                None
            },
            process matches Some(p) ==> {
                &&& p.spec_master() == master
                &&& p.spec_pid() == child_pid
                &&& p.spec_eof_char() == eof_char
                &&& p.spec_intr_char() == intr_char
                &&& p.spec_terminate_delay() == DEFAULT_TERMINATE_DELAY
            },
    {
        if child_pid > 0 && master >= 0 {
            Some(
                PtyProcess {
                    master,
                    child_pid,
                    eof_char,
                    intr_char,
                    terminate_delay: DEFAULT_TERMINATE_DELAY,
                },
            )
        } else {
            None
        }
    }

    /// Returns the pid of the child, which is positive.
    #[verifier::when_used_as_spec(spec_pid)]
    pub fn pid(&self) -> (pid: i32)
        ensures
            pid == self.spec_pid(),
            pid > 0,
    {
        proof {
            use_type_invariant(self);
        }
        self.child_pid
    }

    /// Returns the descriptor of the master side, which is not negative.
    #[verifier::when_used_as_spec(spec_master)]
    pub fn master(&self) -> (fd: i32)
        ensures
            fd == self.spec_master(),
            fd >= 0,
    {
        proof {
            use_type_invariant(self);
        }
        self.master
    }

    /// Returns the end-of-file character found at spawn.
    #[verifier::when_used_as_spec(spec_eof_char)]
    pub fn get_eof_char(&self) -> (c: u8)
        ensures
            c == self.spec_eof_char(),
    {
        self.eof_char
    }

    /// Returns the interrupt character found at spawn.
    #[verifier::when_used_as_spec(spec_intr_char)]
    pub fn get_intr_char(&self) -> (c: u8)
        ensures
            c == self.spec_intr_char(),
    {
        self.intr_char
    }

    /// Returns the pause between two tries of a termination, in nanoseconds.
    #[verifier::when_used_as_spec(spec_terminate_delay)]
    pub fn terminate_delay(&self) -> (nanos: u128)
        ensures
            nanos == self.spec_terminate_delay(),
    {
        self.terminate_delay
    }

    /// Sets the pause between two tries of a termination, in nanoseconds.
    /// Nothing else changes.
    pub fn set_terminate_delay(&mut self, nanos: u128)
        ensures
            final(self).spec_terminate_delay() == nanos,
            final(self).spec_pid() == old(self).spec_pid(),
            final(self).spec_master() == old(self).spec_master(),
            final(self).spec_eof_char() == old(self).spec_eof_char(),
            final(self).spec_intr_char() == old(self).spec_intr_char(),
    {
        proof {
            use_type_invariant(&*self);
        }
        self.terminate_delay = nanos;
    }

    /// Judges from the outcome of a wait call that did not block whether the
    /// child is alive: see [`alive`].
    pub fn is_alive(&self, status: Result<WaitStatus, Errno>) -> (r: Result<bool, Errno>)
        ensures
            r == alive(status),
    {
        match status {
            Ok(WaitStatus::StillAlive) => Ok(true),
            Ok(_) => Ok(false),
            Err(Errno::ECHILD) => Ok(false),
            Err(Errno::ESRCH) => Ok(false),
            Err(e) => Err(e),
        }
    }
}

/// The outcome of a termination: whether the child is gone, or the error
/// number of the call that failed.
pub type ExitOutcome = Result<bool, Errno>;

impl PtyProcess {
    /// How a termination begins: by asking for the child's status, without blocking.
    pub open spec fn exit_begin(&self, force: bool) -> (Exit, Step<ExitOutcome>) {
        (
            Exit { force, phase: ExitPhase::Probing { sent: 0 } },
            Step::Call(Syscall::WaitPid { pid: self.spec_pid(), nohang: true }),
        )
    }

    /// How a termination goes on when `answer` arrives in `state`.
    ///
    /// - A status that shows the child gone ends it with `true`; a failure of
    ///   the status call, or of sending a signal, ends it with that error.
    /// - A child found alive gets the next signal of the escalation, as long
    ///   as fewer than four were sent, and `SIGKILL` as the fifth when the
    ///   termination is forced; otherwise the termination ends with `false`.
    /// - After each signal comes a pause of the controller's terminate delay,
    ///   and after the pause the status is asked for again.
    pub open spec fn exit_next(&self, state: Exit, answer: Response) -> (Exit, Step<ExitOutcome>) {
        match state.phase {
            ExitPhase::Probing { sent } => match alive(status_of(answer)) {
                Err(e) => (state, Step::Done(Err(e))),
                Ok(false) => (state, Step::Done(Ok(true))),
                Ok(true) => if sent < GRACEFUL_SIGNALS || (sent == GRACEFUL_SIGNALS
                    && state.force) {
                    (
                        Exit { force: state.force, phase: ExitPhase::Signalling { attempt: sent } },
                        Step::Call(
                            Syscall::Kill { pid: self.spec_pid(), signal: escalation(sent) },
                        ),
                    )
                } else {
                    (state, Step::Done(Ok(false)))
                },
            },
            ExitPhase::Signalling { attempt } => match answer {
                Err(e) => (state, Step::Done(Err(e))),
                Ok(_) => (
                    Exit { force: state.force, phase: ExitPhase::Pausing { attempt } },
                    Step::Call(Syscall::Sleep { nanos: self.spec_terminate_delay() }),
                ),
            },
            ExitPhase::Pausing { attempt } => (
                Exit {
                    force: state.force,
                    phase: ExitPhase::Probing {
                        sent: if attempt <= GRACEFUL_SIGNALS {
                            (attempt + 1) as u8
                        } else {
                            attempt
                        },
                    },
                },
                Step::Call(Syscall::WaitPid { pid: self.spec_pid(), nohang: true }),
            ),
        }
    }

    /// Where a termination stands after the answers `answers`, each handed
    /// to the machine in turn until it has finished; later answers are ignored.
    pub open spec fn exit_run(&self, force: bool, answers: Seq<Response>) -> (Exit, Step<ExitOutcome>)
        decreases answers.len(),
    {
        if answers.len() == 0 {
            self.exit_begin(force)
        } else {
            let (state, step) = self.exit_run(force, answers.drop_last());
            match step {
                Step::Done(_) => (state, step),
                Step::Call(_) => self.exit_next(state, answers.last()),
            }
        }
    }

    /// The request for the child's status that does not block.
    pub fn status(&self) -> (call: Syscall)
        ensures
            call == (Syscall::WaitPid { pid: self.spec_pid(), nohang: true }),
    {
        Syscall::WaitPid { pid: self.child_pid, nohang: true }
    }

    /// The request that blocks until the child changes state.
    pub fn wait(&self) -> (call: Syscall)
        ensures
            call == (Syscall::WaitPid { pid: self.spec_pid(), nohang: false }),
    {
        Syscall::WaitPid { pid: self.child_pid, nohang: false }
    }

    /// The request that sends `signal` to the child.
    pub fn kill(&self, signal: Signal) -> (call: Syscall)
        ensures
            call == (Syscall::Kill { pid: self.spec_pid(), signal }),
    {
        Syscall::Kill { pid: self.child_pid, signal }
    }

    /// The request that sends `signal` to the child; another name of [`PtyProcess::kill`].
    pub fn signal(&self, signal: Signal) -> (call: Syscall)
        ensures
            call == (Syscall::Kill { pid: self.spec_pid(), signal }),
    {
        self.kill(signal)
    }

    /// Begins to terminate the child, gently at first: `SIGHUP`, `SIGCONT`,
    /// `SIGINT`, `SIGTERM`, and `SIGKILL` at last if `force` is set. Returns
    /// the machine's first state and step; [`PtyProcess::exit_step`] goes on.
    pub fn exit(&self, force: bool) -> (r: (Exit, Step<ExitOutcome>))
        ensures
            r == self.exit_begin(force),
    {
        (Exit { force, phase: ExitPhase::Probing { sent: 0 } }, Step::Call(self.status()))
    }

    /// Takes the answer to the request that the termination made last, and
    /// returns the next state and step: see [`PtyProcess::exit_next`].
    pub fn exit_step(&self, state: Exit, answer: Response) -> (r: (Exit, Step<ExitOutcome>))
        ensures
            r == self.exit_next(state, answer),
    {
        match state.phase {
            ExitPhase::Probing { sent } => match self.is_alive(read_status(answer)) {
                Err(e) => (state, Step::Done(Err(e))),
                Ok(false) => (state, Step::Done(Ok(true))),
                Ok(true) => if sent < GRACEFUL_SIGNALS || (sent == GRACEFUL_SIGNALS
                    && state.force) {
                    (
                        Exit { force: state.force, phase: ExitPhase::Signalling { attempt: sent } },
                        Step::Call(self.kill(escalation_signal(sent))),
                    )
                } else {
                    (state, Step::Done(Ok(false)))
                },
            },
            ExitPhase::Signalling { attempt } => match answer {
                Err(e) => (state, Step::Done(Err(e))),
                Ok(_) => (
                    Exit { force: state.force, phase: ExitPhase::Pausing { attempt } },
                    Step::Call(Syscall::Sleep { nanos: self.terminate_delay }),
                ),
            },
            ExitPhase::Pausing { attempt } => {
                let sent: u8 = if attempt <= GRACEFUL_SIGNALS {
                    attempt + 1
                } else {
                    attempt
                };
                (
                    Exit { force: state.force, phase: ExitPhase::Probing { sent } },
                    Step::Call(self.status()),
                )
            },
        }
    }
}


impl PtyProcess {
    /// While a termination runs, the number of answers it has taken fixes its
    /// phase and its pending request: three answers go into each try (the
    /// status, the signal, the pause), the signal of try `k` is
    /// `escalation(k)`, and a fifth try is made only when forced.
    pub proof fn exit_run_shape(&self, force: bool, answers: Seq<Response>)
        ensures
            ({
                let (state, step) = self.exit_run(force, answers);
                &&& state.force == force
                &&& step is Call ==> match state.phase {
                    ExitPhase::Probing { sent } => {
                        &&& sent <= GRACEFUL_SIGNALS || (sent == GRACEFUL_SIGNALS + 1 && force)
                        &&& answers.len() == 3 * sent
                        &&& step == Step::<ExitOutcome>::Call(
                            Syscall::WaitPid { pid: self.spec_pid(), nohang: true },
                        )
                    },
                    ExitPhase::Signalling { attempt } => {
                        &&& attempt < GRACEFUL_SIGNALS || (attempt == GRACEFUL_SIGNALS && force)
                        &&& answers.len() == 3 * attempt + 1
                        &&& step == Step::<ExitOutcome>::Call(
                            Syscall::Kill { pid: self.spec_pid(), signal: escalation(attempt) },
                        )
                    },
                    ExitPhase::Pausing { attempt } => {
                        &&& attempt < GRACEFUL_SIGNALS || (attempt == GRACEFUL_SIGNALS && force)
                        &&& answers.len() == 3 * attempt + 2
                        &&& step == Step::<ExitOutcome>::Call(
                            Syscall::Sleep { nanos: self.spec_terminate_delay() },
                        )
                    },
                }
            }),
        decreases answers.len(),
    {
        if answers.len() > 0 {
            self.exit_run_shape(force, answers.drop_last());
        }
    }

    /// A termination finishes: sixteen answers are all it ever takes.
    pub proof fn exit_finishes(&self, force: bool, answers: Seq<Response>)
        requires
            answers.len() >= 16,
        ensures
            self.exit_run(force, answers).1 is Done,
    {
        self.exit_run_shape(force, answers);
    }

    /// `SIGKILL` is sent only by a forced termination, and only as its fifth signal.
    pub proof fn exit_kills_only_when_forced(&self, force: bool, answers: Seq<Response>)
        requires
            self.exit_run(force, answers).1 == Step::<ExitOutcome>::Call(
                Syscall::Kill { pid: self.spec_pid(), signal: Signal::SIGKILL },
            ),
        ensures
            force,
            answers.len() == 3 * GRACEFUL_SIGNALS + 1,
    {
        self.exit_run_shape(force, answers);
    }

    /// Terminating a child that is already gone sends nothing and reports `true`.
    pub proof fn exit_of_dead_child(&self, force: bool, answers: Seq<Response>)
        requires
            answers.len() >= 1,
            alive(status_of(answers[0])) == Ok::<bool, Errno>(false),
        ensures
            self.exit_run(force, answers).1 == Step::<ExitOutcome>::Done(Ok(true)),
        decreases answers.len(),
    {
        if answers.len() > 1 {
            assert(answers.drop_last()[0] == answers[0]);
            self.exit_of_dead_child(force, answers.drop_last());
        } else {
            assert(self.exit_run(force, answers.drop_last()) == self.exit_begin(force));
            assert(answers.last() == answers[0]);
        }
    }

    /// A termination reports `true` only if the last answer it took was a
    /// status that showed the child gone.
    pub proof fn exit_true_means_gone(&self, force: bool, answers: Seq<Response>) -> (last: int)
        requires
            self.exit_run(force, answers).1 == Step::<ExitOutcome>::Done(Ok(true)),
        ensures
            0 <= last < answers.len(),
            last % 3 == 0,
            alive(status_of(answers[last])) == Ok::<bool, Errno>(false),
            self.exit_run(force, answers.take(last)).1 is Call,
        decreases answers.len(),
    {
        if answers.len() == 0 {
            0
        } else {
            let before = answers.drop_last();
            let (state, step) = self.exit_run(force, before);
            match step {
                Step::Done(_) => {
                    let last = self.exit_true_means_gone(force, before);
                    assert(before.take(last) == answers.take(last));
                    last
                },
                Step::Call(_) => {
                    self.exit_run_shape(force, before);
                    assert(answers.take(answers.len() - 1) == before);
                    answers.len() - 1
                },
            }
        }
    }

    /// A termination reports `false` only after a status that showed the
    /// child alive when no signal was left to send: after four signals, or
    /// after five when forced.
    pub proof fn exit_false_means_alive(&self, force: bool, answers: Seq<Response>) -> (last: int)
        requires
            self.exit_run(force, answers).1 == Step::<ExitOutcome>::Done(Ok(false)),
        ensures
            last == if force {
                3 * (GRACEFUL_SIGNALS + 1)
            } else {
                3 * GRACEFUL_SIGNALS
            },
            last < answers.len(),
            alive(status_of(answers[last])) == Ok::<bool, Errno>(true),
        decreases answers.len(),
    {
        if answers.len() == 0 {
            0
        } else {
            let before = answers.drop_last();
            let (state, step) = self.exit_run(force, before);
            match step {
                Step::Done(_) => self.exit_false_means_alive(force, before),
                Step::Call(_) => {
                    self.exit_run_shape(force, before);
                    answers.len() - 1
                },
            }
        }
    }
}


/// What the release of a controller is doing: the request that it made last.
#[derive(Clone, Copy, Debug, PartialEq, Eq)]
pub enum Release {
    /// It asked for the child's status.
    Checking,
    /// It is terminating the child by force.
    Exiting(Exit),
    /// It closed the master; `survived` tells whether the child outlived
    /// the termination.
    Closing { survived: bool },
}

impl PtyProcess {
    /// How the release goes on once the termination has made the step
    /// `step` and is in the state `exit`: the termination goes on while it
    /// has requests; when it is over the master is closed, and the child
    /// counts as a survivor if the termination reported `false`.
    pub open spec fn release_after_exit(&self, exit: Exit, step: Step<ExitOutcome>) -> (
        Release,
        Step<bool>,
    ) {
        match step {
            Step::Call(call) => (Release::Exiting(exit), Step::Call(call)),
            Step::Done(outcome) => (
                Release::Closing { survived: outcome == Ok::<bool, Errno>(false) },
                Step::Call(Syscall::Close { fd: self.spec_master() }),
            ),
        }
    }

    /// How the release of a controller begins: by asking for the child's status.
    pub open spec fn release_begin(&self) -> (Release, Step<bool>) {
        (Release::Checking, Step::Call(Syscall::WaitPid { pid: self.spec_pid(), nohang: true }))
    }

    /// How the release goes on when `answer` arrives in `state`. A child
    /// that is found still alive is terminated by force; in every other
    /// case, a failure to get the status among them, the child is left
    /// alone. Then the master is closed, and the release finishes, whatever
    /// closing answers, with the word whether the child survived.
    pub open spec fn release_next(&self, state: Release, answer: Response) -> (Release, Step<bool>) {
        match state {
            Release::Checking => if status_of(answer) == Ok::<WaitStatus, Errno>(
                WaitStatus::StillAlive,
            ) {
                self.release_after_exit(self.exit_begin(true).0, self.exit_begin(true).1)
            } else {
                (
                    Release::Closing { survived: false },
                    Step::Call(Syscall::Close { fd: self.spec_master() }),
                )
            },
            Release::Exiting(exit) => self.release_after_exit(
                self.exit_next(exit, answer).0,
                self.exit_next(exit, answer).1,
            ),
            Release::Closing { survived } => (state, Step::Done(survived)),
        }
    }

    /// Where a release stands after the answers `answers`, each handed to
    /// the machine in turn until it has finished.
    pub open spec fn release_run(&self, answers: Seq<Response>) -> (Release, Step<bool>)
        decreases answers.len(),
    {
        if answers.len() == 0 {
            self.release_begin()
        } else {
            let (state, step) = self.release_run(answers.drop_last());
            match step {
                Step::Done(_) => (state, step),
                Step::Call(_) => self.release_next(state, answers.last()),
            }
        }
    }

    fn after_exit(&self, exit: Exit, step: Step<ExitOutcome>) -> (r: (Release, Step<bool>))
        ensures
            r == self.release_after_exit(exit, step),
    {
        match step {
            Step::Call(call) => (Release::Exiting(exit), Step::Call(call)),
            Step::Done(outcome) => {
                let survived: bool = match outcome {
                    Ok(gone) => !gone,
                    Err(_) => false,
                };
                (Release::Closing { survived }, Step::Call(Syscall::Close { fd: self.master() }))
            },
        }
    }

    /// Begins to release the controller: a child that is still alive is
    /// terminated by force, and the master is closed. Returns the machine's
    /// first state and step; [`PtyProcess::release_step`] goes on. The
    /// outcome tells whether the child survived its termination, which the
    /// kernel does not let happen.
    pub fn release(&self) -> (r: (Release, Step<bool>))
        ensures
            r == self.release_begin(),
    {
        (Release::Checking, Step::Call(self.status()))
    }

    /// Takes the answer to the request that the release made last, and
    /// returns the next state and step: see [`PtyProcess::release_next`].
    pub fn release_step(&self, state: Release, answer: Response) -> (r: (Release, Step<bool>))
        ensures
            r == self.release_next(state, answer),
    {
        match state {
            Release::Checking => match read_status(answer) {
                Ok(WaitStatus::StillAlive) => {
                    let (exit, step) = self.exit(true);
                    self.after_exit(exit, step)
                },
                _ => (
                    Release::Closing { survived: false },
                    Step::Call(Syscall::Close { fd: self.master() }),
                ),
            },
            Release::Exiting(exit) => {
                let (exit, step) = self.exit_step(exit, answer);
                self.after_exit(exit, step)
            },
            Release::Closing { survived } => (state, Step::Done(survived)),
        }
    }

    /// While a release terminates the child, it is one answer ahead of a
    /// forced termination that takes the same answers: the two are in the
    /// same state and have the same request pending.
    pub proof fn release_runs_exit(&self, answers: Seq<Response>)
        requires
            answers.len() >= 1,
            status_of(answers[0]) == Ok::<WaitStatus, Errno>(WaitStatus::StillAlive),
        ensures
            ({
                let (exit, pending) = self.exit_run(true, answers.subrange(1, answers.len() as int));
                let (state, step) = self.release_run(answers);
                pending matches Step::Call(call) ==> state == Release::Exiting(exit) && step
                    == Step::<bool>::Call(call)
            }),
        decreases answers.len(),
    {
        let rest = answers.subrange(1, answers.len() as int);
        if answers.len() == 1 {
            assert(answers.drop_last() =~= Seq::<Response>::empty());
            assert(self.release_run(answers.drop_last()) == self.release_begin());
            assert(answers.last() == answers[0]);
        } else {
            let before = answers.drop_last();
            assert(before[0] == answers[0]);
            assert(before.subrange(1, before.len() as int) =~= rest.drop_last());
            assert(rest.last() == answers.last());
            self.release_runs_exit(before);
        }
    }

    /// A release that finds the child alive has closed the master, or is
    /// about to, as soon as the forced termination that takes its answers
    /// from the second on is over.
    pub proof fn release_ends_with_exit(&self, answers: Seq<Response>)
        requires
            answers.len() >= 1,
            status_of(answers[0]) == Ok::<WaitStatus, Errno>(WaitStatus::StillAlive),
            self.exit_run(true, answers.subrange(1, answers.len() as int)).1 is Done,
        ensures
            self.release_run(answers).0 is Closing,
        decreases answers.len(),
    {
        let rest = answers.subrange(1, answers.len() as int);
        if answers.len() == 1 {
            assert(rest =~= Seq::<Response>::empty());
        } else {
            let before = answers.drop_last();
            assert(before[0] == answers[0]);
            assert(before.subrange(1, before.len() as int) =~= rest.drop_last());
            assert(rest.last() == answers.last());
            if self.exit_run(true, rest.drop_last()).1 is Done {
                self.release_ends_with_exit(before);
            } else {
                self.release_runs_exit(before);
            }
        }
    }

    /// A release closes the master before it finishes: it finishes only
    /// from its last phase, and what it asks for in that phase is the
    /// closing of the master.
    pub proof fn release_closes_master(&self, answers: Seq<Response>)
        ensures
            ({
                let (state, step) = self.release_run(answers);
                &&& step is Done ==> state is Closing
                &&& state is Closing && step is Call ==> step == Step::<bool>::Call(
                    Syscall::Close { fd: self.spec_master() },
                )
            }),
        decreases answers.len(),
    {
        if answers.len() > 0 {
            self.release_closes_master(answers.drop_last());
        }
    }

    /// A release finishes: eighteen answers are all it ever takes.
    pub proof fn release_finishes(&self, answers: Seq<Response>)
        requires
            answers.len() >= 18,
        ensures
            self.release_run(answers).1 is Done,
        decreases answers.len(),
    {
        let before = answers.drop_last();
        if answers.len() > 18 {
            self.release_finishes(before);
        } else if status_of(answers[0]) == Ok::<WaitStatus, Errno>(WaitStatus::StillAlive) {
            assert(before[0] == answers[0]);
            self.exit_finishes(true, before.subrange(1, before.len() as int));
            self.release_ends_with_exit(before);
            self.release_closes_master(before);
        } else {
            self.release_of_dead_child(before);
        }
    }

    /// The release of a controller whose child is not found alive sends no
    /// signal: it closes the master and has finished after two answers.
    pub proof fn release_of_dead_child(&self, answers: Seq<Response>)
        requires
            answers.len() >= 1,
            status_of(answers[0]) != Ok::<WaitStatus, Errno>(WaitStatus::StillAlive),
        ensures
            answers.len() == 1 ==> self.release_run(answers) == (
                Release::Closing { survived: false },
                Step::<bool>::Call(Syscall::Close { fd: self.spec_master() }),
            ),
            answers.len() >= 2 ==> self.release_run(answers).1 == Step::<bool>::Done(false),
        decreases answers.len(),
    {
        if answers.len() == 1 {
            assert(answers.drop_last() =~= Seq::<Response>::empty());
            assert(self.release_run(answers.drop_last()) == self.release_begin());
            assert(answers.last() == answers[0]);
        } else {
            assert(answers.drop_last()[0] == answers[0]);
            self.release_of_dead_child(answers.drop_last());
        }
    }

    /// A release terminates the child only if it found the child alive,
    /// and it counts the child as a survivor only if the forced
    /// termination that took its answers from the second on reported `false`.
    pub proof fn release_survivor_outlived_exit(&self, answers: Seq<Response>) -> (end: int)
        requires
            self.release_run(answers).0 is Exiting || self.release_run(answers).0
                == (Release::Closing { survived: true }),
        ensures
            1 <= end <= answers.len(),
            status_of(answers[0]) == Ok::<WaitStatus, Errno>(WaitStatus::StillAlive),
            self.release_run(answers).0 is Exiting ==> end == answers.len() && self.exit_run(
                true,
                answers.subrange(1, end),
            ).1 is Call,
            self.release_run(answers).0 is Closing ==> self.exit_run(
                true,
                answers.subrange(1, end),
            ).1 == Step::<ExitOutcome>::Done(Ok(false)),
        decreases answers.len(),
    {
        if answers.len() == 0 {
            0
        } else {
            let before = answers.drop_last();
            let (state, step) = self.release_run(before);
            let rest = answers.subrange(1, answers.len() as int);
            if answers.len() == 1 {
                assert(before =~= Seq::<Response>::empty());
                assert(answers.last() == answers[0]);
                assert(rest =~= Seq::<Response>::empty());
                1
            } else {
                assert(before.subrange(1, before.len() as int) =~= rest.drop_last());
                assert(rest.last() == answers.last());
                self.release_closes_master(before);
                if state is Exiting {
                    let end = self.release_survivor_outlived_exit(before);
                    assert(before[0] == answers[0]);
                    self.release_runs_exit(before);
                    answers.len() as int
                } else {
                    let end = self.release_survivor_outlived_exit(before);
                    assert(before[0] == answers[0]);
                    assert(before.subrange(1, end) =~= answers.subrange(1, end));
                    end
                }
            }
        }
    }
}

} // verus!

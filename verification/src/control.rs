//! The controller's dealings with its terminal: handles, window size, echo.

use vstd::prelude::*;
use crate::errno::Errno;
use crate::process::PtyProcess;
use crate::stream::Stream;
use crate::sys::{Reply, Response, Step, Syscall, TermSettings};
use crate::termios;
use crate::termios::{echo, with_echo};
use crate::tty::{opened, read_opened};
use crate::window::{set_term_size, window};

verus! {

/// The pause between two looks at the terminal while a change of the echo
/// is awaited: 100 ms, in nanoseconds.
pub const ECHO_POLL_INTERVAL: u128 = 100_000_000;

/// What a change of the echo is doing: the request that it made last.
#[derive(Clone, Copy, Debug, PartialEq, Eq)]
pub enum EchoPhase {
    /// It asked for the attributes, to change the echo in them.
    Reading,
    /// It set the changed attributes.
    Setting,
    /// It read the clock for the first time.
    Starting,
    /// It read the clock again; `started` is the first reading.
    Timing { started: u128 },
    /// It asked for the attributes, to see whether the echo has changed.
    Looking { started: u128 },
    /// It pauses before it looks again.
    Pausing { started: u128 },
}

/// The state of a change of the echo: the echo wanted, how long to wait for
/// it in nanoseconds (`None`: as long as it takes), and the phase.
#[derive(Clone, Copy, Debug, PartialEq, Eq)]
pub struct EchoWait {
    /// The echo wanted.
    pub on: bool,
    /// How long to wait for it, in nanoseconds; `None`: as long as it takes.
    pub timeout: Option<u128>,
    /// What the change is waiting for.
    pub phase: EchoPhase,
}

/// The outcome of a change of the echo: whether the terminal was seen with
/// the echo wanted before the time was up.
pub type EchoOutcome = Result<bool, Errno>;

/// The attributes that an answer carries. An answer of another kind counts
/// as a failure with `EINVAL`.
pub open spec fn attributes(answer: Response) -> Result<TermSettings, Errno> {
    match answer {
        Ok(Reply::Termios(settings)) => Ok(settings),
        Ok(_) => Err(Errno::EINVAL),
        Err(e) => Err(e),
    }
}

/// Whether the terminal echoes, by an answer to a request for its attributes.
pub open spec fn echo_of(answer: Response) -> Result<bool, Errno> {
    match attributes(answer) {
        Ok(settings) => Ok(echo(settings)),
        Err(e) => Err(e),
    }
}

/// Whether `fd` is a terminal, by the answer to that question. An answer of
/// another kind counts as a failure with `EINVAL`.
pub open spec fn truth_of(answer: Response) -> Result<bool, Errno> {
    match answer {
        Ok(Reply::Bool(truth)) => Ok(truth),
        Ok(_) => Err(Errno::EINVAL),
        Err(e) => Err(e),
    }
}

/// The reading of the clock that an answer carries. An answer of another
/// kind counts as a failure with `EINVAL`.
pub open spec fn time_of(answer: Response) -> Result<u128, Errno> {
    match answer {
        Ok(Reply::Time { nanos }) => Ok(nanos),
        Ok(_) => Err(Errno::EINVAL),
        Err(e) => Err(e),
    }
}

/// Whether there is time left at the reading `now` of a wait that began at
/// the reading `started`: always without a timeout, else as long as less
/// than the timeout has passed. A clock found behind its first reading
/// counts as not having moved.
pub open spec fn time_left(timeout: Option<u128>, started: u128, now: u128) -> bool {
    match timeout {
        None => true,
        Some(limit) => now <= started || now - started < limit,
    }
}

/// Reads the attributes that an answer carries: see [`attributes`].
pub fn read_attributes(answer: Response) -> (settings: Result<TermSettings, Errno>)
    ensures
        settings == attributes(answer),
{
    match answer {
        Ok(Reply::Termios(settings)) => Ok(settings),
        Ok(_) => Err(Errno::EINVAL),
        Err(e) => Err(e),
    }
}

/// Reads the reading of the clock that an answer carries: see [`time_of`].
pub fn read_time(answer: Response) -> (nanos: Result<u128, Errno>)
    ensures
        nanos == time_of(answer),
{
    match answer {
        Ok(Reply::Time { nanos }) => Ok(nanos),
        Ok(_) => Err(Errno::EINVAL),
        Err(e) => Err(e),
    }
}

impl PtyProcess {
    /// The request for a duplicate of the master, to read from the child and
    /// write to it.
    pub fn get_raw_handle(&self) -> (call: Syscall)
        ensures
            call == (Syscall::Dup { fd: self.spec_master() }),
    {
        Syscall::Dup { fd: self.master() }
    }

    /// The stream over the duplicate of the master that the answer to
    /// [`PtyProcess::get_raw_handle`] carries, if it carries one.
    pub fn get_pty_stream(&self, answer: Response) -> (stream: Result<Stream, Errno>)
        ensures
            match opened(answer) {
                Ok(fd) => stream matches Ok(s) && s.spec_fd() == fd,
                Err(e) => stream == Err::<Stream, Errno>(e),
            },
    {
        match read_opened(answer) {
            Ok(fd) => Ok(Stream::new(fd)),
            Err(e) => Err(e),
        }
    }

    /// The request for the size of the terminal's window.
    pub fn get_window_size(&self) -> (call: Syscall)
        ensures
            call == (Syscall::GetWindowSize { fd: self.spec_master() }),
    {
        Syscall::GetWindowSize { fd: self.master() }
    }

    /// The request that sets the terminal's window to `cols` columns and `rows` rows.
    pub fn set_window_size(&self, cols: u16, rows: u16) -> (call: Syscall)
        ensures
            call == (Syscall::SetWindowSize { fd: self.spec_master(), size: window(cols, rows) }),
    {
        set_term_size(self.master(), cols, rows)
    }

    /// The request that tells whether the master is a terminal.
    pub fn isatty(&self) -> (call: Syscall)
        ensures
            call == (Syscall::IsATty { fd: self.spec_master() }),
    {
        Syscall::IsATty { fd: self.master() }
    }

    /// Reads the answer to [`PtyProcess::isatty`]: see [`truth_of`].
    pub fn isatty_answer(answer: Response) -> (truth: Result<bool, Errno>)
        ensures
            truth == truth_of(answer),
    {
        match answer {
            Ok(Reply::Bool(truth)) => Ok(truth),
            Ok(_) => Err(Errno::EINVAL),
            Err(e) => Err(e),
        }
    }

    /// The request for the terminal's attributes, to see whether it echoes.
    pub fn get_echo(&self) -> (call: Syscall)
        ensures
            call == (Syscall::GetTermios { fd: self.spec_master() }),
    {
        Syscall::GetTermios { fd: self.master() }
    }

    /// Reads the answer to [`PtyProcess::get_echo`]: see [`echo_of`].
    pub fn get_echo_answer(answer: Response) -> (on: Result<bool, Errno>)
        ensures
            on == echo_of(answer),
    {
        match read_attributes(answer) {
            Ok(settings) => Ok(termios::get_echo(&settings)),
            Err(e) => Err(e),
        }
    }

    /// How a change of the echo begins: by asking for the attributes.
    pub open spec fn echo_begin(&self, on: bool, timeout: Option<u128>) -> (
        EchoWait,
        Step<EchoOutcome>,
    ) {
        (
            EchoWait { on, timeout, phase: EchoPhase::Reading },
            Step::Call(Syscall::GetTermios { fd: self.spec_master() }),
        )
    }

    /// How a wait for the echo begins: by reading the clock.
    pub open spec fn wait_begin(&self, on: bool, timeout: Option<u128>) -> (
        EchoWait,
        Step<EchoOutcome>,
    ) {
        (EchoWait { on, timeout, phase: EchoPhase::Starting }, Step::Call(Syscall::Clock))
    }

    /// How a change of the echo goes on when `answer` arrives in `state`.
    ///
    /// - The attributes are read and set again with the echo as wanted.
    /// - Then the wait begins. The clock is read once to begin with and once
    ///   before every look at the terminal. If the time is up, the outcome
    ///   is `false`. Else the attributes are read: if the echo is as wanted,
    ///   the outcome is `true`; else the machine pauses for 100 ms and reads
    ///   the clock again.
    /// - A failure to read or set the attributes, or to read the clock, ends
    ///   the change with that error.
    pub open spec fn echo_next(&self, state: EchoWait, answer: Response) -> (
        EchoWait,
        Step<EchoOutcome>,
    ) {
        match state.phase {
            EchoPhase::Reading => match attributes(answer) {
                Ok(settings) => (
                    EchoWait { phase: EchoPhase::Setting, ..state },
                    Step::Call(
                        Syscall::SetTermios {
                            fd: self.spec_master(),
                            settings: with_echo(settings, state.on),
                        },
                    ),
                ),
                Err(e) => (state, Step::Done(Err(e))),
            },
            EchoPhase::Setting => match answer {
                Ok(_) => (EchoWait { phase: EchoPhase::Starting, ..state }, Step::Call(Syscall::Clock)),
                Err(e) => (state, Step::Done(Err(e))),
            },
            EchoPhase::Starting => match time_of(answer) {
                Ok(started) => (
                    EchoWait { phase: EchoPhase::Timing { started }, ..state },
                    Step::Call(Syscall::Clock),
                ),
                Err(e) => (state, Step::Done(Err(e))),
            },
            EchoPhase::Timing { started } => match time_of(answer) {
                Ok(now) => if time_left(state.timeout, started, now) {
                    (
                        EchoWait { phase: EchoPhase::Looking { started }, ..state },
                        Step::Call(Syscall::GetTermios { fd: self.spec_master() }),
                    )
                } else {
                    (state, Step::Done(Ok(false)))
                },
                Err(e) => (state, Step::Done(Err(e))),
            },
            EchoPhase::Looking { started } => match echo_of(answer) {
                Ok(on) => if on == state.on {
                    (state, Step::Done(Ok(true)))
                } else {
                    (
                        EchoWait { phase: EchoPhase::Pausing { started }, ..state },
                        Step::Call(Syscall::Sleep { nanos: ECHO_POLL_INTERVAL }),
                    )
                },
                Err(e) => (state, Step::Done(Err(e))),
            },
            EchoPhase::Pausing { started } => (
                EchoWait { phase: EchoPhase::Timing { started }, ..state },
                Step::Call(Syscall::Clock),
            ),
        }
    }

    /// Where a change of the echo stands after the answers `answers`, each
    /// handed to the machine in turn until it has finished.
    pub open spec fn echo_run(&self, on: bool, timeout: Option<u128>, answers: Seq<Response>) -> (
        EchoWait,
        Step<EchoOutcome>,
    )
        decreases answers.len(),
    {
        if answers.len() == 0 {
            self.echo_begin(on, timeout)
        } else {
            let (state, step) = self.echo_run(on, timeout, answers.drop_last());
            match step {
                Step::Done(_) => (state, step),
                Step::Call(_) => self.echo_next(state, answers.last()),
            }
        }
    }

    /// Begins to switch the echo of the terminal on or off and to wait, for
    /// `timeout` nanoseconds at most, until the terminal shows it. Returns
    /// the machine's first state and step; [`PtyProcess::echo_step`] goes on.
    pub fn set_echo(&self, on: bool, timeout: Option<u128>) -> (r: (EchoWait, Step<EchoOutcome>))
        ensures
            r == self.echo_begin(on, timeout),
    {
        (EchoWait { on, timeout, phase: EchoPhase::Reading }, Step::Call(self.get_echo()))
    }

    /// Begins to wait, for `timeout` nanoseconds at most, until the terminal
    /// shows the echo `on`. Returns the machine's first state and step;
    /// [`PtyProcess::echo_step`] goes on.
    pub fn wait_echo(&self, on: bool, timeout: Option<u128>) -> (r: (EchoWait, Step<EchoOutcome>))
        ensures
            r == self.wait_begin(on, timeout),
    {
        (EchoWait { on, timeout, phase: EchoPhase::Starting }, Step::Call(Syscall::Clock))
    }

    /// Takes the answer to the request that the change of the echo made
    /// last, and returns the next state and step: see [`PtyProcess::echo_next`].
    /// The attributes that it sets have the echo as wanted.
    pub fn echo_step(&self, state: EchoWait, answer: Response) -> (r: (EchoWait, Step<EchoOutcome>))
        ensures
            r == self.echo_next(state, answer),
            r.1 matches Step::Call(Syscall::SetTermios { settings, .. }) ==> echo(settings)
                == state.on,
    {
        match state.phase {
            EchoPhase::Reading => match read_attributes(answer) {
                Ok(settings) => (
                    EchoWait { phase: EchoPhase::Setting, ..state },
                    Step::Call(
                        Syscall::SetTermios {
                            fd: self.master(),
                            settings: termios::set_echo(settings, state.on),
                        },
                    ),
                ),
                Err(e) => (state, Step::Done(Err(e))),
            },
            EchoPhase::Setting => match answer {
                Ok(_) => (EchoWait { phase: EchoPhase::Starting, ..state }, Step::Call(Syscall::Clock)),
                Err(e) => (state, Step::Done(Err(e))),
            },
            EchoPhase::Starting => match read_time(answer) {
                Ok(started) => (
                    EchoWait { phase: EchoPhase::Timing { started }, ..state },
                    Step::Call(Syscall::Clock),
                ),
                Err(e) => (state, Step::Done(Err(e))),
            },
            EchoPhase::Timing { started } => match read_time(answer) {
                Ok(now) => {
                    let left: bool = match state.timeout {
                        None => true,
                        Some(limit) => now <= started || now - started < limit,
                    };
                    if left {
                        (
                            EchoWait { phase: EchoPhase::Looking { started }, ..state },
                            Step::Call(self.get_echo()),
                        )
                    } else {
                        (state, Step::Done(Ok(false)))
                    }
                },
                Err(e) => (state, Step::Done(Err(e))),
            },
            EchoPhase::Looking { started } => match PtyProcess::get_echo_answer(answer) {
                Ok(on) => if on == state.on {
                    (state, Step::Done(Ok(true)))
                } else {
                    (
                        EchoWait { phase: EchoPhase::Pausing { started }, ..state },
                        Step::Call(Syscall::Sleep { nanos: ECHO_POLL_INTERVAL }),
                    )
                },
                Err(e) => (state, Step::Done(Err(e))),
            },
            EchoPhase::Pausing { started } => (
                EchoWait { phase: EchoPhase::Timing { started }, ..state },
                Step::Call(Syscall::Clock),
            ),
        }
    }
}


impl PtyProcess {
    /// A change of the echo first sets the attributes it finds, with the
    /// echo as wanted and nothing else changed, and reads the clock when
    /// that has succeeded.
    pub proof fn echo_is_set_first(
        &self,
        on: bool,
        timeout: Option<u128>,
        found: TermSettings,
        set: Reply,
    )
        ensures
            self.echo_run(on, timeout, seq![Ok(Reply::Termios(found))]).1 == Step::<
                EchoOutcome,
            >::Call(Syscall::SetTermios { fd: self.spec_master(), settings: with_echo(found, on) }),
            self.echo_run(on, timeout, seq![Ok(Reply::Termios(found)), Ok(set)]) == (
                EchoWait { on, timeout, phase: EchoPhase::Starting },
                Step::<EchoOutcome>::Call(Syscall::Clock),
            ),
    {
        let first: Response = Ok(Reply::Termios(found));
        let s1 = seq![first];
        let s2 = seq![first, Ok::<Reply, Errno>(set)];
        assert(s1.drop_last() =~= Seq::<Response>::empty());
        assert(s2.drop_last() =~= s1);
        assert(self.echo_run(on, timeout, Seq::<Response>::empty()) == self.echo_begin(
            on,
            timeout,
        ));
        assert(self.echo_run(on, timeout, s1) == self.echo_next(
            EchoWait { on, timeout, phase: EchoPhase::Reading },
            first,
        ));
    }

    /// A change of the echo reports `true` only if the last answer it took
    /// showed the terminal with the echo as wanted, and `false` only if the
    /// last answer it took was a reading of the clock with no time left.
    pub proof fn echo_outcome_was_seen(
        &self,
        on: bool,
        timeout: Option<u128>,
        answers: Seq<Response>,
    ) -> (last: int)
        requires
            self.echo_run(on, timeout, answers).1 matches Step::Done(Ok(_)),
        ensures
            0 <= last < answers.len(),
            self.echo_run(on, timeout, answers.take(last)).1 is Call,
            self.echo_run(on, timeout, answers).1 == Step::<EchoOutcome>::Done(Ok(true))
                ==> echo_of(answers[last]) == Ok::<bool, Errno>(on),
            self.echo_run(on, timeout, answers).1 == Step::<EchoOutcome>::Done(Ok(false)) ==> {
                &&& timeout is Some
                &&& self.echo_run(on, timeout, answers.take(last)).0.phase matches EchoPhase::Timing {
                    started,
                }
                &&& time_of(answers[last]) matches Ok(now)
                &&& !time_left(timeout, started, now)
            },
        decreases answers.len(),
    {
        self.echo_run_keeps_wish(on, timeout, answers.drop_last());
        if answers.len() == 0 {
            0
        } else {
            let before = answers.drop_last();
            let (state, step) = self.echo_run(on, timeout, before);
            match step {
                Step::Done(_) => {
                    let last = self.echo_outcome_was_seen(on, timeout, before);
                    assert(before.take(last) == answers.take(last));
                    last
                },
                Step::Call(_) => {
                    assert(answers.take(answers.len() - 1) == before);
                    answers.len() - 1
                },
            }
        }
    }

    /// In every run of a change of the echo the state remembers the echo
    /// wanted and the timeout.
    pub proof fn echo_run_keeps_wish(&self, on: bool, timeout: Option<u128>, answers: Seq<Response>)
        ensures
            self.echo_run(on, timeout, answers).0.on == on,
            self.echo_run(on, timeout, answers).0.timeout == timeout,
        decreases answers.len(),
    {
        if answers.len() > 0 {
            self.echo_run_keeps_wish(on, timeout, answers.drop_last());
        }
    }
}

} // verus!

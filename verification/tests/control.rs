use nix::sys::termios::LocalFlags;
use ptyprocess::control::{EchoOutcome, EchoPhase, EchoWait, ECHO_POLL_INTERVAL};
use ptyprocess::errno::Errno;
use ptyprocess::process::PtyProcess;
use ptyprocess::sys::{Reply, Response, Step, Syscall, TermSettings, Winsize};
use ptyprocess::window::{get_term_size, set_term_size, DEFAULT_TERM_COLS, DEFAULT_TERM_ROWS};

const ECHO: u64 = LocalFlags::ECHO.bits() as u64;

fn controller() -> PtyProcess {
    PtyProcess::new(5, 4242, 4, 3).unwrap()
}

fn terminal(local: u64) -> Response {
    Ok(Reply::Termios(TermSettings {
        input: 0,
        output: 0,
        control: 0,
        local,
        veof: 4,
        vintr: 3,
        vmin: 1,
        vtime: 0,
    }))
}

fn time(nanos: u128) -> Response {
    Ok(Reply::Time { nanos })
}

/// Runs a machine of the echo from its first state and step against the
/// answers of `script`, and returns the requests it made and its outcome,
/// if it got that far.
fn run(
    process: &PtyProcess,
    begin: (EchoWait, Step<EchoOutcome>),
    script: &[Response],
) -> (Vec<Syscall>, Option<EchoOutcome>) {
    let mut calls = Vec::new();
    let (mut state, mut step) = begin;
    let mut answers = script.iter();
    loop {
        match step {
            Step::Done(outcome) => return (calls, Some(outcome)),
            Step::Call(call) => {
                calls.push(call);
                match answers.next() {
                    None => return (calls, None),
                    Some(answer) => {
                        let next = process.echo_step(state, *answer);
                        state = next.0;
                        step = next.1;
                    }
                }
            }
        }
    }
}

#[test]
fn window_of_a_new_terminal_is_80_by_24() {
    assert_eq!(DEFAULT_TERM_COLS, 80);
    assert_eq!(DEFAULT_TERM_ROWS, 24);
    let size = Winsize { rows: 24, cols: 80, xpixel: 0, ypixel: 0 };
    assert_eq!(
        set_term_size(0, DEFAULT_TERM_COLS, DEFAULT_TERM_ROWS),
        Syscall::SetWindowSize { fd: 0, size }
    );
    assert_eq!(get_term_size(Ok(Reply::Window(size))), Ok((80, 24)));
}

#[test]
fn window_size_is_set_and_read_as_columns_and_rows() {
    let process = controller();
    assert_eq!(
        process.set_window_size(100, 200),
        Syscall::SetWindowSize {
            fd: 5,
            size: Winsize { rows: 200, cols: 100, xpixel: 0, ypixel: 0 }
        }
    );
    assert_eq!(process.get_window_size(), Syscall::GetWindowSize { fd: 5 });
    assert_eq!(
        get_term_size(Ok(Reply::Window(Winsize { rows: 200, cols: 100, xpixel: 7, ypixel: 9 }))),
        Ok((100, 200))
    );
    assert_eq!(get_term_size(Err(Errno::Other(25))), Err(Errno::Other(25)));
    assert_eq!(get_term_size(Ok(Reply::Unit)), Err(Errno::EINVAL));
}

#[test]
fn handle_is_a_duplicate_of_the_master() {
    let process = controller();
    assert_eq!(process.get_raw_handle(), Syscall::Dup { fd: 5 });
    let stream = process.get_pty_stream(Ok(Reply::Fd(9))).unwrap();
    assert_eq!(stream.fd(), 9);
    assert_eq!(process.get_pty_stream(Err(Errno::Other(24))), Err(Errno::Other(24)));
    assert_eq!(process.get_pty_stream(Ok(Reply::Unit)), Err(Errno::EINVAL));
}

#[test]
fn isatty_asks_about_the_master() {
    let process = controller();
    assert_eq!(process.isatty(), Syscall::IsATty { fd: 5 });
    assert_eq!(PtyProcess::isatty_answer(Ok(Reply::Bool(true))), Ok(true));
    assert_eq!(PtyProcess::isatty_answer(Ok(Reply::Bool(false))), Ok(false));
    assert_eq!(PtyProcess::isatty_answer(Err(Errno::Other(25))), Err(Errno::Other(25)));
    assert_eq!(PtyProcess::isatty_answer(Ok(Reply::Unit)), Err(Errno::EINVAL));
}

#[test]
fn echo_is_read_from_the_attributes_of_the_master() {
    let process = controller();
    assert_eq!(process.get_echo(), Syscall::GetTermios { fd: 5 });
    assert_eq!(PtyProcess::get_echo_answer(terminal(ECHO)), Ok(true));
    assert_eq!(PtyProcess::get_echo_answer(terminal(0)), Ok(false));
    assert_eq!(PtyProcess::get_echo_answer(terminal(!ECHO)), Ok(false));
    assert_eq!(PtyProcess::get_echo_answer(Err(Errno::EIO)), Err(Errno::EIO));
    assert_eq!(PtyProcess::get_echo_answer(Ok(Reply::Unit)), Err(Errno::EINVAL));
}

#[test]
fn set_echo_sets_the_attributes_and_waits_until_the_terminal_shows_them() {
    let process = controller();
    let (calls, outcome) = run(
        &process,
        process.set_echo(true, Some(500_000_000)),
        &[
            terminal(0),
            Ok(Reply::Unit),
            time(1_000),
            time(1_001),
            terminal(0),
            Ok(Reply::Unit),
            time(100_002_000),
            terminal(ECHO),
        ],
    );
    assert_eq!(ECHO_POLL_INTERVAL, 100_000_000);
    assert_eq!(calls.len(), 8);
    assert_eq!(calls[0], Syscall::GetTermios { fd: 5 });
    match calls[1] {
        Syscall::SetTermios { fd: 5, settings } => assert_eq!(settings.local, ECHO),
        other => panic!("not setting the attributes: {:?}", other),
    }
    assert_eq!(calls[2], Syscall::Clock);
    assert_eq!(calls[3], Syscall::Clock);
    assert_eq!(calls[4], Syscall::GetTermios { fd: 5 });
    assert_eq!(calls[5], Syscall::Sleep { nanos: 100_000_000 });
    assert_eq!(calls[6], Syscall::Clock);
    assert_eq!(calls[7], Syscall::GetTermios { fd: 5 });
    assert_eq!(outcome, Some(Ok(true)));
}

#[test]
fn wait_for_the_echo_gives_up_when_the_time_is_up() {
    let process = controller();
    let (calls, outcome) = run(
        &process,
        process.wait_echo(true, Some(150)),
        &[time(1_000), time(1_010), terminal(0), Ok(Reply::Unit), time(1_149), terminal(0),
          Ok(Reply::Unit), time(1_150)],
    );
    assert_eq!(calls.len(), 8);
    assert_eq!(outcome, Some(Ok(false)));
}

#[test]
fn wait_without_a_timeout_goes_on_looking() {
    let process = controller();
    let mut script = vec![time(0)];
    for round in 0..50 {
        script.push(time(u128::MAX - 50 + round));
        script.push(terminal(ECHO));
        script.push(Ok(Reply::Unit));
    }
    let (calls, outcome) = run(&process, process.wait_echo(false, None), &script);
    assert_eq!(calls.len(), 152);
    assert_eq!(outcome, None);
}

#[test]
fn wait_with_no_time_at_all_does_not_look_at_the_terminal() {
    let process = controller();
    let (calls, outcome) = run(&process, process.wait_echo(true, Some(0)), &[time(7), time(8)]);
    assert_eq!(calls, vec![Syscall::Clock, Syscall::Clock]);
    assert_eq!(outcome, Some(Ok(false)));
}

#[test]
fn clock_that_runs_backwards_counts_as_standing_still() {
    let process = controller();
    let state = EchoWait { on: true, timeout: Some(10), phase: EchoPhase::Timing { started: 100 } };
    assert_eq!(process.echo_step(state, time(50)).1, Step::Call(Syscall::GetTermios { fd: 5 }));
    assert_eq!(process.echo_step(state, time(109)).1, Step::Call(Syscall::GetTermios { fd: 5 }));
    assert_eq!(process.echo_step(state, time(110)).1, Step::Done(Ok(false)));
}

#[test]
fn change_of_the_echo_hands_on_the_failure_of_a_call() {
    let process = controller();
    let (_, outcome) = run(&process, process.set_echo(true, None), &[Err(Errno::Other(25))]);
    assert_eq!(outcome, Some(Err(Errno::Other(25))));
    let (_, outcome) =
        run(&process, process.set_echo(true, None), &[terminal(0), Err(Errno::EIO)]);
    assert_eq!(outcome, Some(Err(Errno::EIO)));
    let (_, outcome) = run(&process, process.wait_echo(true, None), &[Err(Errno::EINVAL)]);
    assert_eq!(outcome, Some(Err(Errno::EINVAL)));
    let (_, outcome) = run(
        &process,
        process.wait_echo(true, None),
        &[time(0), time(1), Err(Errno::EIO)],
    );
    assert_eq!(outcome, Some(Err(Errno::EIO)));
}

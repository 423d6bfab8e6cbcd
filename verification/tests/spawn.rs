use ptyprocess::errno::{Errno, Error};
use ptyprocess::process::PtyProcess;
use ptyprocess::spawn::{Spawn, SpawnOutcome, SpawnPhase, Spawned};
use ptyprocess::sys::{ForkResult, Reply, Response, Step, Syscall, TermSettings, WaitStatus, Winsize};
use ptyprocess::wire::encode_exec_report;

const DEFAULT_WINDOW: Winsize = Winsize { rows: 24, cols: 80, xpixel: 0, ypixel: 0 };

fn terminal(veof: u8, vintr: u8) -> Response {
    Ok(Reply::Termios(TermSettings {
        input: 0,
        output: 0,
        control: 0,
        local: 0,
        veof,
        vintr,
        vmin: 1,
        vtime: 0,
    }))
}

fn report(code: i32) -> Response {
    Ok(Reply::Report { bytes: encode_exec_report(code), len: 4 })
}

fn end_of_pipe() -> Response {
    Ok(Reply::Report { bytes: [0; 4], len: 0 })
}

/// Runs a spawn against the answers of `script`, and returns the requests
/// it made and its outcome, if it got that far.
fn spawn(script: &[Response]) -> (Vec<Syscall>, Option<SpawnOutcome>) {
    let mut calls = Vec::new();
    let (mut state, mut step) = PtyProcess::spawn();
    let mut answers = script.iter();
    loop {
        match step {
            Step::Done(outcome) => return (calls, Some(outcome)),
            Step::Call(call) => {
                calls.push(call);
                match answers.next() {
                    None => return (calls, None),
                    Some(answer) => {
                        let next = PtyProcess::spawn_step(state, *answer);
                        state = next.0;
                        step = next.1;
                    }
                }
            }
        }
    }
}

/// The answers of a spawn up to the fork, with the master 5 and the pipe 6, 7.
fn until_fork() -> Vec<Response> {
    vec![
        terminal(4, 3),
        Ok(Reply::Fd(5)),
        Ok(Reply::Unit),
        Ok(Reply::Unit),
        Ok(Reply::Pipe { read: 6, write: 7 }),
    ]
}

fn closes(calls: &[Syscall]) -> Vec<i32> {
    calls
        .iter()
        .filter_map(|call| match call {
            Syscall::Close { fd } => Some(*fd),
            _ => None,
        })
        .collect()
}

#[test]
fn spawn_in_the_parent_yields_the_controller() {
    let mut script = until_fork();
    script.push(Ok(Reply::Forked(ForkResult::Parent { child: 4242 })));
    script.push(Ok(Reply::Unit));
    script.push(end_of_pipe());
    script.push(Ok(Reply::Unit));
    script.push(Ok(Reply::Unit));
    let (calls, outcome) = spawn(&script);
    assert_eq!(
        calls,
        vec![
            Syscall::GetTermios { fd: 0 },
            Syscall::OpenPty,
            Syscall::GrantPty { master: 5 },
            Syscall::UnlockPty { master: 5 },
            Syscall::Pipe,
            Syscall::Fork,
            Syscall::Close { fd: 7 },
            Syscall::ReadReport { fd: 6 },
            Syscall::Close { fd: 6 },
            Syscall::SetWindowSize { fd: 5, size: DEFAULT_WINDOW },
        ]
    );
    let process = match outcome {
        Some(Ok(Spawned::Parent(process))) => process,
        other => panic!("no controller: {:?}", other),
    };
    assert_eq!(process.pid(), 4242);
    assert_eq!(process.master(), 5);
    assert_eq!(process.get_eof_char(), 4);
    assert_eq!(process.get_intr_char(), 3);
    assert_eq!(process.terminate_delay(), 100_000_000);
}

#[test]
fn spawn_in_the_child_hands_on_the_descriptors() {
    let mut script = until_fork();
    script.push(Ok(Reply::Forked(ForkResult::Child)));
    let (calls, outcome) = spawn(&script);
    assert_eq!(calls.len(), 6);
    assert_eq!(
        outcome,
        Some(Ok(Spawned::Child { master: 5, report_read: 6, report_write: 7 }))
    );
}

#[test]
fn characters_are_those_of_the_first_terminal_that_answers() {
    let tail = vec![
        Ok(Reply::Fd(5)),
        Ok(Reply::Unit),
        Ok(Reply::Unit),
        Ok(Reply::Pipe { read: 6, write: 7 }),
        Ok(Reply::Forked(ForkResult::Parent { child: 9 })),
        Ok(Reply::Unit),
        end_of_pipe(),
        Ok(Reply::Unit),
        Ok(Reply::Unit),
    ];
    let chars = |head: Vec<Response>| {
        let mut script = head;
        script.extend(tail.iter().cloned());
        match spawn(&script) {
            (calls, Some(Ok(Spawned::Parent(p)))) => {
                (calls[..2].to_vec(), p.get_eof_char(), p.get_intr_char())
            }
            other => panic!("no controller: {:?}", other),
        }
    };
    let (calls, eof, intr) = chars(vec![terminal(0x1a, 0x1b)]);
    assert_eq!(calls, vec![Syscall::GetTermios { fd: 0 }, Syscall::OpenPty]);
    assert_eq!((eof, intr), (0x1a, 0x1b));
    let (calls, eof, intr) = chars(vec![Err(Errno::Other(25)), terminal(0x2a, 0x2b)]);
    assert_eq!(calls, vec![Syscall::GetTermios { fd: 0 }, Syscall::GetTermios { fd: 1 }]);
    assert_eq!((eof, intr), (0x2a, 0x2b));
    let (_, eof, intr) = chars(vec![Err(Errno::Other(25)), Err(Errno::Other(25))]);
    assert_eq!((eof, intr), (4, 3));
}

#[test]
fn report_of_the_child_is_exec_failed_and_the_child_is_reaped() {
    let mut script = until_fork();
    script.push(Ok(Reply::Forked(ForkResult::Parent { child: 4242 })));
    script.push(Ok(Reply::Unit));
    script.push(report(nix::libc::ENOENT));
    script.push(Ok(Reply::Status(WaitStatus::Exited { pid: 4242, code: 2 })));
    script.push(Ok(Reply::Unit));
    script.push(Ok(Reply::Unit));
    let (calls, outcome) = spawn(&script);
    assert_eq!(outcome, Some(Err(Error::ExecFailed(Errno::ENOENT))));
    assert_eq!(calls[8], Syscall::WaitPid { pid: 4242, nohang: false });
    assert_eq!(closes(&calls), vec![7, 6, 5]);
}

#[test]
fn empty_program_fails_with_no_such_file() {
    let mut script = until_fork();
    script.push(Ok(Reply::Forked(ForkResult::Parent { child: 4242 })));
    script.push(Ok(Reply::Unit));
    script.push(Ok(Reply::Report { bytes: [0, 0, 0, 2], len: 4 }));
    script.push(Err(Errno::ECHILD));
    script.push(Err(Errno::Other(9)));
    script.push(Err(Errno::Other(9)));
    let (_, outcome) = spawn(&script);
    match outcome {
        Some(Err(Error::ExecFailed(errno))) => assert_eq!(errno.raw(), nix::libc::ENOENT),
        other => panic!("not an exec failure: {:?}", other),
    }
}

#[test]
fn short_report_is_a_pipe_failure_and_nothing_leaks() {
    let mut script = until_fork();
    script.push(Ok(Reply::Forked(ForkResult::Parent { child: 4242 })));
    script.push(Ok(Reply::Unit));
    script.push(Ok(Reply::Report { bytes: [0, 0, 0, 2], len: 3 }));
    script.push(Ok(Reply::Unit));
    script.push(Ok(Reply::Unit));
    let (calls, outcome) = spawn(&script);
    assert_eq!(outcome, Some(Err(Error::PipeFailed(None))));
    assert_eq!(closes(&calls), vec![7, 6, 5]);
}

#[test]
fn failure_to_allocate_closes_the_master() {
    let (calls, outcome) = spawn(&[terminal(4, 3), Err(Errno::Other(24))]);
    assert_eq!(outcome, Some(Err(Error::PtyAllocFailed(Errno::Other(24)))));
    assert_eq!(closes(&calls), Vec::<i32>::new());

    let (calls, outcome) =
        spawn(&[terminal(4, 3), Ok(Reply::Fd(5)), Err(Errno::Other(13)), Ok(Reply::Unit)]);
    assert_eq!(outcome, Some(Err(Error::PtyAllocFailed(Errno::Other(13)))));
    assert_eq!(closes(&calls), vec![5]);

    let (calls, outcome) = spawn(&[
        terminal(4, 3),
        Ok(Reply::Fd(5)),
        Ok(Reply::Unit),
        Err(Errno::EINVAL),
        Err(Errno::Other(9)),
    ]);
    assert_eq!(outcome, Some(Err(Error::PtyAllocFailed(Errno::EINVAL))));
    assert_eq!(closes(&calls), vec![5]);
}

#[test]
fn failure_to_make_the_pipe_closes_the_master() {
    let (calls, outcome) = spawn(&[
        terminal(4, 3),
        Ok(Reply::Fd(5)),
        Ok(Reply::Unit),
        Ok(Reply::Unit),
        Err(Errno::Other(24)),
        Ok(Reply::Unit),
    ]);
    assert_eq!(outcome, Some(Err(Error::PipeFailed(Some(Errno::Other(24))))));
    assert_eq!(closes(&calls), vec![5]);
}

#[test]
fn failure_to_fork_closes_the_pipe_and_the_master() {
    let mut script = until_fork();
    script.push(Err(Errno::EAGAIN));
    script.push(Ok(Reply::Unit));
    script.push(Ok(Reply::Unit));
    script.push(Ok(Reply::Unit));
    let (calls, outcome) = spawn(&script);
    assert_eq!(outcome, Some(Err(Error::ForkFailed(Errno::EAGAIN))));
    assert_eq!(closes(&calls), vec![7, 6, 5]);
}

#[test]
fn failure_to_read_the_pipe_is_a_pipe_failure() {
    let mut script = until_fork();
    script.push(Ok(Reply::Forked(ForkResult::Parent { child: 4242 })));
    script.push(Ok(Reply::Unit));
    script.push(Err(Errno::EIO));
    script.push(Ok(Reply::Unit));
    script.push(Ok(Reply::Unit));
    let (calls, outcome) = spawn(&script);
    assert_eq!(outcome, Some(Err(Error::PipeFailed(Some(Errno::EIO)))));
    assert_eq!(closes(&calls), vec![7, 6, 5]);
}

#[test]
fn failure_to_size_the_window_closes_the_master() {
    let mut script = until_fork();
    script.push(Ok(Reply::Forked(ForkResult::Parent { child: 4242 })));
    script.push(Ok(Reply::Unit));
    script.push(end_of_pipe());
    script.push(Ok(Reply::Unit));
    script.push(Err(Errno::Other(25)));
    script.push(Ok(Reply::Unit));
    let (calls, outcome) = spawn(&script);
    assert_eq!(outcome, Some(Err(Error::SyscallFailed(Errno::Other(25)))));
    assert_eq!(closes(&calls), vec![7, 6, 5]);
}

#[test]
fn pid_that_is_none_is_a_fork_failure() {
    let mut script = until_fork();
    script.push(Ok(Reply::Forked(ForkResult::Parent { child: 0 })));
    script.push(Ok(Reply::Unit));
    script.push(Ok(Reply::Unit));
    script.push(Ok(Reply::Unit));
    let (calls, outcome) = spawn(&script);
    assert_eq!(outcome, Some(Err(Error::ForkFailed(Errno::EINVAL))));
    assert_eq!(closes(&calls), vec![7, 6, 5]);
}

#[test]
fn spawn_begins_with_nothing_held() {
    let (state, step) = PtyProcess::spawn();
    assert_eq!(
        state,
        Spawn {
            eof_char: 4,
            intr_char: 3,
            master: -1,
            report_read: -1,
            report_write: -1,
            child: 0,
            phase: SpawnPhase::ReadingStdin,
        }
    );
    assert_eq!(step, Step::Call(Syscall::GetTermios { fd: 0 }));
}

fn alphabet() -> Vec<Response> {
    vec![
        Ok(Reply::Unit),
        Ok(Reply::Fd(5)),
        Ok(Reply::Fd(-1)),
        Ok(Reply::Pipe { read: 6, write: 7 }),
        Ok(Reply::Pipe { read: 6, write: -1 }),
        Ok(Reply::Forked(ForkResult::Parent { child: 9 })),
        Ok(Reply::Forked(ForkResult::Parent { child: -1 })),
        Ok(Reply::Forked(ForkResult::Child)),
        end_of_pipe(),
        report(2),
        Ok(Reply::Report { bytes: [0, 0, 0, 2], len: 1 }),
        terminal(4, 3),
        Err(Errno::EIO),
    ]
}

fn held(state: &Spawn) -> Vec<i32> {
    let mut fds: Vec<i32> = [state.master, state.report_read, state.report_write]
        .iter()
        .cloned()
        .filter(|fd| *fd >= 0)
        .collect();
    fds.sort();
    fds.dedup();
    fds
}

fn gained(state: &Spawn, answer: &Response) -> Vec<i32> {
    let fds = match (state.phase, answer) {
        (SpawnPhase::OpeningPty, Ok(Reply::Fd(fd))) => vec![*fd],
        (SpawnPhase::Piping, Ok(Reply::Pipe { read, write })) => vec![*read, *write],
        _ => vec![],
    };
    fds.into_iter().filter(|fd| *fd >= 0).collect()
}

#[test]
fn every_reachable_step_keeps_the_books() {
    let (begin, _) = PtyProcess::spawn();
    let mut seen = vec![begin];
    let mut todo = vec![begin];
    let mut failures = 0;
    let mut successes = 0;
    while let Some(state) = todo.pop() {
        for answer in alphabet() {
            let (next, step) = PtyProcess::spawn_step(state, answer);
            let mut had = held(&state);
            had.extend(gained(&state, &answer));
            for fd in held(&next) {
                assert!(had.contains(&fd), "{:?} {:?}", state, answer);
            }
            for fd in &had {
                if !held(&next).contains(fd) {
                    assert_eq!(step, Step::Call(Syscall::Close { fd: *fd }));
                }
            }
            match step {
                Step::Done(Err(_)) => {
                    failures += 1;
                    assert_eq!(held(&next), Vec::<i32>::new());
                }
                Step::Done(Ok(Spawned::Parent(process))) => {
                    successes += 1;
                    assert_eq!(held(&next), vec![process.master()]);
                    assert_eq!(process.pid(), 9);
                }
                Step::Done(Ok(Spawned::Child { .. })) => {
                    assert_eq!(held(&next), vec![5, 6, 7]);
                }
                Step::Call(_) => {
                    if !seen.contains(&next) {
                        seen.push(next);
                        todo.push(next);
                    }
                }
            }
        }
    }
    assert!(failures > 0 && successes > 0);
    assert!(seen.len() > 20);
}

use nix::sys::termios::LocalFlags;
use ptyprocess::child::{child, child_step, Child, ChildPhase};
use ptyprocess::errno::Errno;
use ptyprocess::sys::{
    OpenMode, Platform, Reply, Response, Step, Syscall, TermSettings, TtyPath, Winsize,
};

const ECHO: u64 = LocalFlags::ECHO.bits() as u64;
const ICANON: u64 = LocalFlags::ICANON.bits() as u64;

fn terminal(local: u64) -> TermSettings {
    TermSettings { input: 1, output: 2, control: 3, local, veof: 4, vintr: 3, vmin: 1, vtime: 0 }
}

/// Runs a child with the master 5 and the report pipe 6, 7 against the
/// answers of `script`, and returns the requests it made and its exit code,
/// if it got that far.
fn run(platform: Platform, script: &[Response]) -> (Vec<Syscall>, Option<i32>) {
    let mut calls = Vec::new();
    let (mut state, mut step) = child(5, 6, 7, platform);
    let mut answers = script.iter();
    loop {
        match step {
            Step::Done(code) => return (calls, Some(code)),
            Step::Call(call) => {
                calls.push(call);
                match answers.next() {
                    None => return (calls, None),
                    Some(answer) => {
                        let next = child_step(state, *answer);
                        state = next.0;
                        step = next.1;
                    }
                }
            }
        }
    }
}

/// The answers that take a child on macOS up to its exec, with the slave 8
/// and room for 12 descriptors.
fn until_exec() -> Vec<Response> {
    let mut script = vec![Ok(Reply::Fd(8)), Ok(Reply::Unit), Ok(Reply::Unit)];
    script.push(Ok(Reply::Fd(8)));
    for _ in 0..6 {
        script.push(Ok(Reply::Unit));
    }
    script.push(Ok(Reply::Termios(terminal(ECHO | ICANON))));
    script.push(Ok(Reply::Unit));
    script.push(Ok(Reply::Unit));
    script.push(Ok(Reply::Limit(Some(12))));
    for _ in 0..5 {
        script.push(Err(Errno::Other(9)));
    }
    script.push(Ok(Reply::Unit));
    script.push(Ok(Reply::Unit));
    script.push(Err(Errno::Other(9)));
    script.push(Ok(Reply::Unit));
    script
}

#[test]
fn child_prepares_its_terminal_and_its_descriptors_and_execs() {
    let (calls, code) = run(Platform::MacOs, &until_exec());
    assert_eq!(code, None);
    let slave = TtyPath::Slave { master: 5 };
    assert_eq!(
        calls,
        vec![
            Syscall::Open { path: slave, mode: OpenMode::ReadWriteNoCtty },
            Syscall::SetSid,
            Syscall::SetControllingTty { fd: 8 },
            Syscall::Open { path: slave, mode: OpenMode::ReadWriteNoCtty },
            Syscall::Close { fd: 0 },
            Syscall::Close { fd: 1 },
            Syscall::Close { fd: 2 },
            Syscall::Dup2 { from: 8, to: 0 },
            Syscall::Dup2 { from: 8, to: 1 },
            Syscall::Dup2 { from: 8, to: 2 },
            Syscall::GetTermios { fd: 0 },
            Syscall::SetTermios { fd: 0, settings: terminal(ICANON) },
            Syscall::SetWindowSize {
                fd: 0,
                size: Winsize { rows: 24, cols: 80, xpixel: 0, ypixel: 0 }
            },
            Syscall::OpenMax,
            Syscall::Close { fd: 3 },
            Syscall::Close { fd: 4 },
            Syscall::Close { fd: 9 },
            Syscall::Close { fd: 10 },
            Syscall::Close { fd: 11 },
            Syscall::Close { fd: 8 },
            Syscall::Close { fd: 6 },
            Syscall::Close { fd: 5 },
            Syscall::SetCloseOnExec { fd: 7 },
            Syscall::Exec,
        ]
    );
}

#[test]
fn exec_that_fails_is_reported_and_becomes_the_exit_code() {
    let mut script = until_exec();
    script.push(Err(Errno::ENOENT));
    script.push(Err(Errno::Other(32)));
    script.push(Err(Errno::Other(9)));
    let (calls, code) = run(Platform::MacOs, &script);
    assert_eq!(code, Some(nix::libc::ENOENT));
    let n = calls.len();
    assert_eq!(calls[n - 3], Syscall::Exec);
    assert_eq!(calls[n - 2], Syscall::WriteReport { fd: 7, code: nix::libc::ENOENT });
    assert_eq!(calls[n - 1], Syscall::Close { fd: 7 });
}

#[test]
fn failure_before_the_exec_is_reported_with_its_error_number() {
    let (calls, code) =
        run(Platform::MacOs, &[Err(Errno::Other(13)), Ok(Reply::Unit), Ok(Reply::Unit)]);
    assert_eq!(code, Some(13));
    assert_eq!(
        calls,
        vec![
            Syscall::Open { path: TtyPath::Slave { master: 5 }, mode: OpenMode::ReadWriteNoCtty },
            Syscall::WriteReport { fd: 7, code: 13 },
            Syscall::Close { fd: 7 },
        ]
    );
}

#[test]
fn linux_child_that_keeps_its_old_terminal_reports_not_supported() {
    let (calls, code) = run(
        Platform::Linux,
        &[
            Ok(Reply::Unit),
            Err(Errno::ENXIO),
            Ok(Reply::Unit),
            Err(Errno::Other(13)),
            Ok(Reply::Unit),
            Ok(Reply::Unit),
        ],
    );
    assert_eq!(code, Some(nix::libc::ENOTSUP));
    assert_eq!(calls[4], Syscall::WriteReport { fd: 7, code: nix::libc::ENOTSUP });
}

#[test]
fn table_without_a_limit_cannot_be_cleared() {
    let state = Child {
        master: 5,
        report_read: 6,
        report_write: 7,
        slave: 8,
        phase: ChildPhase::AskingLimit,
    };
    let (next, step) = child_step(state, Ok(Reply::Limit(None)));
    assert_eq!(step, Step::Call(Syscall::WriteReport { fd: 7, code: nix::libc::ENOTSUP }));
    assert_eq!(next.phase, ChildPhase::Reporting { code: nix::libc::ENOTSUP });
}

#[test]
fn table_is_cleared_up_to_its_limit_whatever_closing_answers() {
    let state = Child {
        master: 5,
        report_read: 6,
        report_write: 7,
        slave: 8,
        phase: ChildPhase::AskingLimit,
    };
    let (mut state, mut step) = child_step(state, Ok(Reply::Limit(Some(1 << 40))));
    let mut closed = Vec::new();
    for round in 0..20 {
        match step {
            Step::Call(Syscall::Close { fd }) => closed.push(fd),
            other => panic!("not closing: {:?}", other),
        }
        let answer = if round % 2 == 0 { Ok(Reply::Unit) } else { Err(Errno::Other(9)) };
        let next = child_step(state, answer);
        state = next.0;
        step = next.1;
    }
    assert_eq!(closed[..4], [3, 4, 9, 10]);
    assert_eq!(closed[19], 26);
    assert_eq!(state.phase, ChildPhase::ClosingOthers { fd: 27, limit: i32::MAX });
}

#[test]
fn empty_table_goes_on_to_close_the_slave() {
    let state = Child {
        master: 5,
        report_read: 6,
        report_write: 7,
        slave: 8,
        phase: ChildPhase::AskingLimit,
    };
    for limit in [0, -1, 3] {
        let (next, step) = child_step(state, Ok(Reply::Limit(Some(limit))));
        assert_eq!(step, Step::Call(Syscall::Close { fd: 8 }));
        assert_eq!(next.phase, ChildPhase::ClosingSlave);
    }
}

#[test]
fn echo_is_switched_off_whatever_the_terminal_had() {
    let state = Child {
        master: 5,
        report_read: 6,
        report_write: 7,
        slave: 8,
        phase: ChildPhase::ReadingEcho,
    };
    for local in [0, ECHO, ECHO | ICANON, u32::MAX as u64] {
        match child_step(state, Ok(Reply::Termios(terminal(local)))).1 {
            Step::Call(Syscall::SetTermios { fd: 0, settings }) => {
                assert_eq!(settings.local & ECHO, 0);
                assert_eq!(settings.local, local & !ECHO);
                assert_eq!(TermSettings { local, ..settings }, terminal(local));
            }
            other => panic!("not setting the attributes: {:?}", other),
        }
    }
}

use ptyprocess::errno::{Errno, Error};
use ptyprocess::wire::{decode_exec_report, encode_exec_report, read_exec_report, REPORT_LEN};

#[test]
fn report_is_four_bytes_most_significant_first() {
    assert_eq!(REPORT_LEN, 4);
    assert_eq!(encode_exec_report(2), [0, 0, 0, 2]);
    assert_eq!(encode_exec_report(0x0102_0304), [1, 2, 3, 4]);
    assert_eq!(encode_exec_report(-1), [0xff, 0xff, 0xff, 0xff]);
    assert_eq!(encode_exec_report(i32::MIN), [0x80, 0, 0, 0]);
    assert_eq!(encode_exec_report(i32::MAX), [0x7f, 0xff, 0xff, 0xff]);
    assert_eq!(encode_exec_report(0), [0, 0, 0, 0]);
}

#[test]
fn report_agrees_with_the_standard_encoding() {
    for code in [0, 1, 2, 5, 6, 95, 255, 256, 65536, -1, -2, -65536, i32::MIN, i32::MAX] {
        assert_eq!(encode_exec_report(code), code.to_be_bytes());
        assert_eq!(decode_exec_report(&code.to_be_bytes()), code);
        assert_eq!(decode_exec_report(&encode_exec_report(code)), code);
    }
}

#[test]
fn empty_pipe_means_that_the_exec_succeeded() {
    assert_eq!(read_exec_report(&[0, 0, 0, 0], 0), Ok(()));
    assert_eq!(read_exec_report(&[9, 9, 9, 9], 0), Ok(()));
}

#[test]
fn short_report_is_a_pipe_failure() {
    for len in 1..4 {
        assert_eq!(read_exec_report(&[0, 0, 0, 2], len), Err(Error::PipeFailed(None)));
    }
}

#[test]
fn report_of_zero_counts_as_success() {
    assert_eq!(read_exec_report(&[0, 0, 0, 0], 4), Ok(()));
}

#[test]
fn report_of_a_missing_command_is_exec_failed_enoent() {
    let bytes = encode_exec_report(nix::libc::ENOENT);
    assert_eq!(read_exec_report(&bytes, 4), Err(Error::ExecFailed(Errno::ENOENT)));
}

#[test]
fn report_of_an_unnamed_error_carries_its_number() {
    let bytes = encode_exec_report(nix::libc::EACCES);
    assert_eq!(
        read_exec_report(&bytes, 4),
        Err(Error::ExecFailed(Errno::Other(nix::libc::EACCES)))
    );
}

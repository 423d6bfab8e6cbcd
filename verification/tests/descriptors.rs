use ptyprocess::descriptors::{
    close_all_descriptors, is_excepted, next_to_close, redirect_std_streams, NO_DESCRIPTOR,
    STDERR_FILENO, STDIN_FILENO, STDOUT_FILENO,
};
use ptyprocess::sys::Syscall;

#[test]
fn standard_streams_are_the_first_three_descriptors() {
    assert_eq!(STDIN_FILENO, 0);
    assert_eq!(STDOUT_FILENO, 1);
    assert_eq!(STDERR_FILENO, 2);
    assert_eq!(NO_DESCRIPTOR, -1);
}

#[test]
fn redirection_closes_the_streams_and_copies_the_slave_onto_them() {
    assert_eq!(
        redirect_std_streams(5),
        [
            Syscall::Close { fd: 0 },
            Syscall::Close { fd: 1 },
            Syscall::Close { fd: 2 },
            Syscall::Dup2 { from: 5, to: 0 },
            Syscall::Dup2 { from: 5, to: 1 },
            Syscall::Dup2 { from: 5, to: 2 },
        ]
    );
}

#[test]
fn excepted_descriptors_are_found() {
    assert!(is_excepted(&[0, 1, 2, 7], 7));
    assert!(is_excepted(&[0, 1, 2, 7], 0));
    assert!(!is_excepted(&[0, 1, 2, 7], 3));
    assert!(!is_excepted(&[], 0));
}

#[test]
fn all_descriptors_but_the_excepted_are_closed_in_rising_order() {
    assert_eq!(close_all_descriptors(10, &[0, 1, 2, 5, 7, 6, 4]), vec![3, 8, 9]);
    assert_eq!(close_all_descriptors(4, &[]), vec![0, 1, 2, 3]);
    assert_eq!(close_all_descriptors(3, &[0, 1, 2]), Vec::<i32>::new());
    assert_eq!(close_all_descriptors(0, &[]), Vec::<i32>::new());
    assert_eq!(close_all_descriptors(-5, &[]), Vec::<i32>::new());
    assert_eq!(close_all_descriptors(5, &[4, 4, 100, -1]), vec![0, 1, 2, 3]);
}

#[test]
fn closing_starts_at_descriptor_zero() {
    assert_eq!(close_all_descriptors(3, &[1]), vec![0, 2]);
}

#[test]
fn next_descriptor_to_close_skips_the_excepted() {
    assert_eq!(next_to_close(0, 10, &[0, 1, 2]), Some(3));
    assert_eq!(next_to_close(4, 10, &[0, 1, 2, 4, 5]), Some(6));
    assert_eq!(next_to_close(8, 10, &[8, 9]), None);
    assert_eq!(next_to_close(10, 10, &[]), None);
    assert_eq!(next_to_close(-3, 2, &[0]), Some(1));
    assert_eq!(next_to_close(i32::MAX - 1, i32::MAX, &[]), Some(i32::MAX - 1));
}

#[test]
fn large_table_is_walked_to_its_end() {
    let closed = close_all_descriptors(100_000, &[0, 1, 2]);
    assert_eq!(closed.len(), 99_997);
    assert_eq!(closed[0], 3);
    assert_eq!(closed[99_996], 99_999);
}

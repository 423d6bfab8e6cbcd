//! The descriptor table of a child before its exec: which descriptors
//! become its standard streams, and which are closed.

use vstd::prelude::*;
use crate::sys::Syscall;

verus! {

/// What stands for a descriptor that is not open.
pub const NO_DESCRIPTOR: i32 = -1;

/// The descriptor of the standard input.
pub const STDIN_FILENO: i32 = 0;

/// The descriptor of the standard output.
pub const STDOUT_FILENO: i32 = 1;

/// The descriptor of the standard error.
pub const STDERR_FILENO: i32 = 2;

/// The requests that make `fd` the three standard streams: each standard
/// descriptor is closed, then each is made a copy of `fd`.
pub open spec fn redirection(fd: i32) -> Seq<Syscall> {
    seq![
        Syscall::Close { fd: STDIN_FILENO },
        Syscall::Close { fd: STDOUT_FILENO },
        Syscall::Close { fd: STDERR_FILENO },
        Syscall::Dup2 { from: fd, to: STDIN_FILENO },
        Syscall::Dup2 { from: fd, to: STDOUT_FILENO },
        Syscall::Dup2 { from: fd, to: STDERR_FILENO },
    ]
}

/// Returns the requests that make `fd` the three standard streams, in the
/// order in which they are made. Each must succeed before the next is made.
pub fn redirect_std_streams(fd: i32) -> (plan: [Syscall; 6])
    ensures
        plan@ == redirection(fd),
{
    let plan: [Syscall; 6] = [
        Syscall::Close { fd: STDIN_FILENO },
        Syscall::Close { fd: STDOUT_FILENO },
        Syscall::Close { fd: STDERR_FILENO },
        Syscall::Dup2 { from: fd, to: STDIN_FILENO },
        Syscall::Dup2 { from: fd, to: STDOUT_FILENO },
        Syscall::Dup2 { from: fd, to: STDERR_FILENO },
    ];
    assert(plan@ =~= redirection(fd));
    plan
}

/// Whether `fd` is among the descriptors `except`.
pub open spec fn excepted(except: Seq<i32>, fd: int) -> bool {
    exists|i: int| 0 <= i < except.len() && except[i] == fd
}

/// Tells whether `fd` is among the descriptors `except`.
pub fn is_excepted(except: &[i32], fd: i32) -> (found: bool)
    ensures
        found == excepted(except@, fd as int),
{
    let mut i: usize = 0;
    while i < except.len()
        invariant
            i <= except.len(),
            forall|j: int| 0 <= j < i ==> except@[j] != fd,
        decreases except.len() - i,
    {
        if except[i] == fd {
            return true;
        }
        i += 1;
    }
    false
}

/// The first descriptor from `from` on, below `limit`, that is to be closed:
/// the least that is not among `except`, if there is one.
pub open spec fn first_to_close(from: int, limit: int, except: Seq<i32>, found: Option<i32>) -> bool {
    match found {
        Some(fd) => {
            &&& from <= fd < limit
            &&& !excepted(except, fd as int)
            &&& forall|other: int| from <= other < fd ==> excepted(except, other)
        },
        None => forall|other: int| from <= other < limit ==> excepted(except, other),
    }
}

/// The first descriptor from `from` on, below `limit`, that is not among
/// `except`, found by looking at one after the other.
pub open spec fn next_closed(from: int, limit: int, except: Seq<i32>) -> Option<i32>
    decreases limit - from,
{
    if from >= limit {
        None
    } else if !excepted(except, from) {
        Some(from as i32)
    } else {
        next_closed(from + 1, limit, except)
    }
}

/// Looking at one descriptor after the other finds the least that is to be closed.
pub proof fn next_closed_is_first(from: int, limit: int, except: Seq<i32>)
    requires
        i32::MIN <= from,
        limit <= i32::MAX + 1,
    ensures
        first_to_close(from, limit, except, next_closed(from, limit, except)),
    decreases limit - from,
{
    if from < limit && excepted(except, from) {
        next_closed_is_first(from + 1, limit, except);
    }
}

/// Returns the first descriptor from `from` on, below `limit`, that is not
/// among `except`. Descriptors are not negative: a search from below 0
/// starts at 0.
pub fn next_to_close(from: i32, limit: i32, except: &[i32]) -> (found: Option<i32>)
    ensures
        found == next_closed(if from < 0 { 0 } else { from as int }, limit as int, except@),
        first_to_close(if from < 0 { 0 } else { from as int }, limit as int, except@, found),
{
    let mut fd: i32 = if from < 0 {
        0
    } else {
        from
    };
    let ghost start = fd;
    while fd < limit
        invariant
            start == if from < 0 {
                0
            } else {
                from as int
            },
            start <= fd,
            forall|other: int| start <= other < fd ==> excepted(except@, other),
            next_closed(start as int, limit as int, except@) == next_closed(
                fd as int,
                limit as int,
                except@,
            ),
        decreases limit - fd,
    {
        if !is_excepted(except, fd) {
            return Some(fd);
        }
        fd += 1;
    }
    None
}

/// What is closed of a descriptor table with room for `limit` descriptors:
/// every descriptor from 0 up to the limit that is not among `except`, in
/// rising order, each once.
pub open spec fn closes(limit: int, except: Seq<i32>, closed: Seq<i32>) -> bool {
    &&& forall|i: int| 0 <= i < closed.len() ==> 0 <= #[trigger] closed[i] < limit && !excepted(
        except,
        closed[i] as int,
    )
    &&& forall|i: int, j: int| 0 <= i < j < closed.len() ==> closed[i] < closed[j]
    &&& forall|fd: int| 0 <= fd < limit && !excepted(except, fd) ==> exists|i: int|
        0 <= i < closed.len() && closed[i] == fd
}

/// Returns the descriptors that a child closes before its exec so that it
/// inherits none of its parent's by accident: all from 0 up to `limit` but
/// those in `except`. Whether closing one fails is of no account: it may
/// not have been open.
pub fn close_all_descriptors(limit: i32, except: &[i32]) -> (closed: Vec<i32>)
    ensures
        closes(limit as int, except@, closed@),
{
    let mut closed: Vec<i32> = Vec::new();
    let mut from: i32 = 0;
    loop
        invariant
            0 <= from,
            forall|i: int| 0 <= i < closed.len() ==> 0 <= #[trigger] closed[i] < from && closed[i]
                < limit && !excepted(except@, closed[i] as int),
            forall|i: int, j: int| 0 <= i < j < closed.len() ==> closed[i] < closed[j],
            forall|fd: int| 0 <= fd < from && fd < limit && !excepted(except@, fd) ==> exists|
                i: int,
            | 0 <= i < closed.len() && closed[i] == fd,
        ensures
            closes(limit as int, except@, closed@),
        decreases limit - from,
    {
        match next_to_close(from, limit, except) {
            None => {
                break ;
            },
            Some(fd) => {
                let ghost before = closed@;
                closed.push(fd);
                assert forall|other: int|
                    0 <= other < fd + 1 && other < limit && !excepted(
                        except@,
                        other,
                    ) implies exists|i: int| 0 <= i < closed.len() && closed[i] == other by {
                    if other == fd {
                        assert(closed[closed.len() - 1] == fd);
                    } else {
                        let i = choose|i: int| 0 <= i < before.len() && before[i] == other;
                        assert(closed[i] == other);
                    }
                }
                from = fd + 1;
            },
        }
    }
    closed
}

} // verus!

//! A byte stream over a duplicate of the master descriptor.

use vstd::prelude::*;
use nix::fcntl::OFlag;
use crate::errno::Errno;
use crate::sys::{Reply, Response, Step, Syscall};

verus! {

/// The sets of file status flags that switching the blocking mode works with.
#[derive(Clone, Copy, Debug, PartialEq, Eq)]
pub enum StatusMask {
    /// Every status flag that the platform's table knows.
    Known,
    /// The flag that makes reads and writes return at once.
    NonBlock,
}

/// The bits of a set of file status flags on this platform.
pub uninterp spec fn status_bits(mask: StatusMask) -> i32;

/// Reads `nix::fcntl::OFlag::all()` or `OFlag::O_NONBLOCK`, which nix takes
/// from the platform's C library. The contract names the bits and adds what
/// the table shows of them: the flag is not empty and is one of the known.
#[verifier::external_body]
fn status_mask(mask: StatusMask) -> (bits: i32)
    ensures
        bits == status_bits(mask),
        mask == StatusMask::NonBlock ==> bits != 0,
        mask == StatusMask::Known ==> bits & status_bits(StatusMask::NonBlock) == status_bits(
            StatusMask::NonBlock,
        ),
{
    match mask {
        StatusMask::Known => OFlag::all().bits(),
        StatusMask::NonBlock => OFlag::O_NONBLOCK.bits(),
    }
}

/// The status flags `flags` as far as they are among `known`, with the bits
/// of `flag` set or cleared.
pub open spec fn mode_set(flags: i32, known: i32, flag: i32, on: bool) -> i32 {
    if on {
        (flags & known) | flag
    } else {
        (flags & known) & !flag
    }
}

/// The status flags as far as the platform knows them.
pub open spec fn known(flags: i32) -> i32 {
    flags & status_bits(StatusMask::Known)
}

/// Whether the status flags make reads return at once.
pub open spec fn is_non_blocking(flags: i32) -> bool {
    flags & status_bits(StatusMask::NonBlock) == status_bits(StatusMask::NonBlock)
}

/// The known status flags with the non-blocking flag set.
pub open spec fn non_blocking(flags: i32) -> i32 {
    mode_set(flags, status_bits(StatusMask::Known), status_bits(StatusMask::NonBlock), true)
}

/// The known status flags with the non-blocking flag cleared.
pub open spec fn blocking(flags: i32) -> i32 {
    mode_set(flags, status_bits(StatusMask::Known), status_bits(StatusMask::NonBlock), false)
}

/// Returns the status flags `flags` as far as they are among `known`, with
/// the bits of `flag` set or cleared: see [`mode_set`]. Unless `flag` is
/// empty, its bits are set in the result exactly if `on`.
pub fn switch_mode(flags: i32, known: i32, flag: i32, on: bool) -> (changed: i32)
    ensures
        changed == mode_set(flags, known, flag, on),
        flag != 0 ==> (changed & flag == flag) == on,
{
    assert(((flags & known) | flag) & flag == flag) by (bit_vector);
    assert(flag != 0 ==> ((flags & known) & !flag) & flag != flag) by (bit_vector);
    if on {
        (flags & known) | flag
    } else {
        (flags & known) & !flag
    }
}

/// Returns the status flags that make a descriptor with the status flags
/// `flags` non-blocking and leave its other known flags as they are.
pub fn make_non_blocking(flags: i32) -> (changed: i32)
    ensures
        changed == non_blocking(flags),
        is_non_blocking(changed),
{
    switch_mode(flags, status_mask(StatusMask::Known), status_mask(StatusMask::NonBlock), true)
}

/// Returns the status flags that make a descriptor with the status flags
/// `flags` blocking and leave its other known flags as they are.
pub fn make_blocking(flags: i32) -> (changed: i32)
    ensures
        changed == blocking(flags),
        !is_non_blocking(changed),
{
    switch_mode(flags, status_mask(StatusMask::Known), status_mask(StatusMask::NonBlock), false)
}

/// Returns the status flags as far as the platform knows them: what is set
/// to put a descriptor back into the mode it was found in.
pub fn known_flags(flags: i32) -> (kept: i32)
    ensures
        kept == known(flags),
        is_non_blocking(kept) == is_non_blocking(flags),
{
    let all: i32 = status_mask(StatusMask::Known);
    let ghost flag = status_bits(StatusMask::NonBlock);
    assert(all & flag == flag ==> ((flags & all) & flag == flag <==> flags & flag == flag))
        by (bit_vector);
    flags & all
}

/// Tells whether a failed read of the master means that the stream has
/// ended: the kernel answers `EIO`, whose raw value is 5, once the slave
/// side is closed.
pub fn has_reached_end_of_sdtout(err: &Errno) -> (ended: bool)
    ensures
        ended == (*err == Errno::EIO || *err == Errno::Other(5)),
{
    match err {
        Errno::EIO => true,
        Errno::Other(raw) => *raw == 5,
        _ => false,
    }
}


/// A byte stream to and from the child: one duplicate of the master descriptor.
///
/// Duplicates share their status flags, so what a stream does to the
/// blocking mode shows in every other handle of the terminal.
#[derive(Debug, PartialEq, Eq)]
pub struct Stream {
    fd: i32,
}

/// The outcome of a read that blocks: the number of bytes read, 0 at the end
/// of the stream, or the error number of the failure.
pub type ReadOutcome = Result<usize, Errno>;

/// The outcome of a read that does not block: `None` if nothing was there to
/// read, else the number of bytes read, 0 at the end of the stream.
pub type TryReadOutcome = Result<Option<usize>, Errno>;

/// Where a read that does not block stands.
#[derive(Clone, Copy, Debug, PartialEq, Eq)]
pub enum TryRead {
    /// The status flags were asked for.
    Observing { capacity: usize },
    /// The switch to non-blocking mode was asked for; `observed` are the flags found.
    Switching { capacity: usize, observed: i32 },
    /// The read was asked for.
    Reading { observed: i32 },
    /// The flags found were asked to be put back; `outcome` is what the read gave.
    Restoring { outcome: TryReadOutcome },
}

/// What a blocking read of the master amounts to: the kernel's `EIO` on a
/// terminal whose slave side is closed is the end of the stream, every other
/// failure stays one. An answer of another kind than a read counts as a
/// failure with `EINVAL`.
pub open spec fn read_outcome(answer: Response) -> ReadOutcome {
    match answer {
        Ok(Reply::Read { count }) => Ok(count),
        Ok(_) => Err(Errno::EINVAL),
        Err(e) => if e == Errno::EIO || e == Errno::Other(5) {
            Ok(0)
        } else {
            Err(e)
        },
    }
}

/// What a read in non-blocking mode amounts to: as [`read_outcome`], but
/// `EAGAIN`, the answer of a descriptor with nothing to read, is `None`.
pub open spec fn try_read_outcome(answer: Response) -> TryReadOutcome {
    match answer {
        Err(Errno::EAGAIN) => Ok(None),
        _ => match read_outcome(answer) {
            Ok(count) => Ok(Some(count)),
            Err(e) => Err(e),
        },
    }
}

/// What a read of one byte that does not block amounts to: `None` if nothing
/// was there, `Some(None)` at the end of the stream, else the byte read.
pub open spec fn byte_outcome(outcome: Option<usize>, byte: u8) -> Option<Option<u8>> {
    match outcome {
        None => None,
        Some(count) => if count == 0 {
            Some(None)
        } else {
            Some(Some(byte))
        },
    }
}

impl Stream {
    /// The descriptor of the stream.
    pub closed spec fn spec_fd(&self) -> i32 {
        self.fd
    }

    /// The stream over the descriptor `fd`.
    pub fn new(fd: i32) -> (stream: Stream)
        ensures
            stream.spec_fd() == fd,
    {
        Stream { fd }
    }

    /// Returns the descriptor of the stream.
    #[verifier::when_used_as_spec(spec_fd)]
    pub fn fd(&self) -> (fd: i32)
        ensures
            fd == self.spec_fd(),
    {
        self.fd
    }

    /// The request that reads into a buffer of `capacity` bytes.
    pub fn read(&self, capacity: usize) -> (call: Syscall)
        ensures
            call == (Syscall::Read { fd: self.spec_fd(), capacity }),
    {
        Syscall::Read { fd: self.fd, capacity }
    }

    /// Reads the answer to a blocking read: see [`read_outcome`].
    pub fn read_answer(answer: Response) -> (outcome: ReadOutcome)
        ensures
            outcome == read_outcome(answer),
    {
        match answer {
            Ok(Reply::Read { count }) => Ok(count),
            Ok(_) => Err(Errno::EINVAL),
            Err(e) => if has_reached_end_of_sdtout(&e) {
                Ok(0)
            } else {
                Err(e)
            },
        }
    }

    /// Reads the answer to a read in non-blocking mode: see [`try_read_outcome`].
    pub fn try_read_answer(answer: Response) -> (outcome: TryReadOutcome)
        ensures
            outcome == try_read_outcome(answer),
    {
        match answer {
            Err(Errno::EAGAIN) => Ok(None),
            _ => match Stream::read_answer(answer) {
                Ok(count) => Ok(Some(count)),
                Err(e) => Err(e),
            },
        }
    }

    /// How a read that does not block begins: by asking for the status flags.
    pub open spec fn try_read_begin(&self, capacity: usize) -> (TryRead, Step<TryReadOutcome>) {
        (TryRead::Observing { capacity }, Step::Call(Syscall::GetFlags { fd: self.spec_fd() }))
    }

    /// How a read that does not block goes on when `answer` arrives in `state`.
    ///
    /// - The flags found are remembered and the descriptor is switched to
    ///   non-blocking mode. If either call fails, so does the read: nothing
    ///   was changed.
    /// - Then comes the read. Whatever it answers, the next request puts the
    ///   known flags back as they were found.
    /// - When that is done, the read's outcome is the result; if it failed,
    ///   its error is.
    pub open spec fn try_read_next(&self, state: TryRead, answer: Response) -> (
        TryRead,
        Step<TryReadOutcome>,
    ) {
        match state {
            TryRead::Observing { capacity } => match answer {
                Ok(Reply::Flags(observed)) => (
                    TryRead::Switching { capacity, observed },
                    Step::Call(
                        Syscall::SetFlags { fd: self.spec_fd(), flags: non_blocking(observed) },
                    ),
                ),
                Ok(_) => (state, Step::Done(Err(Errno::EINVAL))),
                Err(e) => (state, Step::Done(Err(e))),
            },
            TryRead::Switching { capacity, observed } => match answer {
                Ok(_) => (
                    TryRead::Reading { observed },
                    Step::Call(Syscall::Read { fd: self.spec_fd(), capacity }),
                ),
                Err(e) => (state, Step::Done(Err(e))),
            },
            TryRead::Reading { observed } => (
                TryRead::Restoring { outcome: try_read_outcome(answer) },
                Step::Call(Syscall::SetFlags { fd: self.spec_fd(), flags: known(observed) }),
            ),
            TryRead::Restoring { outcome } => match answer {
                Ok(_) => (state, Step::Done(outcome)),
                Err(e) => (state, Step::Done(Err(e))),
            },
        }
    }

    /// Where a read that does not block stands after the answers `answers`,
    /// each handed to the machine in turn until it has finished.
    pub open spec fn try_read_run(&self, capacity: usize, answers: Seq<Response>) -> (
        TryRead,
        Step<TryReadOutcome>,
    )
        decreases answers.len(),
    {
        if answers.len() == 0 {
            self.try_read_begin(capacity)
        } else {
            let (state, step) = self.try_read_run(capacity, answers.drop_last());
            match step {
                Step::Done(_) => (state, step),
                Step::Call(_) => self.try_read_next(state, answers.last()),
            }
        }
    }

    /// Begins a read into a buffer of `capacity` bytes that does not block,
    /// whatever mode the descriptor is in: it is switched to non-blocking
    /// mode for the read and put back afterwards.
    /// Returns the machine's first state and step; [`Stream::try_read_step`] goes on.
    pub fn try_read(&self, capacity: usize) -> (r: (TryRead, Step<TryReadOutcome>))
        ensures
            r == self.try_read_begin(capacity),
    {
        (TryRead::Observing { capacity }, Step::Call(Syscall::GetFlags { fd: self.fd }))
    }

    /// Begins a read of one byte that does not block. Once it has finished,
    /// [`Stream::byte_read`] tells what was read.
    pub fn try_read_byte(&self) -> (r: (TryRead, Step<TryReadOutcome>))
        ensures
            r == self.try_read_begin(1),
    {
        self.try_read(1)
    }

    /// Takes the answer to the request that the read made last, and returns
    /// the next state and step: see [`Stream::try_read_next`]. The flags it
    /// asks to set for the read are non-blocking; the flags it asks to put
    /// back afterwards are non-blocking exactly if the flags found were.
    pub fn try_read_step(&self, state: TryRead, answer: Response) -> (r: (
        TryRead,
        Step<TryReadOutcome>,
    ))
        ensures
            r == self.try_read_next(state, answer),
            state is Observing ==> (r.1 matches Step::Call(Syscall::SetFlags { flags, .. })
                ==> is_non_blocking(flags)),
            state matches TryRead::Reading { observed } ==> (r.1 matches Step::Call(
                Syscall::SetFlags { flags, .. },
            ) && is_non_blocking(flags) == is_non_blocking(observed)),
    {
        match state {
            TryRead::Observing { capacity } => match answer {
                Ok(Reply::Flags(observed)) => (
                    TryRead::Switching { capacity, observed },
                    Step::Call(
                        Syscall::SetFlags { fd: self.fd, flags: make_non_blocking(observed) },
                    ),
                ),
                Ok(_) => (state, Step::Done(Err(Errno::EINVAL))),
                Err(e) => (state, Step::Done(Err(e))),
            },
            TryRead::Switching { capacity, observed } => match answer {
                Ok(_) => (
                    TryRead::Reading { observed },
                    Step::Call(Syscall::Read { fd: self.fd, capacity }),
                ),
                Err(e) => (state, Step::Done(Err(e))),
            },
            TryRead::Reading { observed } => (
                TryRead::Restoring { outcome: Stream::try_read_answer(answer) },
                Step::Call(Syscall::SetFlags { fd: self.fd, flags: known_flags(observed) }),
            ),
            TryRead::Restoring { outcome } => match answer {
                Ok(_) => (state, Step::Done(outcome)),
                Err(e) => (state, Step::Done(Err(e))),
            },
        }
    }

    /// Tells what a finished read of one byte read, given the outcome of the
    /// read and the first byte of its buffer: see [`byte_outcome`].
    pub fn byte_read(outcome: Option<usize>, byte: u8) -> (read: Option<Option<u8>>)
        ensures
            read == byte_outcome(outcome, byte),
    {
        match outcome {
            None => None,
            Some(count) => if count == 0 {
                Some(None)
            } else {
                Some(Some(byte))
            },
        }
    }

    /// A read that does not block puts the status flags back as it found
    /// them. Once the descriptor was switched (the flags `observed` were found and
    /// setting the non-blocking ones succeeded), the machine asks for the
    /// read, then, whatever the read answers, for the known flags found to be
    /// put back, and finishes only when that request is answered.
    pub proof fn try_read_restores_mode(
        &self,
        capacity: usize,
        observed: i32,
        switched: Reply,
        read: Response,
        restored: Response,
    )
        ensures
            ({
                let found: Response = Ok(Reply::Flags(observed));
                let set: Response = Ok(switched);
                &&& self.try_read_run(capacity, seq![found]).1 == Step::<TryReadOutcome>::Call(
                    Syscall::SetFlags { fd: self.spec_fd(), flags: non_blocking(observed) },
                )
                &&& self.try_read_run(capacity, seq![found, set]).1 == Step::<
                    TryReadOutcome,
                >::Call(Syscall::Read { fd: self.spec_fd(), capacity })
                &&& self.try_read_run(capacity, seq![found, set, read]).1 == Step::<
                    TryReadOutcome,
                >::Call(Syscall::SetFlags { fd: self.spec_fd(), flags: known(observed) })
                &&& self.try_read_run(capacity, seq![found, set, read, restored]).1 == Step::<
                    TryReadOutcome,
                >::Done(
                    match restored {
                        Ok(_) => try_read_outcome(read),
                        Err(e) => Err(e),
                    },
                )
            }),
    {
        let found: Response = Ok(Reply::Flags(observed));
        let set: Response = Ok(switched);
        let s1 = seq![found];
        let s2 = seq![found, set];
        let s3 = seq![found, set, read];
        let s4 = seq![found, set, read, restored];
        assert(s1.drop_last() =~= Seq::<Response>::empty());
        assert(s2.drop_last() =~= s1);
        assert(s3.drop_last() =~= s2);
        assert(s4.drop_last() =~= s3);
        assert(self.try_read_run(capacity, Seq::<Response>::empty()) == self.try_read_begin(
            capacity,
        ));
        assert(self.try_read_run(capacity, s1) == self.try_read_next(
            TryRead::Observing { capacity },
            found,
        ));
        assert(self.try_read_run(capacity, s2) == self.try_read_next(
            TryRead::Switching { capacity, observed },
            set,
        ));
        assert(self.try_read_run(capacity, s3) == self.try_read_next(
            TryRead::Reading { observed },
            read,
        ));
    }

    /// A read that does not block touches the status flags only if it could
    /// read them: it finishes on the spot if the descriptor does not tell its
    /// flags, and after one more answer if it cannot be switched.
    pub proof fn try_read_fails_before_switch(&self, capacity: usize, first: Response, e: Errno)
        ensures
            !(first matches Ok(Reply::Flags(_))) ==> self.try_read_run(capacity, seq![first]).1
                is Done,
            first matches Ok(Reply::Flags(_)) ==> self.try_read_run(
                capacity,
                seq![first, Err(e)],
            ).1 == Step::<TryReadOutcome>::Done(Err(e)),
    {
        let s1 = seq![first];
        let s2 = seq![first, Err::<Reply, Errno>(e)];
        assert(s1.drop_last() =~= Seq::<Response>::empty());
        assert(s2.drop_last() =~= s1);
        assert(self.try_read_run(capacity, Seq::<Response>::empty()) == self.try_read_begin(
            capacity,
        ));
        assert(self.try_read_run(capacity, s1) == self.try_read_next(
            TryRead::Observing { capacity },
            first,
        ));
    }
}

} // verus!

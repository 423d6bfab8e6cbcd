//! The window size of the terminal.

use vstd::prelude::*;
use crate::errno::Errno;
use crate::sys::{Reply, Response, Syscall, Winsize};

verus! {

/// The columns of the terminal of a freshly spawned child.
pub const DEFAULT_TERM_COLS: u16 = 80;

/// The rows of the terminal of a freshly spawned child.
pub const DEFAULT_TERM_ROWS: u16 = 24;

/// A window of `cols` columns and `rows` rows; its size in pixels is left at 0.
pub open spec fn window(cols: u16, rows: u16) -> Winsize {
    Winsize { rows, cols, xpixel: 0, ypixel: 0 }
}

/// The columns and rows, in this order, that an answer to a request for the
/// window size carries. An answer of another kind counts as a failure with
/// `EINVAL`.
pub open spec fn term_size(answer: Response) -> Result<(u16, u16), Errno> {
    match answer {
        Ok(Reply::Window(size)) => Ok((size.cols, size.rows)),
        Ok(_) => Err(Errno::EINVAL),
        Err(e) => Err(e),
    }
}

/// The request that sets the window of the terminal `fd` to `cols` columns
/// and `rows` rows.
pub fn set_term_size(fd: i32, cols: u16, rows: u16) -> (call: Syscall)
    ensures
        call == (Syscall::SetWindowSize { fd, size: window(cols, rows) }),
{
    Syscall::SetWindowSize { fd, size: Winsize { rows, cols, xpixel: 0, ypixel: 0 } }
}

/// Reads the answer to a request for the window size: see [`term_size`].
pub fn get_term_size(answer: Response) -> (size: Result<(u16, u16), Errno>)
    ensures
        size == term_size(answer),
{
    match answer {
        Ok(Reply::Window(size)) => Ok((size.cols, size.rows)),
        Ok(_) => Err(Errno::EINVAL),
        Err(e) => Err(e),
    }
}

} // verus!

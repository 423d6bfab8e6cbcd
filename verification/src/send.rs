//! What is written to the child for a line, an end of file, an interrupt.

use vstd::prelude::*;
use crate::process::PtyProcess;

verus! {

/// The byte that ends a line sent to the child: the line feed.
pub const LINE_ENDING: u8 = 0x0a;

impl PtyProcess {
    /// Returns the bytes that send `text` as a line: the text and a line feed.
    pub fn send_line(text: &[u8]) -> (bytes: Vec<u8>)
        ensures
            bytes@ == text@.push(LINE_ENDING),
    {
        let mut bytes: Vec<u8> = Vec::new();
        let mut i: usize = 0;
        while i < text.len()
            invariant
                i <= text.len(),
                bytes@ == text@.take(i as int),
            decreases text.len() - i,
        {
            bytes.push(text[i]);
            assert(bytes@ =~= text@.take(i + 1));
            i += 1;
        }
        assert(text@.take(text.len() as int) =~= text@);
        bytes.push(LINE_ENDING);
        bytes
    }

    /// Returns the byte that tells the child's terminal that its input has
    /// ended: the end-of-file character found at spawn.
    pub fn send_eof(&self) -> (bytes: [u8; 1])
        ensures
            bytes@ == seq![self.spec_eof_char()],
    {
        let bytes: [u8; 1] = [self.get_eof_char()];
        assert(bytes@ =~= seq![self.spec_eof_char()]);
        bytes
    }

    /// Returns the byte that interrupts the child through its terminal: the
    /// interrupt character found at spawn.
    pub fn send_intr(&self) -> (bytes: [u8; 1])
        ensures
            bytes@ == seq![self.spec_intr_char()],
    {
        let bytes: [u8; 1] = [self.get_intr_char()];
        assert(bytes@ =~= seq![self.spec_intr_char()]);
        bytes
    }
}

} // verus!

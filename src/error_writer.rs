use vstd::prelude::*;

verus! {

/// The error writer registered on one thread, as the address of the callback,
/// with 0 for none (errors then go to the standard error stream).
///
/// The native library keeps one such slot per thread; a registration replaces
/// the previous one and hands it back, so that a caller can restore it.
#[derive(Debug)]
pub struct ErrorWriterSlot {
    current: usize,
}

impl ErrorWriterSlot {
    pub closed spec fn view(&self) -> usize {
        self.current
    }

    /// A thread on which no writer was registered.
    pub fn new() -> (r: ErrorWriterSlot)
        ensures
            r.view() == 0,
    {
        ErrorWriterSlot { current: 0 }
    }

    /// The writer registered now, 0 for none.
    pub fn current(&self) -> (r: usize)
        ensures
            r == self.view(),
    {
        self.current
    }

    /// Registers `writer` (0 to go back to the standard error stream) and
    /// gives back the writer it replaces.
    pub fn register(&mut self, writer: usize) -> (r: usize)
        ensures
            r == old(self).view(),
            final(self).view() == writer,
    {
        let previous = self.current;
        self.current = writer;
        previous
    }
}

} // verus!

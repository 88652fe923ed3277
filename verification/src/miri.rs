//! Frames of the backtraces that the Miri interpreter reports.
use vstd::prelude::*;

verus! {

/// A frame, as the interpreter resolves it.
pub struct MiriFrame {
    /// The size of the name of the function being executed, in UTF-8 bytes.
    pub name_len: usize,
    /// The size of the file name of that function, in UTF-8 bytes.
    pub filename_len: usize,
    /// The line being executed, counted from 1.
    pub lineno: u32,
    /// The column being executed, counted from 1.
    pub colno: u32,
    /// The address of the function being executed.
    pub fn_ptr: usize,
}

impl MiriFrame {
    /// Whether the frame executes the function at address `other`.
    pub fn compare_fn_ptr(&self, other: usize) -> (r: bool)
        ensures
            r == (self.fn_ptr == other),
    {
        self.fn_ptr == other
    }
}

} // verus!

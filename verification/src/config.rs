//! Configuration of one estimator and validation of its inputs.

use vstd::prelude::*;

verus! {

/// Why a configuration or an input buffer was rejected.
#[derive(Clone, Copy, Debug, PartialEq, Eq)]
pub enum YinError {
    /// The window size is odd, or too small for the search to have a lag to
    /// consider.
    InvalidWindowSize,
    /// The input buffer's length differs from the configured window size.
    InputLengthMismatch,
}

/// A window size is acceptable when it is even and leaves a search range of
/// at least two lags.
pub open spec fn window_size_ok(window_size: int) -> bool {
    window_size % 2 == 0 && window_size >= 4
}

/// The fixed shape of one estimator: the length of the sample windows it
/// accepts. Immutable after construction; the search range (the number of
/// lags the period search considers) is half the window size.
#[derive(Clone, Copy, Debug)]
pub struct YinConfig {
    window_size: usize,
}

impl YinConfig {
    /// The configuration is well formed: its window size was accepted.
    pub closed spec fn wf(&self) -> bool {
        window_size_ok(self.window_size as int)
    }

    /// The configured window size, as a mathematical integer.
    pub closed spec fn spec_window_size(&self) -> int {
        self.window_size as int
    }

    /// Accepts an even window size of at least four; rejects anything else.
    pub fn new(window_size: usize) -> (r: Result<YinConfig, YinError>)
        ensures
            window_size_ok(window_size as int) ==> (r matches Ok(c) && c.wf()
                && c.spec_window_size() == window_size),
            !window_size_ok(window_size as int) ==> (r matches Err(e)
                && e == YinError::InvalidWindowSize),
    {
        if window_size % 2 == 0 && window_size >= 4 {
            Ok(YinConfig { window_size })
        } else {
            Err(YinError::InvalidWindowSize)
        }
    }

    /// The length of the sample windows this estimator accepts.
    pub fn window_size(&self) -> (r: usize)
        ensures
            r == self.spec_window_size(),
    {
        self.window_size
    }

    /// The maximum lag considered by the period search: half the window size.
    pub fn search_range(&self) -> (r: usize)
        requires
            self.wf(),
        ensures
            r == self.spec_window_size() / 2,
            r >= 2,
    {
        self.window_size / 2
    }

    /// An input buffer is accepted exactly when its length equals the window
    /// size; any other length is the mismatch error, never an access past the
    /// buffer's end.
    pub fn check_input_len(&self, len: usize) -> (r: Result<(), YinError>)
        ensures
            len == self.spec_window_size() ==> (r matches Ok(u) && u == ()),
            len != self.spec_window_size() ==> (r matches Err(e)
                && e == YinError::InputLengthMismatch),
    {
        if len == self.window_size {
            Ok(())
        } else {
            Err(YinError::InputLengthMismatch)
        }
    }
}

} // verus!

use vstd::prelude::*;

verus! {

/// Failure outcomes of the detector's operations.  Each is local and
/// synchronous: it is detected at the point of the call and surfaced to the
/// immediate caller, never swallowed.
#[derive(Clone, Copy, Debug, PartialEq, Eq, Structural)]
pub enum DetectorError {
    /// A window length of zero was given at construction.  Such a window
    /// would retain no data and every query would divide by zero, so it is
    /// rejected at construction time.
    InvalidWindowLength,
    /// An arrival was recorded with a timestamp earlier than the most recent
    /// recorded arrival.  The interval would be negative and would silently
    /// corrupt the mean and variance, so the insert is rejected and the
    /// window is left unchanged.
    OutOfOrderArrival,
    /// A query was made before any arrival had been recorded; there is no
    /// last-arrival timestamp to answer with.
    NotYetInitialized,
}

} // verus!

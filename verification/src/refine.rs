//! How a selected lag is turned into a pitch.

use vstd::prelude::*;

verus! {

/// The way the selected lag becomes a pitch. Parabolic interpolation needs
/// both neighbours of the lag, so it applies only strictly inside the buffer;
/// a positive lag at the upper boundary is used as it stands; lag zero means
/// no meaningful period was found and the pitch is the zero sentinel.
#[derive(Clone, Copy, Debug, PartialEq, Eq)]
pub enum PitchMethod {
    /// `0 < tau < n - 1`: refine the lag with its two neighbouring values.
    Interpolate,
    /// `0 < tau` at the upper boundary: divide the sample rate by the lag.
    Direct,
    /// `tau == 0`: no period; the pitch is the zero sentinel.
    NoPitch,
}

/// The method that a lag `tau` in a search range of `n` lags calls for.
pub open spec fn pitch_method_of(tau: int, n: int) -> PitchMethod {
    if 0 < tau && tau < n - 1 {
        PitchMethod::Interpolate
    } else if 0 < tau {
        PitchMethod::Direct
    } else {
        PitchMethod::NoPitch
    }
}

/// Decides how the selected lag becomes a pitch: interpolation strictly
/// inside the buffer, direct conversion at the upper boundary, no pitch at
/// lag zero.
pub fn pitch_method(tau: usize, n: usize) -> (r: PitchMethod)
    requires
        tau < n,
    ensures
        r == pitch_method_of(tau as int, n as int),
{
    if tau > 0 && tau < n - 1 {
        PitchMethod::Interpolate
    } else if tau > 0 {
        PitchMethod::Direct
    } else {
        PitchMethod::NoPitch
    }
}

} // verus!

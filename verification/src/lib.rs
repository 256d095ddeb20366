//! Verified core of a YIN time-domain pitch estimator.
//!
//! A YIN estimator turns a fixed-length window of audio samples into a pitch
//! and a clarity score in four steps: a difference function over candidate
//! lags, cumulative mean normalization of those differences, a threshold-based
//! search for the period, and a final conversion of the chosen lag into a
//! pitch. The arithmetic of the first two steps and of the conversion works on
//! floating-point values and stays with the caller; this crate verifies the
//! decision structure of the algorithm:
//!
//! - configuration and input-length validation ([`config`]),
//! - the period search — first dip below the threshold, refined to its local
//!   minimum, with a global-minimum fallback ([`search`]),
//! - the choice of how the selected lag becomes a pitch ([`refine`]).
//!
//! The search runs on order-preserving integer keys of the normalized
//! difference values: the caller encodes each value so that the unsigned
//! order of the keys agrees with the order of the values, and every
//! comparison the search makes is then exactly the comparison the algorithm
//! specifies on the values themselves.

pub mod config;
pub mod refine;
pub mod search;

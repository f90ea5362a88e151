//! Types that two device resources define alike.

use vstd::prelude::*;

verus! {

/// The levels of a noise reduction in space and time.
#[derive(Debug, Clone, PartialEq)]
pub struct AdvancedMode {
    pub spatial_level: i32,
    pub temporal_level: i32,
}

/// The sources from which a camera takes its time.
#[derive(Debug, Clone, Copy, PartialEq, Eq, Structural)]
pub enum TimeMode {
    ALL,
    MANUAL,
    NTP,
    LOCAL,
    SATELLITE,
    TIMECORRECT,
}

} // verus!

//! Value types of the focus capabilities.
//!
//! A focus position is a single-precision number. The library carries it by
//! its bit pattern and never computes with it.

use vstd::prelude::*;

use crate::domain::CameraId;

verus! {

/// A focus position or step, held as the IEEE 754 bit pattern of a
/// single-precision number.
#[derive(Debug, Clone, Copy, PartialEq, Eq, Structural)]
pub struct FocusValue {
    pub bits: u32,
}

/// The bit pattern of 0.
pub const FOCUS_ZERO: u32 = 0x0000_0000;

/// The bit pattern of 1.
pub const FOCUS_ONE: u32 = 0x3F80_0000;

/// The bit pattern of the single-precision number nearest to 0.001.
pub const FOCUS_THOUSANDTH: u32 = 0x3A83_126F;

/// The two senses in which a lens can be driven continuously.
#[derive(Debug, Clone, Copy, PartialEq, Eq, Structural)]
pub enum Direction {
    Forward,
    Backward,
}

/// A continuous focus movement: its sense and the length of one interval.
#[derive(Debug, Clone, Copy, PartialEq, Eq, Structural)]
pub struct FocusContinuous {
    pub direction: Direction,
    pub interval: usize,
}

/// A focus setting in one of the three modes.
#[derive(Debug, Clone, Copy, PartialEq, Eq, Structural)]
pub enum TypedFocus {
    Absolute(FocusValue),
    Relative(FocusValue),
    Continuous(FocusContinuous),
}

/// The focus that is stored for a camera, by day and, where it differs, by
/// night.
#[derive(Debug, Clone, Copy, PartialEq, Eq, Structural)]
pub struct FocusSettings {
    pub camera_id: CameraId,
    pub focus: TypedFocus,
    pub nighttime_focus: Option<TypedFocus>,
}

impl FocusSettings {
    /// The settings of a camera that has none yet: absolute focus at 0 and
    /// no focus of its own by night.
    pub fn new(camera_id: CameraId) -> (settings: Self)
        ensures
            settings == (FocusSettings {
                camera_id,
                focus: TypedFocus::Absolute(FocusValue { bits: FOCUS_ZERO }),
                nighttime_focus: None,
            }),
    {
        Self {
            camera_id,
            focus: TypedFocus::Absolute(FocusValue { bits: FOCUS_ZERO }),
            nighttime_focus: None,
        }
    }

    /// The camera that the settings belong to.
    pub fn get_settings_id(&self) -> (id: CameraId)
        ensures
            id == self.camera_id,
    {
        self.camera_id
    }
}

/// The positions a camera accepts for absolute focus.
#[derive(Debug, Clone, Copy, PartialEq, Eq, Structural)]
pub struct FocusCapabilitiesAbsolute {
    pub min: FocusValue,
    pub max: FocusValue,
    pub step: FocusValue,
}

impl FocusCapabilitiesAbsolute {
    pub fn new(min: FocusValue, max: FocusValue, step: FocusValue) -> (caps: Self)
        ensures
            caps == (FocusCapabilitiesAbsolute { min, max, step }),
    {
        Self { min, max, step }
    }
}

/// The steps a camera accepts for relative focus.
#[derive(Debug, Clone, Copy, PartialEq, Eq, Structural)]
pub struct FocusCapabilitiesRelative {
    pub min_step: FocusValue,
    pub max_step: FocusValue,
}

impl FocusCapabilitiesRelative {
    pub fn new(min_step: FocusValue, max_step: FocusValue) -> (caps: Self)
        ensures
            caps == (FocusCapabilitiesRelative { min_step, max_step }),
    {
        Self { min_step, max_step }
    }
}

/// The intervals a camera accepts for continuous focus.
#[derive(Debug, Clone, Copy, PartialEq, Eq, Structural)]
pub struct FocusCapabilitiesContinuous {
    pub min_interval: usize,
    pub max_interval: usize,
}

impl FocusCapabilitiesContinuous {
    pub fn new(min_interval: usize, max_interval: usize) -> (caps: Self)
        ensures
            caps == (FocusCapabilitiesContinuous { min_interval, max_interval }),
    {
        Self { min_interval, max_interval }
    }
}

/// The focus modes that a camera advertises, each with its limits.
#[derive(Debug, Clone, Copy, PartialEq, Eq, Structural)]
pub struct FocusCapabilities {
    pub absolute: Option<FocusCapabilitiesAbsolute>,
    pub relative: Option<FocusCapabilitiesRelative>,
    pub continuous: Option<FocusCapabilitiesContinuous>,
}

impl FocusCapabilities {
    /// The capabilities of a camera that advertises no focus mode.
    pub open spec fn none() -> FocusCapabilities {
        FocusCapabilities { absolute: None, relative: None, continuous: None }
    }

    pub fn new() -> (caps: Self)
        ensures
            caps == Self::none(),
    {
        Self { absolute: None, relative: None, continuous: None }
    }

    /// The same capabilities with absolute focus between `min` and `max`.
    pub fn absolute(self, min: FocusValue, max: FocusValue, step: FocusValue) -> (caps: Self)
        ensures
            caps == (FocusCapabilities {
                absolute: Some(FocusCapabilitiesAbsolute { min, max, step }),
                ..self
            }),
    {
        let mut caps = self;
        caps.absolute = Some(FocusCapabilitiesAbsolute::new(min, max, step));
        caps
    }

    /// The same capabilities with continuous focus at intervals between
    /// `min_interval` and `max_interval`.
    pub fn continuous(self, min_interval: usize, max_interval: usize) -> (caps: Self)
        ensures
            caps == (FocusCapabilities {
                continuous: Some(FocusCapabilitiesContinuous { min_interval, max_interval }),
                ..self
            }),
    {
        let mut caps = self;
        caps.continuous = Some(FocusCapabilitiesContinuous::new(min_interval, max_interval));
        caps
    }

    /// The same capabilities with relative focus by steps between
    /// `min_step` and `max_step`.
    pub fn relative(self, min_step: FocusValue, max_step: FocusValue) -> (caps: Self)
        ensures
            caps == (FocusCapabilities {
                relative: Some(FocusCapabilitiesRelative { min_step, max_step }),
                ..self
            }),
    {
        let mut caps = self;
        caps.relative = Some(FocusCapabilitiesRelative::new(min_step, max_step));
        caps
    }

    /// Absolute focus between 0 and 1 by thousandths, and no other mode:
    /// what a camera with a motorised lens on a unit scale advertises.
    pub open spec fn unit_scale() -> FocusCapabilities {
        FocusCapabilities {
            absolute: Some(
                FocusCapabilitiesAbsolute {
                    min: FocusValue { bits: FOCUS_ZERO },
                    max: FocusValue { bits: FOCUS_ONE },
                    step: FocusValue { bits: FOCUS_THOUSANDTH },
                },
            ),
            relative: None,
            continuous: None,
        }
    }

    pub fn on_unit_scale() -> (caps: Self)
        ensures
            caps == Self::unit_scale(),
    {
        Self::new().absolute(
            FocusValue { bits: FOCUS_ZERO },
            FocusValue { bits: FOCUS_ONE },
            FocusValue { bits: FOCUS_THOUSANDTH },
        )
    }
}

impl Default for FocusCapabilities {
    fn default() -> (caps: Self)
        ensures
            caps == Self::none(),
    {
        Self::new()
    }
}

} // verus!

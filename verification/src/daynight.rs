//! Day and night switching of a Hikvision camera: the infrared cut filter.

use vstd::prelude::*;

verus! {

/// Whether the spotlight of a camera is on: for a Hikvision camera, whether
/// it is switched to night.
#[derive(Debug, Clone, Copy, PartialEq, Eq, Structural)]
pub struct SPSettings {
    pub enabled: bool,
}

/// The ways in which the filter can be switched.
#[derive(Debug, Clone, Copy, PartialEq, Eq, Structural)]
pub enum ICRCtrlMode {
    Manual,
    Time,
    Auto,
}

/// The position of a filter that is switched by hand.
#[derive(Debug, PartialEq, Clone)]
pub struct ManualMode {
    pub manual_preset_val: IrcutFilterTypes,
}

/// How the filter is switched, and the settings of each way.
#[derive(Debug, PartialEq, Clone)]
pub struct ICRCtrl {
    pub icr_ctrl_mode: ICRCtrlMode,
    pub manual_mode: Option<ManualMode>,
    pub time_mode: Option<TimeMode>,
    pub auto_mode: Option<AutoMode>,
}

/// The filter control of a fixed camera.
#[derive(Debug, PartialEq, Clone)]
pub struct ImageIcrE {
    pub icr_ctrl: ICRCtrl,
}

/// The positions of the infrared cut filter.
#[derive(Debug, Clone, Copy, PartialEq, Eq, Structural)]
pub enum IrcutFilterTypes {
    Auto,
    Day,
    Night,
}

#[derive(Debug, Clone, PartialEq)]
pub struct AutoMode {
    pub icr_auto_switch: i32,
}

#[derive(Debug, Clone, PartialEq)]
pub struct TimeMode {
    pub switch_list: SwitchList,
}

#[derive(Debug, Clone, PartialEq)]
pub struct TimeSwitch {
    pub time_id: i32,
    pub preset_val: IrcutFilterTypes,
    pub start_hour: i32,
    pub start_minute: i32,
    pub end_hour: i32,
    pub end_minute: i32,
}

#[derive(Debug, Clone, PartialEq)]
pub struct SwitchList {
    pub time_switch: Vec<TimeSwitch>,
}

/// The filter setting of a camera that pans and tilts.
#[derive(Debug, PartialEq, Clone)]
pub struct IrcutFilter {
    pub ircut_filter_type: IrcutFilterTypes,
    pub night_to_day_filter_level: Option<u32>,
    pub night_to_day_filter_time: Option<u32>,
}

/// The filter level at which a camera with pan and tilt returns from night
/// to day.
pub const NIGHT_TO_DAY_FILTER_LEVEL_PTZ: u32 = 2;

impl Default for SPSettings {
    fn default() -> (settings: SPSettings)
        ensures
            !settings.enabled,
    {
        SPSettings { enabled: false }
    }
}

impl IrcutFilterTypes {
    /// The filter position for a spotlight that is on (night) or off (day).
    pub open spec fn spec_from_enabled(enabled: bool) -> IrcutFilterTypes {
        if enabled {
            IrcutFilterTypes::Night
        } else {
            IrcutFilterTypes::Day
        }
    }

    /// Whether the filter position stands for a spotlight that is on: only
    /// night does.
    pub open spec fn spec_enabled(self) -> bool {
        self == IrcutFilterTypes::Night
    }
}

impl From<bool> for IrcutFilterTypes {
    fn from(enabled: bool) -> (position: IrcutFilterTypes) {
        match enabled {
            true => IrcutFilterTypes::Night,
            _ => IrcutFilterTypes::Day,
        }
    }
}

impl vstd::std_specs::convert::FromSpecImpl<bool> for IrcutFilterTypes {
    open spec fn obeys_from_spec() -> bool {
        true
    }

    open spec fn from_spec(enabled: bool) -> IrcutFilterTypes {
        IrcutFilterTypes::spec_from_enabled(enabled)
    }
}

impl From<IrcutFilterTypes> for bool {
    fn from(position: IrcutFilterTypes) -> (enabled: bool) {
        match position {
            IrcutFilterTypes::Night => true,
            _ => false,
        }
    }
}

impl vstd::std_specs::convert::FromSpecImpl<IrcutFilterTypes> for bool {
    open spec fn obeys_from_spec() -> bool {
        true
    }

    open spec fn from_spec(position: IrcutFilterTypes) -> bool {
        position.spec_enabled()
    }
}

impl From<bool> for SPSettings {
    fn from(enabled: bool) -> (settings: SPSettings) {
        SPSettings { enabled }
    }
}

impl vstd::std_specs::convert::FromSpecImpl<bool> for SPSettings {
    open spec fn obeys_from_spec() -> bool {
        true
    }

    open spec fn from_spec(enabled: bool) -> SPSettings {
        SPSettings { enabled }
    }
}

impl From<SPSettings> for bool {
    fn from(settings: SPSettings) -> (enabled: bool) {
        settings.enabled
    }
}

impl vstd::std_specs::convert::FromSpecImpl<SPSettings> for bool {
    open spec fn obeys_from_spec() -> bool {
        true
    }

    open spec fn from_spec(settings: SPSettings) -> bool {
        settings.enabled
    }
}

impl From<IrcutFilter> for SPSettings {
    fn from(filter: IrcutFilter) -> (settings: SPSettings) {
        SPSettings { enabled: bool::from(filter.ircut_filter_type) }
    }
}

impl vstd::std_specs::convert::FromSpecImpl<IrcutFilter> for SPSettings {
    open spec fn obeys_from_spec() -> bool {
        true
    }

    open spec fn from_spec(filter: IrcutFilter) -> SPSettings {
        SPSettings { enabled: filter.ircut_filter_type.spec_enabled() }
    }
}

impl IrcutFilter {
    /// The filter setting that switches a camera with pan and tilt to night
    /// or to day.
    pub open spec fn spec_from_settings(settings: SPSettings) -> IrcutFilter {
        IrcutFilter {
            ircut_filter_type: IrcutFilterTypes::spec_from_enabled(settings.enabled),
            night_to_day_filter_level: Some(NIGHT_TO_DAY_FILTER_LEVEL_PTZ),
            night_to_day_filter_time: None,
        }
    }
}

impl From<SPSettings> for IrcutFilter {
    fn from(settings: SPSettings) -> (filter: IrcutFilter) {
        IrcutFilter {
            ircut_filter_type: IrcutFilterTypes::from(settings.enabled),
            night_to_day_filter_level: Some(NIGHT_TO_DAY_FILTER_LEVEL_PTZ),
            night_to_day_filter_time: None,
        }
    }
}

impl vstd::std_specs::convert::FromSpecImpl<SPSettings> for IrcutFilter {
    open spec fn obeys_from_spec() -> bool {
        true
    }

    open spec fn from_spec(settings: SPSettings) -> IrcutFilter {
        IrcutFilter::spec_from_settings(settings)
    }
}

impl ImageIcrE {
    /// The manual filter control that switches a fixed camera to night or
    /// to day.
    pub open spec fn spec_from_settings(settings: SPSettings) -> ImageIcrE {
        ImageIcrE {
            icr_ctrl: ICRCtrl {
                icr_ctrl_mode: ICRCtrlMode::Manual,
                manual_mode: Some(
                    ManualMode {
                        manual_preset_val: IrcutFilterTypes::spec_from_enabled(settings.enabled),
                    },
                ),
                time_mode: None,
                auto_mode: None,
            },
        }
    }

    /// The filter control carries a manual position.
    pub open spec fn has_manual_position(&self) -> bool {
        self.icr_ctrl.manual_mode is Some
    }
}

impl From<SPSettings> for ImageIcrE {
    fn from(settings: SPSettings) -> (control: ImageIcrE) {
        ImageIcrE {
            icr_ctrl: ICRCtrl {
                icr_ctrl_mode: ICRCtrlMode::Manual,
                manual_mode: Some(
                    ManualMode { manual_preset_val: IrcutFilterTypes::from(settings.enabled) },
                ),
                time_mode: None,
                auto_mode: None,
            },
        }
    }
}

impl vstd::std_specs::convert::FromSpecImpl<SPSettings> for ImageIcrE {
    open spec fn obeys_from_spec() -> bool {
        true
    }

    open spec fn from_spec(settings: SPSettings) -> ImageIcrE {
        ImageIcrE::spec_from_settings(settings)
    }
}

impl SPSettings {
    /// The spotlight state that a filter control with a manual position
    /// stands for.
    pub fn from_icr(control: ImageIcrE) -> (settings: SPSettings)
        requires
            control.has_manual_position(),
        ensures
            settings.enabled == control.icr_ctrl.manual_mode->0.manual_preset_val.spec_enabled(),
    {
        match control.icr_ctrl.manual_mode {
            Some(manual) => SPSettings { enabled: bool::from(manual.manual_preset_val) },
            None => SPSettings { enabled: false },
        }
    }
}

/// A spotlight state that is written as a filter setting and read back is
/// the state that was written, on a camera with pan and tilt and on a fixed
/// one.
pub proof fn lemma_spotlight_round_trip(enabled: bool)
    ensures
        IrcutFilter::spec_from_settings(SPSettings { enabled }).ircut_filter_type.spec_enabled()
            == enabled,
        ImageIcrE::spec_from_settings(SPSettings { enabled }).has_manual_position(),
        ImageIcrE::spec_from_settings(
            SPSettings { enabled },
        ).icr_ctrl.manual_mode->0.manual_preset_val.spec_enabled() == enabled,
{
}

} // verus!

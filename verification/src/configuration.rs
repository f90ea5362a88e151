//! The additional configuration of a camera: a bundle of settings that only
//! some manufacturers know.

use vstd::prelude::*;

use crate::domain::{CameraId, Resource};
use crate::image::ImageChannel;
use crate::streaming::StreamingChannel;

verus! {

/// The settings of a Hikvision camera: which projector lines it drives, and
/// its image and streaming channels.
#[derive(Debug, Clone)]
pub struct HikvisionConfiguration {
    /// Line 5 drives a projector.
    pub external_projector: bool,
    /// Line 7 drives a projector.
    pub internal_projector: bool,
    /// The projectors are switched by the lines above and by no other.
    pub default_switch: bool,
    pub image_channel: Option<ImageChannel>,
    pub streaming_channel: Option<StreamingChannel>,
}

impl HikvisionConfiguration {
    /// The settings of a camera that drives both projector lines and of
    /// which no channel is known.
    pub open spec fn is_initial(&self) -> bool {
        &&& self.external_projector
        &&& self.internal_projector
        &&& self.default_switch
        &&& self.image_channel is None
        &&& self.streaming_channel is None
    }

    /// Whether saturation, brightness and contrast are all above zero;
    /// nothing is known where the image channel or its color is missing.
    pub open spec fn spec_is_color_correct(&self) -> Option<bool> {
        match self.image_channel {
            Some(channel) => match channel.color {
                Some(color) => Some(
                    color.saturation_level > 0 && color.brightness_level > 0
                        && color.contrast_level > 0,
                ),
                None => None,
            },
            None => None,
        }
    }

    pub fn is_color_correct(&self) -> (correct: Option<bool>)
        ensures
            correct == self.spec_is_color_correct(),
    {
        match &self.image_channel {
            Some(channel) => match &channel.color {
                Some(color) => Some(
                    color.saturation_level > 0 && color.brightness_level > 0
                        && color.contrast_level > 0,
                ),
                None => None,
            },
            None => None,
        }
    }
}

impl Default for HikvisionConfiguration {
    fn default() -> (configuration: Self)
        ensures
            configuration.is_initial(),
    {
        Self {
            external_projector: true,
            internal_projector: true,
            default_switch: true,
            image_channel: None,
            streaming_channel: None,
        }
    }
}

/// How a spotlight on an output line of an industrial camera is driven.
#[derive(Debug, Clone, Copy, PartialEq, Eq, Structural)]
pub enum SpotlightMode {
    Off,
    AlwaysOn,
    Strobe,
    ExposureActive,
    FrameTriggerWait,
    AcquisitionTriggerWait,
}

/// The spotlight of an industrial camera: its output line and its mode.
#[derive(Debug, Clone, Copy, PartialEq, Eq, Structural)]
pub struct SpotlightConfiguration {
    pub io_line: usize,
    pub mode: SpotlightMode,
}

impl Default for SpotlightConfiguration {
    fn default() -> (configuration: Self)
        ensures
            configuration == (SpotlightConfiguration { io_line: 0, mode: SpotlightMode::Off }),
    {
        Self { io_line: 0, mode: SpotlightMode::Off }
    }
}

/// The additional configuration of one camera. Of the manufacturers'
/// settings at most one is filled in.
#[derive(Debug, Clone)]
pub struct AdditionalConfiguration {
    pub id: CameraId,
    pub is_day_now: Option<bool>,
    pub default_settings: Option<bool>,
    pub spotlight: Option<SpotlightConfiguration>,
    pub hikvision: Option<HikvisionConfiguration>,
}

impl AdditionalConfiguration {
    /// The configuration that a new camera `id` starts from: its settings
    /// are not the recommended ones, its spotlight is off, and nothing else
    /// is known.
    pub open spec fn is_initial_for(&self, id: CameraId) -> bool {
        &&& self.id == id
        &&& self.is_day_now is None
        &&& self.default_settings == Some(false)
        &&& self.spotlight == Some(SpotlightConfiguration { io_line: 0, mode: SpotlightMode::Off })
        &&& self.hikvision is None
    }

    /// The configuration of camera `id` that says nothing.
    pub open spec fn is_empty_for(&self, id: CameraId) -> bool {
        &&& self.id == id
        &&& self.spec_is_empty()
    }

    /// The configuration says nothing.
    pub open spec fn spec_is_empty(&self) -> bool {
        &&& self.spotlight is None
        &&& self.hikvision is None
        &&& self.is_day_now is None
        &&& self.default_settings is None
    }

    pub fn new(id: CameraId) -> (configuration: Self)
        ensures
            configuration.is_initial_for(id),
    {
        Self {
            id,
            is_day_now: None,
            default_settings: Some(false),
            spotlight: Some(SpotlightConfiguration { io_line: 0, mode: SpotlightMode::Off }),
            hikvision: None,
        }
    }

    #[verifier::when_used_as_spec(spec_is_empty)]
    pub fn is_empty(&self) -> (empty: bool)
        ensures
            empty == self.spec_is_empty(),
    {
        self.spotlight.is_none() && self.hikvision.is_none() && self.is_day_now.is_none()
            && self.default_settings.is_none()
    }

    pub fn empty(id: CameraId) -> (configuration: Self)
        ensures
            configuration.is_empty_for(id),
    {
        Self { id, spotlight: None, hikvision: None, is_day_now: None, default_settings: None }
    }

    /// The configuration of the camera that `value` describes, which says
    /// nothing yet.
    pub fn from_resource(value: &Resource) -> (configuration: Self)
        ensures
            configuration.is_empty_for(value.id),
    {
        Self::empty(value.id)
    }

    /// The Hikvision settings without their channels: the projector lines
    /// only. `None` where the configuration holds no Hikvision settings.
    pub fn get_simple_hik_configuration(&self) -> (simple: Option<HikvisionConfiguration>)
        ensures
            match self.hikvision {
                Some(h) => simple == Some(
                    HikvisionConfiguration { image_channel: None, streaming_channel: None, ..h },
                ),
                None => simple is None,
            },
    {
        match &self.hikvision {
            Some(h) => Some(
                HikvisionConfiguration {
                    external_projector: h.external_projector,
                    internal_projector: h.internal_projector,
                    default_switch: h.default_switch,
                    image_channel: None,
                    streaming_channel: None,
                },
            ),
            None => None,
        }
    }

    /// The camera that the configuration belongs to.
    pub fn get_settings_id(&self) -> (id: CameraId)
        ensures
            id == self.id,
    {
        self.id
    }
}

impl Default for AdditionalConfiguration {
    fn default() -> (configuration: Self)
        ensures
            configuration.is_initial_for(0),
    {
        Self::new(0)
    }
}

} // verus!

//! The handle on a camera of any manufacturer: one adapter out of a closed
//! set, to which every operation of the capability contract is forwarded.

use vstd::prelude::*;
use vstd::string::StringExecFns;

use crate::axis::{axis_overrides, AxisHttp};
use crate::clock::Timestamp;
use crate::configuration::AdditionalConfiguration;
use crate::dahua::{dahua_overrides, DahuaHttp};
use crate::domain::{opt_view, CameraModelName, CameraRole, FpsValue, OnvifParams, Resource};
use crate::exchange::Step;
use crate::focus::{FocusCapabilities, FocusContinuous, FocusValue};
use crate::handler::{is_request_under, ApiHandler, Capability, DEFAULT_TIMEOUT};
use crate::request::{Header, HttpRequest, Method};
use crate::hikvision::{hikvision_overrides, HikvisionHttp};
use crate::stilsoft::{stilsoft_overrides, StilsoftHttp, DEFAULT_LANGUAGE};
use crate::text::{strip_prefix, without_prefix};

verus! {

/// The adapter of one camera.
#[derive(Debug)]
pub enum CameraModelHttp {
    Dahua(DahuaHttp),
    Axis(AxisHttp),
    Stilsoft(StilsoftHttp),
    Hikvision(HikvisionHttp),
    /// A camera of a manufacturer that has no adapter: it supports nothing.
    Unknown,
}

/// The address `host` as the adapters take it: without the scheme `http://`
/// at its start, which they write themselves.
pub open spec fn normalized_host(host: Option<Seq<char>>) -> Option<Seq<char>> {
    match host {
        Some(h) => Some(without_prefix(h, "http://"@)),
        None => None,
    }
}

/// Removes the scheme `http://` from the start of the address.
pub fn normalize_host(host: Option<String>) -> (normalized: Option<String>)
    ensures
        opt_view(normalized) == normalized_host(opt_view(host)),
{
    match host {
        Some(h) => Some(strip_prefix(h.as_str(), "http://")),
        None => None,
    }
}

impl CameraModelHttp {
    /// The manufacturer that the adapter is for.
    pub open spec fn model(&self) -> CameraModelName {
        match self {
            CameraModelHttp::Axis(_) => CameraModelName::Axis,
            CameraModelHttp::Dahua(_) => CameraModelName::Dahua,
            CameraModelHttp::Stilsoft(_) => CameraModelName::Stilsoft,
            CameraModelHttp::Hikvision(_) => CameraModelName::Hikvision,
            CameraModelHttp::Unknown => CameraModelName::Other,
        }
    }

    /// The name of the manufacturer.
    pub open spec fn spec_name(&self) -> Seq<char> {
        match self {
            CameraModelHttp::Axis(_) => "Axis"@,
            CameraModelHttp::Dahua(_) => "Dahua"@,
            CameraModelHttp::Stilsoft(_) => "Stilsoft"@,
            CameraModelHttp::Hikvision(_) => "Hikvision"@,
            CameraModelHttp::Unknown => "Unknown"@,
        }
    }

    /// The adapter carries the operation out itself.
    pub open spec fn overrides(&self, capability: Capability) -> bool {
        match self {
            CameraModelHttp::Axis(_) => axis_overrides(capability),
            CameraModelHttp::Dahua(_) => dahua_overrides(capability),
            CameraModelHttp::Stilsoft(_) => stilsoft_overrides(capability),
            CameraModelHttp::Hikvision(_) => hikvision_overrides(capability),
            CameraModelHttp::Unknown => false,
        }
    }

    /// The adapter of a camera of which only the manufacturer is known.
    pub open spec fn unconfigured(&self) -> bool {
        match self {
            CameraModelHttp::Axis(c) => c.unconfigured(),
            CameraModelHttp::Dahua(c) => c.unconfigured(),
            CameraModelHttp::Stilsoft(c) => c.unconfigured(),
            CameraModelHttp::Hikvision(c) => c.unconfigured(),
            CameraModelHttp::Unknown => true,
        }
    }

    /// The identifier, the configured address and credentials, the role
    /// where the adapter knows one, and whether the adapter holds nothing
    /// but these.
    pub open spec fn configured_as(
        &self,
        id: usize,
        host: Option<Seq<char>>,
        username: Option<Seq<char>>,
        password: Option<Seq<char>>,
        role: CameraRole,
    ) -> bool {
        match self {
            CameraModelHttp::Axis(c) => c.id == id && opt_view(c.host) == host && opt_view(
                c.username,
            ) == username && opt_view(c.password) == password && c.timeout == DEFAULT_TIMEOUT,
            CameraModelHttp::Dahua(c) => c.id == id && opt_view(c.host) == host && opt_view(
                c.username,
            ) == username && opt_view(c.password) == password && c.timeout == DEFAULT_TIMEOUT,
            CameraModelHttp::Stilsoft(c) => c.id == id && opt_view(c.host) == host && opt_view(
                c.username,
            ) == username && opt_view(c.password) == password && c.timeout == DEFAULT_TIMEOUT
                && c.language == DEFAULT_LANGUAGE && !c.spotlight_state,
            CameraModelHttp::Hikvision(c) => c.id == id && opt_view(c.host) == host && opt_view(
                c.username,
            ) == username && opt_view(c.password) == password && c.timeout == DEFAULT_TIMEOUT
                && c.camera_role == role && c.undiscovered(),
            CameraModelHttp::Unknown => true,
        }
    }

    pub fn name(&self) -> (name: String)
        ensures
            name@ == self.spec_name(),
    {
        match self {
            CameraModelHttp::Axis(_) => String::from_str("Axis"),
            CameraModelHttp::Dahua(_) => String::from_str("Dahua"),
            CameraModelHttp::Stilsoft(_) => String::from_str("Stilsoft"),
            CameraModelHttp::Hikvision(_) => String::from_str("Hikvision"),
            CameraModelHttp::Unknown => String::from_str("Unknown"),
        }
    }

    /// The adapter for a manufacturer, with nothing configured; the unknown
    /// adapter for a manufacturer that has none.
    pub fn from_model(cmn: CameraModelName) -> (camera: Self)
        ensures
            camera.model() == cmn,
            camera.unconfigured(),
    {
        match cmn {
            CameraModelName::Axis => CameraModelHttp::Axis(AxisHttp::default()),
            CameraModelName::Dahua => CameraModelHttp::Dahua(DahuaHttp::default()),
            CameraModelName::Stilsoft => CameraModelHttp::Stilsoft(StilsoftHttp::default()),
            CameraModelName::Hikvision => CameraModelHttp::Hikvision(HikvisionHttp::default()),
            CameraModelName::Other => CameraModelHttp::Unknown,
        }
    }

    /// The adapter for the camera that `r` describes, which names its
    /// address and credentials. The address is taken without the scheme
    /// `http://` at its start.
    pub fn from_resource(r: Resource) -> (camera: Self)
        requires
            r.onvif is Some,
        ensures
            camera.model() == r.model_name,
            camera.configured_as(
                r.id,
                normalized_host(opt_view(r.onvif->0.host)),
                opt_view(r.onvif->0.username),
                opt_view(r.onvif->0.password),
                r.role,
            ),
    {
        let Resource { id, model_name, role, onvif } = r;
        let params = match onvif {
            Some(o) => OnvifParams {
                host: normalize_host(o.host),
                username: o.username,
                password: o.password,
            },
            None => OnvifParams::unset(),
        };
        let r = Resource { id, model_name, role, onvif: Some(params) };
        match model_name {
            CameraModelName::Axis => CameraModelHttp::Axis(AxisHttp::from_resource(r)),
            CameraModelName::Dahua => CameraModelHttp::Dahua(DahuaHttp::from_resource(r)),
            CameraModelName::Stilsoft => CameraModelHttp::Stilsoft(StilsoftHttp::from_resource(r)),
            CameraModelName::Hikvision => CameraModelHttp::Hikvision(
                HikvisionHttp::from_resource(r),
            ),
            CameraModelName::Other => CameraModelHttp::Unknown,
        }
    }

    /// The request to `url` under the credentials of the adapter; none for
    /// the unknown adapter, which reaches no camera.
    pub fn request(
        &self,
        url: String,
        params: Option<String>,
        method: Method,
        headers: Option<Vec<Header>>,
    ) -> (request: Option<HttpRequest>)
        ensures
            match self {
                CameraModelHttp::Axis(c) => request matches Some(r) && is_request_under(
                    r,
                    c.spec_auth(),
                    url,
                    params,
                    method,
                    headers,
                ),
                CameraModelHttp::Dahua(c) => request matches Some(r) && is_request_under(
                    r,
                    c.spec_auth(),
                    url,
                    params,
                    method,
                    headers,
                ),
                CameraModelHttp::Stilsoft(c) => request matches Some(r) && is_request_under(
                    r,
                    c.spec_auth(),
                    url,
                    params,
                    method,
                    headers,
                ),
                CameraModelHttp::Hikvision(c) => request matches Some(r) && is_request_under(
                    r,
                    c.spec_auth(),
                    url,
                    params,
                    method,
                    headers,
                ),
                CameraModelHttp::Unknown => request is None,
            },
    {
        match self {
            CameraModelHttp::Axis(c) => Some(c.request(url, params, method, headers)),
            CameraModelHttp::Dahua(c) => Some(c.request(url, params, method, headers)),
            CameraModelHttp::Stilsoft(c) => Some(c.request(url, params, method, headers)),
            CameraModelHttp::Hikvision(c) => Some(c.request(url, params, method, headers)),
            CameraModelHttp::Unknown => None,
        }
    }

    /// Whether the adapter carries the operation out itself.
    pub fn supports(&self, capability: Capability) -> (supported: bool)
        ensures
            supported == self.overrides(capability),
    {
        match self {
            CameraModelHttp::Axis(c) => c.supports(capability),
            CameraModelHttp::Dahua(c) => c.supports(capability),
            CameraModelHttp::Stilsoft(c) => c.supports(capability),
            CameraModelHttp::Hikvision(c) => c.supports(capability),
            CameraModelHttp::Unknown => false,
        }
    }

    /// What `init` answers: what the adapter answers, and for the unknown
    /// adapter that the operation is unsupported.
    pub open spec fn init_step(&self, step: Step<()>) -> bool {
        match self {
            CameraModelHttp::Axis(_) => step.is_unsupported(),
            CameraModelHttp::Stilsoft(_) => step.is_unsupported(),
            CameraModelHttp::Dahua(_) => step.is_unsupported(),
            CameraModelHttp::Hikvision(c) => c.init_step(step),
            CameraModelHttp::Unknown => step.is_unsupported(),
        }
    }

    /// What `set_fps` answers: what the adapter answers, and for the unknown
    /// adapter that the operation is unsupported.
    pub open spec fn set_fps_step(&self, fps: FpsValue, step: Step<()>) -> bool {
        match self {
            CameraModelHttp::Axis(c) => c.set_fps_step(fps, step),
            CameraModelHttp::Stilsoft(c) => c.set_fps_step(fps, step),
            CameraModelHttp::Dahua(c) => c.set_fps_step(fps, step),
            CameraModelHttp::Hikvision(c) => c.set_fps_step(fps, step),
            CameraModelHttp::Unknown => step.is_unsupported(),
        }
    }

    /// What `get_fps` answers: what the adapter answers, and for the unknown
    /// adapter that the operation is unsupported.
    pub open spec fn get_fps_step(&self, step: Step<FpsValue>) -> bool {
        match self {
            CameraModelHttp::Axis(c) => c.get_fps_step(step),
            CameraModelHttp::Stilsoft(c) => c.get_fps_step(step),
            CameraModelHttp::Dahua(c) => c.get_fps_step(step),
            CameraModelHttp::Hikvision(c) => c.get_fps_step(step),
            CameraModelHttp::Unknown => step.is_unsupported(),
        }
    }

    /// What `switch_spotlight` answers: what the adapter answers, and for the unknown
    /// adapter that the operation is unsupported.
    pub open spec fn switch_spotlight_step(&self, enabled: bool, step: Step<()>) -> bool {
        match self {
            CameraModelHttp::Axis(c) => c.switch_spotlight_step(enabled, step),
            CameraModelHttp::Stilsoft(c) => c.switch_spotlight_step(enabled, step),
            CameraModelHttp::Dahua(c) => c.switch_spotlight_step(enabled, step),
            CameraModelHttp::Hikvision(c) => c.switch_spotlight_step(enabled, step),
            CameraModelHttp::Unknown => step.is_unsupported(),
        }
    }

    /// What `get_spotlight_state` answers: what the adapter answers, and for the unknown
    /// adapter that the operation is unsupported.
    pub open spec fn get_spotlight_state_step(&self, step: Step<bool>) -> bool {
        match self {
            CameraModelHttp::Axis(c) => c.get_spotlight_state_step(step),
            CameraModelHttp::Stilsoft(c) => c.get_spotlight_state_step(step),
            CameraModelHttp::Dahua(c) => c.get_spotlight_state_step(step),
            CameraModelHttp::Hikvision(c) => c.get_spotlight_state_step(step),
            CameraModelHttp::Unknown => step.is_unsupported(),
        }
    }

    /// What `get_focus_capabilities` answers: what the adapter answers, and for the unknown
    /// adapter that the operation is unsupported.
    pub open spec fn get_focus_capabilities_step(&self, step: Step<FocusCapabilities>) -> bool {
        match self {
            CameraModelHttp::Axis(c) => c.get_focus_capabilities_step(step),
            CameraModelHttp::Stilsoft(_) => step.is_unsupported(),
            CameraModelHttp::Dahua(c) => c.get_focus_capabilities_step(step),
            CameraModelHttp::Hikvision(c) => c.get_focus_capabilities_step(step),
            CameraModelHttp::Unknown => step.is_unsupported(),
        }
    }

    /// What `get_focus_continuous` answers: what the adapter answers, and for the unknown
    /// adapter that the operation is unsupported.
    pub open spec fn get_focus_continuous_step(&self, step: Step<FocusContinuous>) -> bool {
        match self {
            CameraModelHttp::Axis(_) => step.is_unsupported(),
            CameraModelHttp::Stilsoft(_) => step.is_unsupported(),
            CameraModelHttp::Dahua(_) => step.is_unsupported(),
            CameraModelHttp::Hikvision(c) => c.get_focus_continuous_step(step),
            CameraModelHttp::Unknown => step.is_unsupported(),
        }
    }

    /// What `set_focus_continuous` answers: what the adapter answers, and for the unknown
    /// adapter that the operation is unsupported.
    pub open spec fn set_focus_continuous_step(&self, focus: FocusContinuous, step: Step<()>) -> bool {
        match self {
            CameraModelHttp::Axis(_) => step.is_unsupported(),
            CameraModelHttp::Stilsoft(_) => step.is_unsupported(),
            CameraModelHttp::Dahua(_) => step.is_unsupported(),
            CameraModelHttp::Hikvision(c) => c.set_focus_continuous_step(focus, step),
            CameraModelHttp::Unknown => step.is_unsupported(),
        }
    }

    /// What `get_focus_absolute` answers: what the adapter answers, and for the unknown
    /// adapter that the operation is unsupported.
    pub open spec fn get_focus_absolute_step(&self, step: Step<FocusValue>) -> bool {
        match self {
            CameraModelHttp::Axis(c) => c.get_focus_absolute_step(step),
            CameraModelHttp::Stilsoft(_) => step.is_unsupported(),
            CameraModelHttp::Dahua(c) => c.get_focus_absolute_step(step),
            CameraModelHttp::Hikvision(_) => step.is_unsupported(),
            CameraModelHttp::Unknown => step.is_unsupported(),
        }
    }

    /// What `set_focus_absolute` answers: what the adapter answers, and for the unknown
    /// adapter that the operation is unsupported.
    pub open spec fn set_focus_absolute_step(&self, focus: Seq<char>, step: Step<()>) -> bool {
        match self {
            CameraModelHttp::Axis(c) => c.set_focus_absolute_step(focus, step),
            CameraModelHttp::Stilsoft(_) => step.is_unsupported(),
            CameraModelHttp::Dahua(c) => c.set_focus_absolute_step(focus, step),
            CameraModelHttp::Hikvision(_) => step.is_unsupported(),
            CameraModelHttp::Unknown => step.is_unsupported(),
        }
    }

    /// What `get_focus_relative` answers: what the adapter answers, and for the unknown
    /// adapter that the operation is unsupported.
    pub open spec fn get_focus_relative_step(&self, step: Step<FocusValue>) -> bool {
        match self {
            CameraModelHttp::Axis(_) => step.is_unsupported(),
            CameraModelHttp::Stilsoft(_) => step.is_unsupported(),
            CameraModelHttp::Dahua(_) => step.is_unsupported(),
            CameraModelHttp::Hikvision(_) => step.is_unsupported(),
            CameraModelHttp::Unknown => step.is_unsupported(),
        }
    }

    /// What `set_focus_relative` answers: what the adapter answers, and for the unknown
    /// adapter that the operation is unsupported.
    pub open spec fn set_focus_relative_step(&self, focus: Seq<char>, step: Step<()>) -> bool {
        match self {
            CameraModelHttp::Axis(_) => step.is_unsupported(),
            CameraModelHttp::Stilsoft(_) => step.is_unsupported(),
            CameraModelHttp::Dahua(_) => step.is_unsupported(),
            CameraModelHttp::Hikvision(_) => step.is_unsupported(),
            CameraModelHttp::Unknown => step.is_unsupported(),
        }
    }

    /// What `set_date_time` answers: what the adapter answers, and for the unknown
    /// adapter that the operation is unsupported.
    pub open spec fn set_date_time_step(&self, date_time: Timestamp, step: Step<()>) -> bool {
        match self {
            CameraModelHttp::Axis(c) => c.set_date_time_step(date_time, step),
            CameraModelHttp::Stilsoft(_) => step.is_unsupported(),
            CameraModelHttp::Dahua(c) => c.set_date_time_step(date_time, step),
            CameraModelHttp::Hikvision(_) => step.is_unsupported(),
            CameraModelHttp::Unknown => step.is_unsupported(),
        }
    }

    /// What `get_additional_configuration` answers: what the adapter answers, and for the unknown
    /// adapter that the operation is unsupported.
    pub open spec fn get_additional_configuration_step(&self, step: Step<AdditionalConfiguration>) -> bool {
        match self {
            CameraModelHttp::Axis(_) => step.is_unsupported(),
            CameraModelHttp::Stilsoft(_) => step.is_unsupported(),
            CameraModelHttp::Dahua(_) => step.is_unsupported(),
            CameraModelHttp::Hikvision(c) => c.get_additional_configuration_step(step),
            CameraModelHttp::Unknown => step.is_unsupported(),
        }
    }

    /// What `get_default_configuration` answers: what the adapter answers, and for the unknown
    /// adapter that the operation is unsupported.
    pub open spec fn get_default_configuration_step(&self, step: Step<AdditionalConfiguration>) -> bool {
        match self {
            CameraModelHttp::Axis(_) => step.is_unsupported(),
            CameraModelHttp::Stilsoft(_) => step.is_unsupported(),
            CameraModelHttp::Dahua(_) => step.is_unsupported(),
            CameraModelHttp::Hikvision(c) => c.get_default_configuration_step(step),
            CameraModelHttp::Unknown => step.is_unsupported(),
        }
    }

    /// Discovers what the adapter needs to know of its camera.
    pub fn init(&self) -> (step: Step<()>)
        ensures
            self.init_step(step),
            !self.overrides(Capability::Init) ==> step.is_unsupported(),
    {
        match self {
            CameraModelHttp::Axis(c) => c.init(),
            CameraModelHttp::Stilsoft(c) => c.init(),
            CameraModelHttp::Dahua(c) => c.init(),
            CameraModelHttp::Hikvision(c) => c.init(),
            CameraModelHttp::Unknown => Step::unsupported(),
        }
    }

    /// Sets the frame rate.
    pub fn set_fps(&self, fps: FpsValue) -> (step: Step<()>)
        ensures
            self.set_fps_step(fps, step),
            !self.overrides(Capability::SetFps) ==> step.is_unsupported(),
    {
        match self {
            CameraModelHttp::Axis(c) => c.set_fps(fps),
            CameraModelHttp::Stilsoft(c) => c.set_fps(fps),
            CameraModelHttp::Dahua(c) => c.set_fps(fps),
            CameraModelHttp::Hikvision(c) => c.set_fps(fps),
            CameraModelHttp::Unknown => Step::unsupported(),
        }
    }

    /// The frame rate.
    pub fn get_fps(&self) -> (step: Step<FpsValue>)
        ensures
            self.get_fps_step(step),
            !self.overrides(Capability::GetFps) ==> step.is_unsupported(),
    {
        match self {
            CameraModelHttp::Axis(c) => c.get_fps(),
            CameraModelHttp::Stilsoft(c) => c.get_fps(),
            CameraModelHttp::Dahua(c) => c.get_fps(),
            CameraModelHttp::Hikvision(c) => c.get_fps(),
            CameraModelHttp::Unknown => Step::unsupported(),
        }
    }

    /// Switches the spotlight on or off.
    pub fn switch_spotlight(&self, enabled: bool) -> (step: Step<()>)
        ensures
            self.switch_spotlight_step(enabled, step),
            !self.overrides(Capability::SwitchSpotlight) ==> step.is_unsupported(),
    {
        match self {
            CameraModelHttp::Axis(c) => c.switch_spotlight(enabled),
            CameraModelHttp::Stilsoft(c) => c.switch_spotlight(enabled),
            CameraModelHttp::Dahua(c) => c.switch_spotlight(enabled),
            CameraModelHttp::Hikvision(c) => c.switch_spotlight(enabled),
            CameraModelHttp::Unknown => Step::unsupported(),
        }
    }

    /// Whether the spotlight is on.
    pub fn get_spotlight_state(&self) -> (step: Step<bool>)
        ensures
            self.get_spotlight_state_step(step),
            !self.overrides(Capability::GetSpotlightState) ==> step.is_unsupported(),
    {
        match self {
            CameraModelHttp::Axis(c) => c.get_spotlight_state(),
            CameraModelHttp::Stilsoft(c) => c.get_spotlight_state(),
            CameraModelHttp::Dahua(c) => c.get_spotlight_state(),
            CameraModelHttp::Hikvision(c) => c.get_spotlight_state(),
            CameraModelHttp::Unknown => Step::unsupported(),
        }
    }

    /// The focus modes that the camera advertises.
    pub fn get_focus_capabilities(&self) -> (step: Step<FocusCapabilities>)
        ensures
            self.get_focus_capabilities_step(step),
            !self.overrides(Capability::GetFocusCapabilities) ==> step.is_unsupported(),
    {
        match self {
            CameraModelHttp::Axis(c) => c.get_focus_capabilities(),
            CameraModelHttp::Stilsoft(c) => c.get_focus_capabilities(),
            CameraModelHttp::Dahua(c) => c.get_focus_capabilities(),
            CameraModelHttp::Hikvision(c) => c.get_focus_capabilities(),
            CameraModelHttp::Unknown => Step::unsupported(),
        }
    }

    /// The continuous focus movement that was last commanded.
    pub fn get_focus_continuous(&self) -> (step: Step<FocusContinuous>)
        ensures
            self.get_focus_continuous_step(step),
            !self.overrides(Capability::GetFocusContinuous) ==> step.is_unsupported(),
    {
        match self {
            CameraModelHttp::Axis(c) => c.get_focus_continuous(),
            CameraModelHttp::Stilsoft(c) => c.get_focus_continuous(),
            CameraModelHttp::Dahua(c) => c.get_focus_continuous(),
            CameraModelHttp::Hikvision(c) => c.get_focus_continuous(),
            CameraModelHttp::Unknown => Step::unsupported(),
        }
    }

    /// Drives the lens continuously.
    pub fn set_focus_continuous(&self, focus: FocusContinuous) -> (step: Step<()>)
        ensures
            self.set_focus_continuous_step(focus, step),
            !self.overrides(Capability::SetFocusContinuous) ==> step.is_unsupported(),
    {
        match self {
            CameraModelHttp::Axis(c) => c.set_focus_continuous(focus),
            CameraModelHttp::Stilsoft(c) => c.set_focus_continuous(focus),
            CameraModelHttp::Dahua(c) => c.set_focus_continuous(focus),
            CameraModelHttp::Hikvision(c) => c.set_focus_continuous(focus),
            CameraModelHttp::Unknown => Step::unsupported(),
        }
    }

    /// The focus position.
    pub fn get_focus_absolute(&self) -> (step: Step<FocusValue>)
        ensures
            self.get_focus_absolute_step(step),
            !self.overrides(Capability::GetFocusAbsolute) ==> step.is_unsupported(),
    {
        match self {
            CameraModelHttp::Axis(c) => c.get_focus_absolute(),
            CameraModelHttp::Stilsoft(c) => c.get_focus_absolute(),
            CameraModelHttp::Dahua(c) => c.get_focus_absolute(),
            CameraModelHttp::Hikvision(c) => c.get_focus_absolute(),
            CameraModelHttp::Unknown => Step::unsupported(),
        }
    }

    /// Moves the focus to a position, which `focus` writes as a decimal number.
    pub fn set_focus_absolute(&self, focus: &str) -> (step: Step<()>)
        ensures
            self.set_focus_absolute_step(focus@, step),
            !self.overrides(Capability::SetFocusAbsolute) ==> step.is_unsupported(),
    {
        match self {
            CameraModelHttp::Axis(c) => c.set_focus_absolute(focus),
            CameraModelHttp::Stilsoft(c) => c.set_focus_absolute(focus),
            CameraModelHttp::Dahua(c) => c.set_focus_absolute(focus),
            CameraModelHttp::Hikvision(c) => c.set_focus_absolute(focus),
            CameraModelHttp::Unknown => Step::unsupported(),
        }
    }

    /// The last relative focus step.
    pub fn get_focus_relative(&self) -> (step: Step<FocusValue>)
        ensures
            self.get_focus_relative_step(step),
            !self.overrides(Capability::GetFocusRelative) ==> step.is_unsupported(),
    {
        match self {
            CameraModelHttp::Axis(c) => c.get_focus_relative(),
            CameraModelHttp::Stilsoft(c) => c.get_focus_relative(),
            CameraModelHttp::Dahua(c) => c.get_focus_relative(),
            CameraModelHttp::Hikvision(c) => c.get_focus_relative(),
            CameraModelHttp::Unknown => Step::unsupported(),
        }
    }

    /// Moves the focus by a step, which `focus` writes as a decimal number.
    pub fn set_focus_relative(&self, focus: &str) -> (step: Step<()>)
        ensures
            self.set_focus_relative_step(focus@, step),
            !self.overrides(Capability::SetFocusRelative) ==> step.is_unsupported(),
    {
        match self {
            CameraModelHttp::Axis(c) => c.set_focus_relative(focus),
            CameraModelHttp::Stilsoft(c) => c.set_focus_relative(focus),
            CameraModelHttp::Dahua(c) => c.set_focus_relative(focus),
            CameraModelHttp::Hikvision(c) => c.set_focus_relative(focus),
            CameraModelHttp::Unknown => Step::unsupported(),
        }
    }

    /// Sets the clock of the camera.
    pub fn set_date_time(&self, date_time: Timestamp) -> (step: Step<()>)
        ensures
            self.set_date_time_step(date_time, step),
            !self.overrides(Capability::SetDateTime) ==> step.is_unsupported(),
    {
        match self {
            CameraModelHttp::Axis(c) => c.set_date_time(date_time),
            CameraModelHttp::Stilsoft(c) => c.set_date_time(date_time),
            CameraModelHttp::Dahua(c) => c.set_date_time(date_time),
            CameraModelHttp::Hikvision(c) => c.set_date_time(date_time),
            CameraModelHttp::Unknown => Step::unsupported(),
        }
    }

    /// The additional configuration of the camera.
    pub fn get_additional_configuration(&self) -> (step: Step<AdditionalConfiguration>)
        ensures
            self.get_additional_configuration_step(step),
            !self.overrides(Capability::GetAdditionalConfiguration) ==> step.is_unsupported(),
    {
        match self {
            CameraModelHttp::Axis(c) => c.get_additional_configuration(),
            CameraModelHttp::Stilsoft(c) => c.get_additional_configuration(),
            CameraModelHttp::Dahua(c) => c.get_additional_configuration(),
            CameraModelHttp::Hikvision(c) => c.get_additional_configuration(),
            CameraModelHttp::Unknown => Step::unsupported(),
        }
    }

    /// The additional configuration that is recommended for the camera.
    pub fn get_default_configuration(&self) -> (step: Step<AdditionalConfiguration>)
        ensures
            self.get_default_configuration_step(step),
            !self.overrides(Capability::GetDefaultConfiguration) ==> step.is_unsupported(),
    {
        match self {
            CameraModelHttp::Axis(c) => c.get_default_configuration(),
            CameraModelHttp::Stilsoft(c) => c.get_default_configuration(),
            CameraModelHttp::Dahua(c) => c.get_default_configuration(),
            CameraModelHttp::Hikvision(c) => c.get_default_configuration(),
            CameraModelHttp::Unknown => Step::unsupported(),
        }
    }

    /// What `set_additional_configuration` answers and how it leaves the
    /// adapter, which was `before`.
    pub open spec fn set_additional_configuration_step(
        &self,
        before: &Self,
        configuration: AdditionalConfiguration,
        step: Step<()>,
    ) -> bool {
        match (*before, *self) {
            (CameraModelHttp::Hikvision(b), CameraModelHttp::Hikvision(a)) =>
                a.set_additional_configuration_step(&b, configuration, step),
            _ => *self == *before && step.is_unsupported(),
        }
    }

    /// Writes an additional configuration to the camera.
    pub fn set_additional_configuration(&mut self, configuration: AdditionalConfiguration) -> (step:
        Step<()>)
        ensures
            final(self).set_additional_configuration_step(old(self), configuration, step),
            !old(self).overrides(Capability::SetAdditionalConfiguration) ==> step.is_unsupported(),
    {
        match self {
            CameraModelHttp::Hikvision(c) => c.set_additional_configuration(configuration),
            _ => Step::unsupported(),
        }
    }
}

impl Default for CameraModelHttp {
    fn default() -> (camera: Self)
        ensures
            camera is Unknown,
    {
        CameraModelHttp::Unknown
    }
}

/// The unknown adapter supports no operation.
pub proof fn lemma_unknown_supports_nothing(capability: Capability)
    ensures
        !CameraModelHttp::Unknown.overrides(capability),
{
}

} // verus!

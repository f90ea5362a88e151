//! The capability contract: the operations that a camera may offer, and what
//! every adapter answers for those that it does not offer.

use vstd::prelude::*;

use crate::clock::Timestamp;
use crate::configuration::AdditionalConfiguration;
use crate::domain::{opt_view, FpsValue};
use crate::exchange::Step;
use crate::focus::{FocusCapabilities, FocusContinuous, FocusValue};
use crate::request::{Header, HttpRequest, Method, RequestType};

verus! {

/// The seconds after which a request to a camera is given up.
pub const DEFAULT_TIMEOUT: u64 = 4;

/// One operation of the capability contract.
#[derive(Debug, Clone, Copy, PartialEq, Eq, Structural)]
pub enum Capability {
    Init,
    GetFps,
    SetFps,
    SwitchSpotlight,
    GetSpotlightState,
    GetFocusCapabilities,
    GetFocusContinuous,
    SetFocusContinuous,
    GetFocusAbsolute,
    SetFocusAbsolute,
    GetFocusRelative,
    SetFocusRelative,
    SetDateTime,
    GetAdditionalConfiguration,
    SetAdditionalConfiguration,
    GetDefaultConfiguration,
}

/// The user name under which a camera is reached where none is configured.
pub open spec fn default_username() -> Seq<char> {
    "admin"@
}

/// The password under which a camera is reached where none is configured.
pub open spec fn default_password() -> Seq<char> {
    "Admin777"@
}

/// The address under which a camera is reached where none is configured.
pub open spec fn loopback() -> Seq<char> {
    "127.0.0.1"@
}

/// The credentials that are used for the configured ones: each missing side
/// is replaced by its default, the other is kept.
pub open spec fn resolved_auth(username: Option<Seq<char>>, password: Option<Seq<char>>) -> (
    Seq<char>,
    Seq<char>,
) {
    (
        match username {
            Some(u) => u,
            None => default_username(),
        },
        match password {
            Some(p) => p,
            None => default_password(),
        },
    )
}

/// The address that is used for the configured one: the loopback address
/// where none is configured.
pub open spec fn resolved_host(host: Option<Seq<char>>) -> Seq<char> {
    match host {
        Some(h) => h,
        None => loopback(),
    }
}

pub fn resolve_auth<'a>(username: &'a Option<String>, password: &'a Option<String>) -> (credentials: (
    &'a str,
    &'a str,
))
    ensures
        (credentials.0@, credentials.1@) == resolved_auth(opt_view(*username), opt_view(*password)),
{
    match (username, password) {
        (Some(u), Some(p)) => (u.as_str(), p.as_str()),
        (Some(u), None) => (u.as_str(), "Admin777"),
        (None, Some(p)) => ("admin", p.as_str()),
        (None, None) => ("admin", "Admin777"),
    }
}

pub fn resolve_host<'a>(host: &'a Option<String>) -> (address: &'a str)
    ensures
        address@ == resolved_host(opt_view(*host)),
{
    match host {
        Some(h) => h.as_str(),
        None => "127.0.0.1",
    }
}

/// `request` is the request to `url` under the credentials `auth`, carried by
/// the library client.
pub open spec fn is_request_under(
    request: HttpRequest,
    auth: (Seq<char>, Seq<char>),
    url: String,
    params: Option<String>,
    method: Method,
    headers: Option<Vec<Header>>,
) -> bool {
    &&& request.rt == RequestType::Reqwest
    &&& request.url == url
    &&& request.params == params
    &&& request.method == method
    &&& request.headers == headers
    &&& request@.username == Some(auth.0)
    &&& request@.password == Some(auth.1)
}

/// The contract that every adapter of a camera meets.
///
/// Each operation answers with its first step. An adapter that does not
/// carry an operation out leaves its step as it is given here: the operation
/// ends at once as unsupported, whenever and however often it is started.
pub trait ApiHandler {
    /// The credentials under which the adapter reaches its camera.
    spec fn spec_auth(&self) -> (Seq<char>, Seq<char>);

    /// The address at which the adapter reaches its camera.
    spec fn spec_host(&self) -> Seq<char>;

    /// The adapter carries the operation out itself.
    spec fn overrides(&self, capability: Capability) -> bool;

    fn auth(&self) -> (credentials: (&str, &str))
        ensures
            (credentials.0@, credentials.1@) == self.spec_auth(),
    ;

    fn host(&self) -> (address: &str)
        ensures
            address@ == self.spec_host(),
    ;

    /// Whether the adapter carries the operation out itself.
    fn supports(&self, capability: Capability) -> (supported: bool)
        ensures
            supported == self.overrides(capability),
    ;

    /// Discovers what the adapter needs to know of its camera.
    fn init(&self) -> (step: Step<()>)
        ensures
            !self.overrides(Capability::Init) ==> step.is_unsupported(),
    {
        Step::unsupported()
    }

    /// The request to `url` under the adapter's credentials, carried by the
    /// library client.
    fn request(
        &self,
        url: String,
        params: Option<String>,
        method: Method,
        headers: Option<Vec<Header>>,
    ) -> (request: HttpRequest)
        ensures
            is_request_under(request, self.spec_auth(), url, params, method, headers),
    {
        let (user, password) = self.auth();
        HttpRequest {
            rt: RequestType::Reqwest,
            url,
            params,
            auth: (Some(user.to_owned()), Some(password.to_owned())),
            method,
            headers,
        }
    }

    /// The continuous focus movement that was last commanded.
    fn get_focus_continuous(&self) -> (step: Step<FocusContinuous>)
        ensures
            !self.overrides(Capability::GetFocusContinuous) ==> step.is_unsupported(),
    {
        Step::unsupported()
    }

    /// Drives the lens continuously.
    fn set_focus_continuous(&self, focus: FocusContinuous) -> (step: Step<()>)
        ensures
            !self.overrides(Capability::SetFocusContinuous) ==> step.is_unsupported(),
    {
        Step::unsupported()
    }

    /// The focus modes that the camera advertises.
    fn get_focus_capabilities(&self) -> (step: Step<FocusCapabilities>)
        ensures
            !self.overrides(Capability::GetFocusCapabilities) ==> step.is_unsupported(),
    {
        Step::unsupported()
    }

    /// Moves the focus by a step, which `focus` writes as a decimal number.
    fn set_focus_relative(&self, focus: &str) -> (step: Step<()>)
        ensures
            !self.overrides(Capability::SetFocusRelative) ==> step.is_unsupported(),
    {
        Step::unsupported()
    }

    /// The last relative focus step.
    fn get_focus_relative(&self) -> (step: Step<FocusValue>)
        ensures
            !self.overrides(Capability::GetFocusRelative) ==> step.is_unsupported(),
    {
        Step::unsupported()
    }

    /// The focus position.
    fn get_focus_absolute(&self) -> (step: Step<FocusValue>)
        ensures
            !self.overrides(Capability::GetFocusAbsolute) ==> step.is_unsupported(),
    {
        Step::unsupported()
    }

    /// Moves the focus to a position, which `focus` writes as a decimal number.
    fn set_focus_absolute(&self, focus: &str) -> (step: Step<()>)
        ensures
            !self.overrides(Capability::SetFocusAbsolute) ==> step.is_unsupported(),
    {
        Step::unsupported()
    }

    /// Sets the clock of the camera.
    fn set_date_time(&self, date_time: Timestamp) -> (step: Step<()>)
        ensures
            !self.overrides(Capability::SetDateTime) ==> step.is_unsupported(),
    {
        Step::unsupported()
    }

    /// The frame rate.
    fn get_fps(&self) -> (step: Step<FpsValue>)
        ensures
            !self.overrides(Capability::GetFps) ==> step.is_unsupported(),
    {
        Step::unsupported()
    }

    /// Sets the frame rate.
    fn set_fps(&self, fps: FpsValue) -> (step: Step<()>)
        ensures
            !self.overrides(Capability::SetFps) ==> step.is_unsupported(),
    {
        Step::unsupported()
    }

    /// Whether the spotlight is on.
    fn get_spotlight_state(&self) -> (step: Step<bool>)
        ensures
            !self.overrides(Capability::GetSpotlightState) ==> step.is_unsupported(),
    {
        Step::unsupported()
    }

    /// Switches the spotlight on or off.
    fn switch_spotlight(&self, enabled: bool) -> (step: Step<()>)
        ensures
            !self.overrides(Capability::SwitchSpotlight) ==> step.is_unsupported(),
    {
        Step::unsupported()
    }

    /// The additional configuration of the camera.
    fn get_additional_configuration(&self) -> (step: Step<AdditionalConfiguration>)
        ensures
            !self.overrides(Capability::GetAdditionalConfiguration) ==> step.is_unsupported(),
    {
        Step::unsupported()
    }

    /// Writes an additional configuration to the camera.
    fn set_additional_configuration(&mut self, configuration: AdditionalConfiguration) -> (step: Step<
        (),
    >)
        ensures
            !old(self).overrides(Capability::SetAdditionalConfiguration) ==> step.is_unsupported(),
    {
        Step::unsupported()
    }

    /// The additional configuration that is recommended for the camera.
    fn get_default_configuration(&self) -> (step: Step<AdditionalConfiguration>)
        ensures
            !self.overrides(Capability::GetDefaultConfiguration) ==> step.is_unsupported(),
    {
        Step::unsupported()
    }
}

} // verus!

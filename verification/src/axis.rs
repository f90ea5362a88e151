//! The adapter of Axis cameras: port management in JSON, parameters and
//! optics through query strings.

use vstd::prelude::*;
use vstd::string::StringExecFns;

use crate::clock::Timestamp;
use crate::domain::{opt_view, CameraId, FpsValue, Resource};
use crate::error::{ErrorKind, IpCamerasError};
use crate::exchange::{Call, Payload, Step};
use crate::focus::{FocusCapabilities, FocusValue};
use crate::handler::{
    resolve_auth, resolve_host, resolved_auth, resolved_host, ApiHandler, Capability,
    DEFAULT_TIMEOUT,
};
use crate::markup::{
    collect_attribute_values, element_attribute_values, node_views, read_nodes, xml_nodes,
    XmlNode,
};
use crate::request::{Header, Method};
use crate::text::{
    decimal, first_int, first_int_fits, has_prefix, pair_views, parse_first_int, query_string,
    same_text, starts_with, to_decimal, views, write_query,
};

verus! {

/// The version of the interface that every request names; it is written as
/// `1.0`.
#[derive(Debug, Clone, Copy, PartialEq, Eq, Structural)]
pub struct ApiVersion;

impl ApiVersion {
    pub open spec fn spec_text() -> Seq<char> {
        "1.0"@
    }

    pub fn text(&self) -> (text: &'static str)
        ensures
            text@ == Self::spec_text(),
    {
        "1.0"
    }
}

impl Default for ApiVersion {
    fn default() -> (version: Self) {
        ApiVersion
    }
}

/// What is asked of the port management.
#[derive(Debug)]
pub enum RequestParams<P> {
    GetPorts,
    SetPorts { ports: P },
}

/// An answer of the camera, around its data.
#[derive(Debug)]
pub struct Response<D> {
    pub api_version: String,
    pub method: String,
    pub data: D,
}

/// The state of a port.
#[derive(Debug, Clone, Copy, PartialEq, Eq, Structural)]
pub enum PortState {
    Open,
    Closed,
}

impl PortState {
    /// The state of the port of a spotlight that is on (closed) or off
    /// (open).
    pub open spec fn spec_from_enabled(enabled: bool) -> PortState {
        if enabled {
            PortState::Closed
        } else {
            PortState::Open
        }
    }

    /// Whether the state is that of a spotlight that is on.
    pub open spec fn spec_enabled(self) -> bool {
        self == PortState::Closed
    }

    /// Whether the state is that of a spotlight that is on.
    pub fn enabled(self) -> (on: bool)
        ensures
            on == self.spec_enabled(),
    {
        self == PortState::Closed
    }
}

impl From<bool> for PortState {
    fn from(value: bool) -> (state: PortState) {
        match value {
            true => PortState::Closed,
            _ => PortState::Open,
        }
    }
}

impl vstd::std_specs::convert::FromSpecImpl<bool> for PortState {
    open spec fn obeys_from_spec() -> bool {
        true
    }

    open spec fn from_spec(value: bool) -> PortState {
        PortState::spec_from_enabled(value)
    }
}

/// A port as it is written to the camera.
#[derive(Debug, Clone, Copy, PartialEq, Eq)]
pub struct Port {
    pub port: &'static str,
    pub normal_state: PortState,
    pub state: PortState,
}

/// A port as the camera reports it.
#[derive(Debug)]
pub struct ProjectorsItem {
    pub port: String,
    pub state: PortState,
    pub normal_state: PortState,
}

/// The ports that the camera reports.
#[derive(Debug)]
pub struct ProjectorsData {
    pub number_of_ports: u8,
    pub items: Vec<ProjectorsItem>,
}

/// The ports that the camera reports as written.
#[derive(Debug)]
pub struct SwitchData {
    pub ports: Vec<String>,
}

/// A request to the port management.
#[derive(Debug)]
pub struct ApiRequest<P> {
    pub api_version: ApiVersion,
    pub method: RequestParams<P>,
}

impl<P> ApiRequest<P> {
    /// The request that asks for `method`.
    pub fn from_params(method: RequestParams<P>) -> (request: Self)
        ensures
            request.method == method,
    {
        Self { method, api_version: ApiVersion }
    }
}

/// The time zone that a camera is set to.
#[derive(Debug)]
pub struct SetTimeZoneRequest {
    pub time_zone: String,
}

/// The date and time that a camera is set to.
#[derive(Debug, Clone, Copy, PartialEq, Eq, Structural)]
pub struct SetDateTimeRequest {
    pub date_time: Timestamp,
}

impl SetDateTimeRequest {
    /// The pattern under which the date and time are written.
    pub open spec fn pattern() -> Seq<char> {
        "%FT%TZ"@
    }

    /// The date and time as the camera takes them, where they can be
    /// written.
    pub fn date_time_text(&self) -> (text: Option<String>)
        ensures
            opt_view(text) == self.date_time.spec_format(Self::pattern()),
    {
        self.date_time.format("%FT%TZ")
    }
}

/// A request to one of the general interfaces of the camera.
#[derive(Debug)]
pub struct GenericApiRequest<P> {
    pub api_version: ApiVersion,
    pub method: &'static str,
    pub params: P,
}

impl GenericApiRequest<SetDateTimeRequest> {
    /// The name of the method that sets date and time.
    pub open spec fn method_name() -> Seq<char> {
        "setDateTime"@
    }

    /// The request that sets date and time.
    pub fn from_request(r: SetDateTimeRequest) -> (request: Self)
        ensures
            request.method@ == Self::method_name(),
            request.params == r,
    {
        GenericApiRequest { api_version: ApiVersion, method: "setDateTime", params: r }
    }
}

impl GenericApiRequest<SetTimeZoneRequest> {
    /// The name of the method that sets the time zone.
    pub open spec fn method_name() -> Seq<char> {
        "setTimeZone"@
    }

    /// The request that sets the time zone.
    pub fn from_request(r: SetTimeZoneRequest) -> (request: Self)
        ensures
            request.method@ == Self::method_name(),
            request.params == r,
    {
        GenericApiRequest { api_version: ApiVersion, method: "setTimeZone", params: r }
    }
}

/// An Axis camera and the credentials under which it is reached.
#[derive(Debug)]
pub struct AxisHttp {
    pub id: CameraId,
    pub host: Option<String>,
    pub username: Option<String>,
    pub password: Option<String>,
    pub timeout: u64,
}

/// The address of the interface `cgi` of the camera at `host`, with the
/// query `params`.
pub open spec fn axis_url(host: Seq<char>, cgi: Seq<char>, params: Seq<(Seq<char>, Seq<char>)>) -> Seq<
    char,
> {
    "http://"@ + host + "/axis-cgi/"@ + cgi + ".cgi?"@ + query_string(params)
}

/// The address of the port management of the camera at `host`.
pub open spec fn ports_url(host: Seq<char>) -> Seq<char> {
    "http://"@ + host + "/axis-cgi/io/portmanagement.cgi"@
}

/// The address of the general interface `cgi` of the camera at `host`.
pub open spec fn generic_url(host: Seq<char>, cgi: Seq<char>) -> Seq<char> {
    "http://"@ + host + "/axis-cgi/"@ + cgi + ".cgi"@
}

/// The port that drives the spotlight.
pub open spec fn spotlight_port() -> Seq<char> {
    "2"@
}

/// The first port named `2` among `items`, if there is one.
pub open spec fn first_spotlight_port(items: Seq<ProjectorsItem>) -> Option<ProjectorsItem>
    decreases items.len(),
{
    if items.len() == 0 {
        None
    } else if items[0].port@ == spotlight_port() {
        Some(items[0])
    } else {
        first_spotlight_port(items.drop_first())
    }
}

/// The spotlight is on where the first port named `2` is closed and closed
/// is its normal state; without such a port nothing is known.
pub open spec fn spotlight_state_of(items: Seq<ProjectorsItem>) -> Option<bool> {
    match first_spotlight_port(items) {
        Some(port) => Some(port.state.spec_enabled() && port.normal_state.spec_enabled()),
        None => None,
    }
}

/// The first position that was read as a number, if any was.
pub open spec fn first_read(positions: Seq<Option<FocusValue>>) -> Option<FocusValue>
    decreases positions.len(),
{
    if positions.len() == 0 {
        None
    } else if positions[0] is Some {
        positions[0]
    } else {
        first_read(positions.drop_first())
    }
}

impl AxisHttp {
    /// The adapter of a camera of which nothing is configured.
    pub open spec fn unconfigured(&self) -> bool {
        &&& self.id == 0
        &&& self.host is None
        &&& self.username is None
        &&& self.password is None
        &&& self.timeout == DEFAULT_TIMEOUT
    }

    /// The adapter of the camera that `r` describes.
    pub fn from_resource(r: Resource) -> (adapter: Self)
        ensures
            adapter.id == r.id,
            adapter.timeout == DEFAULT_TIMEOUT,
            match r.onvif {
                Some(o) => adapter.host == o.host && adapter.username == o.username
                    && adapter.password == o.password,
                None => adapter.host is None && adapter.username is None && adapter.password
                    is None,
            },
    {
        match r.onvif {
            Some(o) => Self {
                id: r.id,
                host: o.host,
                username: o.username,
                password: o.password,
                timeout: DEFAULT_TIMEOUT,
            },
            None => Self {
                id: r.id,
                host: None,
                username: None,
                password: None,
                timeout: DEFAULT_TIMEOUT,
            },
        }
    }

    /// The address of the interface `cgi` with the query `params`.
    pub fn get(&self, cgi: &str, params: &Vec<(&str, &str)>) -> (call: Call)
        ensures
            call.reads(axis_url(self.spec_host(), cgi@, pair_views(params@))),
    {
        let mut url = String::from_str("http://");
        url.append(self.host());
        url.append("/axis-cgi/");
        url.append(cgi);
        url.append(".cgi?");
        let query = write_query(params);
        url.append(query.as_str());
        Call::read(url)
    }

    /// The call that asks `method` of the port management.
    pub fn axis_request(&self, params: RequestParams<Vec<Port>>) -> (call: Call)
        ensures
            call.url@ == ports_url(self.spec_host()),
            call.payload matches Payload::AxisPorts(request) && request.method == params,
            call.method == Method::POST,
            call.headers matches Some(headers) && headers@ == seq![Header::JSON],
    {
        let mut url = String::from_str("http://");
        url.append(self.host());
        url.append("/axis-cgi/io/portmanagement.cgi");
        let mut headers: Vec<Header> = Vec::new();
        headers.push(Header::JSON);
        Call {
            url,
            payload: Payload::AxisPorts(ApiRequest::from_params(params)),
            method: Method::POST,
            headers: Some(headers),
        }
    }

    /// The call that hands `payload` to the general interface `cgi`.
    pub fn generic_request(&self, cgi: &str, payload: Payload) -> (call: Call)
        ensures
            call.url@ == generic_url(self.spec_host(), cgi@),
            call.payload == payload,
            call.method == Method::GET,
            call.headers matches Some(headers) && headers@ == seq![Header::JSON],
    {
        let mut url = String::from_str("http://");
        url.append(self.host());
        url.append("/axis-cgi/");
        url.append(cgi);
        url.append(".cgi");
        let mut headers: Vec<Header> = Vec::new();
        headers.push(Header::JSON);
        Call { url, payload, method: Method::GET, headers: Some(headers) }
    }

    /// The number written by the first run of digits that follows the first
    /// `=` of `input`; `None` where no digit follows it.
    pub fn parse_int(input: &str) -> (number: Option<u32>)
        requires
            first_int_fits(input@),
        ensures
            number is Some <==> first_int(input@) is Some,
            number matches Some(n) ==> first_int(input@) == Some(n as nat),
    {
        parse_first_int(input)
    }

    /// The frame rate that the camera reports in `reply`; invalid data where
    /// it names none.
    pub fn fps_from_reply(reply: &str) -> (fps: Result<FpsValue, IpCamerasError>)
        requires
            first_int_fits(reply@),
        ensures
            match first_int(reply@) {
                Some(n) => fps == Ok::<FpsValue, IpCamerasError>(n as FpsValue),
                None => fps matches Err(e) && e == (IpCamerasError::Std {
                    kind: ErrorKind::InvalidData,
                }),
            },
    {
        match Self::parse_int(reply) {
            Some(n) => Ok(n as FpsValue),
            None => Err(IpCamerasError::from_kind(ErrorKind::InvalidData)),
        }
    }

    /// Whether the camera acknowledges in `reply`: it does where the reply
    /// begins with `word`; else the data is invalid.
    pub fn acknowledged(reply: &str, word: &str) -> (answer: Result<(), IpCamerasError>)
        ensures
            answer is Ok <==> starts_with(reply@, word@),
            answer matches Err(e) ==> e == (IpCamerasError::Std { kind: ErrorKind::InvalidData }),
    {
        if has_prefix(reply, word) {
            Ok(())
        } else {
            Err(IpCamerasError::from_kind(ErrorKind::InvalidData))
        }
    }

    /// Whether the camera acknowledges a new frame rate in `reply`.
    pub fn fps_set_from_reply(reply: &str) -> (answer: Result<(), IpCamerasError>)
        ensures
            answer is Ok <==> starts_with(reply@, "OK"@),
            answer matches Err(e) ==> e == (IpCamerasError::Std { kind: ErrorKind::InvalidData }),
    {
        Self::acknowledged(reply, "OK")
    }

    /// Whether the camera acknowledges a new focus position in `reply`.
    pub fn focus_set_from_reply(reply: &str) -> (answer: Result<(), IpCamerasError>)
        ensures
            answer is Ok <==> starts_with(reply@, "ok"@),
            answer matches Err(e) ==> e == (IpCamerasError::Std { kind: ErrorKind::InvalidData }),
    {
        Self::acknowledged(reply, "ok")
    }

    /// The port that switches the spotlight on or off.
    pub fn spotlight_port(enabled: bool) -> (port: Port)
        ensures
            port.port@ == spotlight_port(),
            port.normal_state == PortState::spec_from_enabled(enabled),
            port.state == PortState::spec_from_enabled(enabled),
    {
        Port { port: "2", normal_state: PortState::from(enabled), state: PortState::from(enabled) }
    }

    /// Whether the spotlight is on, by the ports that the camera reports;
    /// not found where it reports no port named `2`.
    pub fn spotlight_state_from_reply(data: &ProjectorsData) -> (state: Result<bool, IpCamerasError>)
        ensures
            match spotlight_state_of(data.items@) {
                Some(on) => state == Ok::<bool, IpCamerasError>(on),
                None => state matches Err(e) && e == (IpCamerasError::Std {
                    kind: ErrorKind::NotFound,
                }),
            },
    {
        let mut at: usize = 0;
        assert(data.items@.skip(0) =~= data.items@);
        while at < data.items.len()
            invariant
                at <= data.items.len(),
                first_spotlight_port(data.items@) == first_spotlight_port(
                    data.items@.skip(at as int),
                ),
            decreases data.items.len() - at,
        {
            let item = &data.items[at];
            assert(data.items@.skip(at as int)[0] == data.items@[at as int]);
            if same_text(item.port.as_str(), "2") {
                return Ok(item.state.enabled() && item.normal_state.enabled());
            }
            assert(data.items@.skip(at as int).drop_first() =~= data.items@.skip(at + 1));
            at += 1;
        }
        Err(IpCamerasError::from_kind(ErrorKind::NotFound))
    }

    /// The focus positions that the document `nodes` reports, as they are
    /// written: the values of `focusPosition` on the elements
    /// `opticsSetupState`, in the order of the document.
    pub fn focus_positions(nodes: &Vec<XmlNode>) -> (positions: Vec<String>)
        ensures
            views(positions@) == element_attribute_values(
                node_views(nodes@),
                "opticsSetupState"@,
                "focusPosition"@,
            ),
    {
        collect_attribute_values(nodes, "opticsSetupState", "focusPosition")
    }

    /// The focus positions that the camera reports in `reply`, as they are
    /// written.
    pub fn focus_positions_from_reply(reply: &str) -> (positions: Vec<String>)
        ensures
            views(positions@) == element_attribute_values(
                xml_nodes(reply@),
                "opticsSetupState"@,
                "focusPosition"@,
            ),
    {
        let nodes = read_nodes(reply);
        Self::focus_positions(&nodes)
    }

    /// The focus position among those reported: the first that was read as
    /// a number; invalid data where none was.
    pub fn focus_from_positions(positions: &Vec<Option<FocusValue>>) -> (focus: Result<
        FocusValue,
        IpCamerasError,
    >)
        ensures
            match first_read(positions@) {
                Some(value) => focus == Ok::<FocusValue, IpCamerasError>(value),
                None => focus matches Err(e) && e == (IpCamerasError::Std {
                    kind: ErrorKind::InvalidData,
                }),
            },
    {
        let mut at: usize = 0;
        assert(positions@.skip(0) =~= positions@);
        while at < positions.len()
            invariant
                at <= positions.len(),
                first_read(positions@) == first_read(positions@.skip(at as int)),
            decreases positions.len() - at,
        {
            assert(positions@.skip(at as int)[0] == positions@[at as int]);
            match positions[at] {
                Some(value) => {
                    return Ok(value);
                },
                None => {},
            }
            assert(positions@.skip(at as int).drop_first() =~= positions@.skip(at + 1));
            at += 1;
        }
        Err(IpCamerasError::from_kind(ErrorKind::InvalidData))
    }

    /// What holds of `set_date_time_call` and of what it hands back.
    pub open spec fn set_date_time_call_spec(&self, date_time: Timestamp, call: Call) -> bool {
        &&& call.url@ == generic_url(self.spec_host(), "time"@)
        &&& call.payload matches Payload::AxisDateTime(request) && request.params.date_time
            == date_time && request.method@ == "setDateTime"@
        &&& call.method == Method::GET
        &&& call.headers matches Some(headers) && headers@ == seq![Header::JSON]
    }

    /// The second call of setting the clock, which sets date and time once
    /// the time zone is set.
    pub fn set_date_time_call(&self, date_time: Timestamp) -> (call: Call)
        ensures
            self.set_date_time_call_spec(date_time, call),
    {
        self.generic_request(
            "time",
            Payload::AxisDateTime(GenericApiRequest::<SetDateTimeRequest>::from_request(
                SetDateTimeRequest { date_time },
            )),
        )
    }
}

impl Default for AxisHttp {
    fn default() -> (adapter: Self)
        ensures
            adapter.unconfigured(),
    {
        Self { id: 0, host: None, username: None, password: None, timeout: DEFAULT_TIMEOUT }
    }
}

/// The query that lists the frame rate.
pub open spec fn fps_query() -> Seq<(Seq<char>, Seq<char>)> {
    seq![("action"@, "list"@), ("group"@, "Image.I0.Stream.FPS"@)]
}

/// The query that sets the frame rate to `fps`.
pub open spec fn fps_update(fps: FpsValue) -> Seq<(Seq<char>, Seq<char>)> {
    seq![("action"@, "update"@), ("Image.I0.Stream.FPS"@, decimal(fps as nat))]
}

/// The query that polls the optics.
pub open spec fn optics_poll() -> Seq<(Seq<char>, Seq<char>)> {
    seq![("monitor"@, "poll"@), ("source"@, "1"@)]
}

/// The query that moves the focus to the position written as `focus`.
pub open spec fn optics_focus(focus: Seq<char>) -> Seq<(Seq<char>, Seq<char>)> {
    seq![("afocus"@, focus), ("source"@, "1"@)]
}

impl AxisHttp {
    /// What `switch_spotlight` answers.
    pub open spec fn switch_spotlight_step(&self, enabled: bool, step: Step<()>) -> bool {
        &&& step matches Step::Ask(call) && call.url@ == ports_url(self.spec_host())
            && call.method == Method::POST && (call.headers matches Some(headers) && headers@
            == seq![Header::JSON]) && (call.payload matches Payload::AxisPorts(request)
            && (request.method matches RequestParams::SetPorts { ports } && ports@.len() == 1
            && ports@[0].port@ == spotlight_port() && ports@[0].state
            == PortState::spec_from_enabled(enabled) && ports@[0].normal_state
            == PortState::spec_from_enabled(enabled)))
    }

    /// What `get_spotlight_state` answers.
    pub open spec fn get_spotlight_state_step(&self, step: Step<bool>) -> bool {
        &&& step matches Step::Ask(call) && call.url@ == ports_url(self.spec_host())
            && call.method == Method::POST && (call.headers matches Some(headers) && headers@
            == seq![Header::JSON]) && (call.payload matches Payload::AxisPorts(request)
            && request.method is GetPorts)
    }

    /// What `get_fps` answers.
    pub open spec fn get_fps_step(&self, step: Step<FpsValue>) -> bool {
        &&& step matches Step::Ask(call) && call.reads(
            axis_url(self.spec_host(), "param"@, fps_query()),
        )
    }

    /// What `set_fps` answers.
    pub open spec fn set_fps_step(&self, fps: FpsValue, step: Step<()>) -> bool {
        &&& step matches Step::Ask(call) && call.reads(
            axis_url(self.spec_host(), "param"@, fps_update(fps)),
        )
    }

    /// What `set_date_time` answers.
    pub open spec fn set_date_time_step(&self, date_time: Timestamp, step: Step<()>) -> bool {
        &&& step matches Step::Ask(call) && call.url@ == generic_url(self.spec_host(), "time"@)
            && call.method == Method::GET && (call.headers matches Some(headers) && headers@
            == seq![Header::JSON]) && (call.payload matches Payload::AxisTimeZone(request)
            && request.params.time_zone@ == "UTC"@ && request.method@ == "setTimeZone"@)
    }

    /// What `get_focus_capabilities` answers.
    pub open spec fn get_focus_capabilities_step(&self, step: Step<FocusCapabilities>) -> bool {
        &&& step.is_done_with(FocusCapabilities::unit_scale())
    }

    /// What `get_focus_absolute` answers.
    pub open spec fn get_focus_absolute_step(&self, step: Step<FocusValue>) -> bool {
        &&& step matches Step::Ask(call) && call.reads(
            axis_url(self.spec_host(), "opticssetup"@, optics_poll()),
        )
    }

    /// What `set_focus_absolute` answers.
    pub open spec fn set_focus_absolute_step(&self, focus: Seq<char>, step: Step<()>) -> bool {
        &&& step matches Step::Ask(call) && call.reads(
            axis_url(self.spec_host(), "opticssetup"@, optics_focus(focus)),
        )
    }
}

/// The operations that the adapter carries out itself.
pub open spec fn axis_overrides(capability: Capability) -> bool {
    match capability {
        Capability::SwitchSpotlight
        | Capability::GetSpotlightState
        | Capability::GetFps
        | Capability::SetFps
        | Capability::SetDateTime
        | Capability::GetFocusCapabilities
        | Capability::GetFocusAbsolute
        | Capability::SetFocusAbsolute => true,
        _ => false,
    }
}

impl ApiHandler for AxisHttp {
    open spec fn spec_auth(&self) -> (Seq<char>, Seq<char>) {
        resolved_auth(opt_view(self.username), opt_view(self.password))
    }

    open spec fn spec_host(&self) -> Seq<char> {
        resolved_host(opt_view(self.host))
    }

    open spec fn overrides(&self, capability: Capability) -> bool {
        axis_overrides(capability)
    }

    fn auth(&self) -> (credentials: (&str, &str)) {
        resolve_auth(&self.username, &self.password)
    }

    fn host(&self) -> (address: &str) {
        resolve_host(&self.host)
    }

    fn supports(&self, capability: Capability) -> (supported: bool) {
        match capability {
            Capability::SwitchSpotlight
            | Capability::GetSpotlightState
            | Capability::GetFps
            | Capability::SetFps
            | Capability::SetDateTime
            | Capability::GetFocusCapabilities
            | Capability::GetFocusAbsolute
            | Capability::SetFocusAbsolute => true,
            _ => false,
        }
    }

    /// Asks the port management to set port 2 to the state that stands for
    /// `enabled`, as its state and as its normal state.
    fn switch_spotlight(&self, enabled: bool) -> (step: Step<()>)
        ensures
            self.switch_spotlight_step(enabled, step),
    {
        let mut ports: Vec<Port> = Vec::new();
        ports.push(Self::spotlight_port(enabled));
        Step::Ask(self.axis_request(RequestParams::SetPorts { ports }))
    }

    /// Asks the port management for its ports.
    fn get_spotlight_state(&self) -> (step: Step<bool>)
        ensures
            self.get_spotlight_state_step(step),
    {
        Step::Ask(self.axis_request(RequestParams::GetPorts))
    }

    /// Asks the parameter interface to list the frame rate.
    fn get_fps(&self) -> (step: Step<FpsValue>)
        ensures
            self.get_fps_step(step),
    {
        let mut params: Vec<(&str, &str)> = Vec::new();
        params.push(("action", "list"));
        params.push(("group", "Image.I0.Stream.FPS"));
        assert(pair_views(params@) =~= fps_query());
        Step::Ask(self.get("param", &params))
    }

    /// Asks the parameter interface to update the frame rate.
    fn set_fps(&self, fps: FpsValue) -> (step: Step<()>)
        ensures
            self.set_fps_step(fps, step),
    {
        let value = to_decimal(fps);
        let mut params: Vec<(&str, &str)> = Vec::new();
        params.push(("action", "update"));
        params.push(("Image.I0.Stream.FPS", value.as_str()));
        assert(pair_views(params@) =~= fps_update(fps));
        Step::Ask(self.get("param", &params))
    }

    /// Asks the time interface to set the time zone to UTC; date and time
    /// are set by a second call, once this one has succeeded.
    fn set_date_time(&self, date_time: Timestamp) -> (step: Step<()>)
        ensures
            self.set_date_time_step(date_time, step),
    {
        Step::Ask(
            self.generic_request(
                "time",
                Payload::AxisTimeZone(
                    GenericApiRequest::<SetTimeZoneRequest>::from_request(
                        SetTimeZoneRequest { time_zone: String::from_str("UTC") },
                    ),
                ),
            ),
        )
    }

    /// Absolute focus between 0 and 1 by thousandths.
    fn get_focus_capabilities(&self) -> (step: Step<FocusCapabilities>)
        ensures
            self.get_focus_capabilities_step(step),
    {
        Step::Done(Ok(FocusCapabilities::on_unit_scale()))
    }

    /// Polls the optics.
    fn get_focus_absolute(&self) -> (step: Step<FocusValue>)
        ensures
            self.get_focus_absolute_step(step),
    {
        let mut params: Vec<(&str, &str)> = Vec::new();
        params.push(("monitor", "poll"));
        params.push(("source", "1"));
        assert(pair_views(params@) =~= optics_poll());
        Step::Ask(self.get("opticssetup", &params))
    }

    /// Asks the optics to move the focus.
    fn set_focus_absolute(&self, focus: &str) -> (step: Step<()>)
        ensures
            self.set_focus_absolute_step(focus@, step),
    {
        let mut params: Vec<(&str, &str)> = Vec::new();
        params.push(("afocus", focus));
        params.push(("source", "1"));
        assert(pair_views(params@) =~= optics_focus(focus@));
        Step::Ask(self.get("opticssetup", &params))
    }
}

/// A spotlight state that is written as a port and read back from the ports
/// that the camera reports is the state that was written.
pub proof fn lemma_port_round_trip(enabled: bool, items: Seq<ProjectorsItem>)
    requires
        items.len() > 0,
        items[0].port@ == spotlight_port(),
        items[0].state == PortState::spec_from_enabled(enabled),
        items[0].normal_state == PortState::spec_from_enabled(enabled),
    ensures
        PortState::spec_from_enabled(true) == PortState::Closed,
        PortState::spec_from_enabled(false) == PortState::Open,
        PortState::spec_from_enabled(enabled).spec_enabled() == enabled,
        spotlight_state_of(items) == Some(enabled),
{
}

} // verus!

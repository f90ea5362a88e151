//! The adapter of Stilsoft cameras: the frame rate through ONVIF, the
//! spotlight through the web interface of the camera.

use vstd::prelude::*;
use vstd::string::StringExecFns;

use crate::domain::{opt_view, CameraId, FpsValue, OnvifParams, Resource};
use crate::error::{ErrorKind, IpCamerasError};
use crate::exchange::{Call, Payload, Step};
use crate::handler::{
    resolve_auth, resolve_host, resolved_auth, resolved_host, ApiHandler, Capability,
    DEFAULT_TIMEOUT,
};
use crate::request::Method;
use crate::text::{contains, contains_text, decimal, to_decimal};

verus! {

/// A Stilsoft camera, the credentials under which it is reached, and the
/// state in which its spotlight was last put.
#[derive(Debug)]
pub struct StilsoftHttp {
    pub id: CameraId,
    pub host: Option<String>,
    pub username: Option<String>,
    pub password: Option<String>,
    pub timeout: u64,
    pub language: u32,
    pub spotlight_state: bool,
}

/// The language in which the web interface is asked to answer.
pub const DEFAULT_LANGUAGE: u32 = 3;

/// What a search for a pattern found: the number of groups of the pattern,
/// the whole match included, and the text of the whole match.
#[derive(Debug)]
pub struct Capture {
    pub groups: usize,
    pub whole: Option<String>,
}

pub struct CaptureView {
    pub groups: nat,
    pub whole: Option<Seq<char>>,
}

impl View for Capture {
    type V = CaptureView;

    open spec fn view(&self) -> CaptureView {
        CaptureView { groups: self.groups as nat, whole: opt_view(self.whole) }
    }
}

/// What is known of a search: its match, where it found one.
pub open spec fn capture_view(found: Option<Capture>) -> Option<CaptureView> {
    match found {
        Some(capture) => Some(capture@),
        None => None,
    }
}

/// Whether `regex` accepts `pattern` as a regular expression.
pub uninterp spec fn pattern_compiles(pattern: Seq<char>) -> bool;

/// The first match of the regular expression `pattern` in `haystack`, as
/// `regex` finds it: the number of its groups and the text of group 0.
pub uninterp spec fn pattern_capture(pattern: Seq<char>, haystack: Seq<char>) -> Option<CaptureView>;

/// `regex::Regex::new` on `pattern`, then `Regex::captures` on `haystack`.
/// The first fails exactly on the patterns that are none, and its error is
/// handed on. Of the second the result is named: for a match, what
/// `Captures::len` and `Captures::get(0)` give. `regex` documents that the
/// first is above zero, since the whole match counts as a group, and that
/// the second is always there.
#[verifier::external_body]
fn search(pattern: &str, haystack: &str) -> (found: Result<Option<Capture>, regex::Error>)
    ensures
        found is Ok <==> pattern_compiles(pattern@),
        found matches Ok(capture) ==> capture_view(capture) == pattern_capture(pattern@, haystack@),
        found matches Ok(Some(capture)) ==> capture.groups > 0 && capture.whole is Some,
{
    let expression = regex::Regex::new(pattern)?;
    Ok(expression.captures(haystack).map(|c| Capture {
        groups: c.len(),
        whole: c.get(0).map(|m| m.as_str().to_string()),
    }))
}

/// The pattern that finds the identifier of the session in the answer to a
/// login: one of the two known fingerprints of the credentials.
pub open spec fn login_pattern() -> Seq<char> {
    "(YWRtaW46YWRtaW4|YWRtaW46YWRtaW43Nzc)"@
}

/// The identifier that a search of the login answer yields: the whole
/// match, or nothing where the match has no text; invalid data where
/// nothing was found, invalid input where the match has no group.
pub open spec fn login_id_of(found: Option<CaptureView>) -> Result<Seq<char>, ErrorKind> {
    match found {
        None => Err(ErrorKind::InvalidData),
        Some(capture) => if capture.groups > 0 {
            match capture.whole {
                Some(text) => Ok(text),
                None => Ok(Seq::empty()),
            }
        } else {
            Err(ErrorKind::InvalidInput)
        },
    }
}

/// The address at which the web interface takes a login.
pub open spec fn login_url(host: Seq<char>) -> Seq<char> {
    "http://"@ + host + "/goform/setLoginParam"@
}

/// The login form.
pub open spec fn login_form(user: Seq<char>, password: Seq<char>, language: u32) -> Seq<char> {
    "user="@ + user + "&password="@ + password + "&language="@ + decimal(language as nat)
}

/// The value that selects the image profile of a spotlight that is on (2)
/// or off (1).
pub open spec fn profile_value(enabled: bool) -> Seq<char> {
    if enabled {
        "2"@
    } else {
        "1"@
    }
}

/// The address that selects the image profile for the session `web_id`.
pub open spec fn profile_url(host: Seq<char>, web_id: Seq<char>, enabled: bool) -> Seq<char> {
    "http://"@ + host + "/ajax/image_profile?id="@ + web_id + "&value="@ + profile_value(enabled)
}

impl StilsoftHttp {
    /// The adapter of a camera of which nothing is configured.
    pub open spec fn unconfigured(&self) -> bool {
        &&& self.id == 0
        &&& self.host is None
        &&& self.username is None
        &&& self.password is None
        &&& self.timeout == DEFAULT_TIMEOUT
        &&& self.language == DEFAULT_LANGUAGE
        &&& !self.spotlight_state
    }

    /// The adapter of the camera that `r` describes.
    pub fn from_resource(r: Resource) -> (adapter: Self)
        ensures
            adapter.id == r.id,
            adapter.timeout == DEFAULT_TIMEOUT,
            adapter.language == DEFAULT_LANGUAGE,
            !adapter.spotlight_state,
            match r.onvif {
                Some(o) => adapter.host == o.host && adapter.username == o.username
                    && adapter.password == o.password,
                None => adapter.host is None && adapter.username is None && adapter.password
                    is None,
            },
    {
        match r.onvif {
            Some(o) => Self {
                id: r.id,
                host: o.host,
                username: o.username,
                password: o.password,
                timeout: DEFAULT_TIMEOUT,
                language: DEFAULT_LANGUAGE,
                spotlight_state: false,
            },
            None => Self {
                id: r.id,
                host: None,
                username: None,
                password: None,
                timeout: DEFAULT_TIMEOUT,
                language: DEFAULT_LANGUAGE,
                spotlight_state: false,
            },
        }
    }

    /// The parameters with which the ONVIF client reaches the camera: those
    /// that are configured, as they are.
    pub fn init_onvif(&self) -> (params: OnvifParams)
        ensures
            opt_view(params.host) == opt_view(self.host),
            opt_view(params.username) == opt_view(self.username),
            opt_view(params.password) == opt_view(self.password),
    {
        OnvifParams {
            host: copy_text(&self.host),
            username: copy_text(&self.username),
            password: copy_text(&self.password),
        }
    }

    /// The identifier of the session that a search of the login answer
    /// yields.
    pub fn login_id(found: Option<Capture>) -> (id: Result<String, IpCamerasError>)
        ensures
            match login_id_of(capture_view(found)) {
                Ok(text) => id matches Ok(web_id) && web_id@ == text,
                Err(kind) => id matches Err(e) && e == (IpCamerasError::Std { kind }),
            },
    {
        match found {
            None => Err(IpCamerasError::from_kind(ErrorKind::InvalidData)),
            Some(capture) => {
                if capture.groups > 0 {
                    match capture.whole {
                        Some(text) => Ok(text),
                        None => {
                            let nothing = String::new();
                            Ok(nothing)
                        },
                    }
                } else {
                    Err(IpCamerasError::from_kind(ErrorKind::InvalidInput))
                }
            },
        }
    }

    /// The identifier of the session that the camera names in its answer to
    /// the login. It is the text that the pattern matches; an answer in
    /// which the pattern matches nothing is invalid data, and no other
    /// failure comes of an answer.
    pub fn get_id_from_reply(response: &str) -> (id: Result<String, IpCamerasError>)
        ensures
            !pattern_compiles(login_pattern()) ==> (id matches Err(e) && e is Regex),
            pattern_compiles(login_pattern()) ==> match login_id_of(
                pattern_capture(login_pattern(), response@),
            ) {
                Ok(text) => id matches Ok(web_id) && web_id@ == text,
                Err(kind) => id matches Err(e) && e == (IpCamerasError::Std { kind }),
            },
            pattern_compiles(login_pattern()) ==> match pattern_capture(
                login_pattern(),
                response@,
            ) {
                Some(capture) => id matches Ok(web_id) && Some(web_id@) == capture.whole,
                None => id matches Err(e) && e == (IpCamerasError::Std {
                    kind: ErrorKind::InvalidData,
                }),
            },
    {
        match search("(YWRtaW46YWRtaW4|YWRtaW46YWRtaW43Nzc)", response) {
            Ok(found) => Self::login_id(found),
            Err(source) => Err(IpCamerasError::from_regex(source)),
        }
    }

    /// The call that logs in to the web interface.
    pub fn login_call(&self) -> (call: Call)
        ensures
            call.url@ == login_url(self.spec_host()),
            call.payload matches Payload::Text(form) && form@ == login_form(
                self.spec_auth().0,
                self.spec_auth().1,
                self.language,
            ),
            call.method == Method::POST,
            call.headers is None,
    {
        let mut url = String::from_str("http://");
        url.append(self.host());
        url.append("/goform/setLoginParam");
        let (user, password) = self.auth();
        let mut form = String::from_str("user=");
        form.append(user);
        form.append("&password=");
        form.append(password);
        form.append("&language=");
        let language = to_decimal(self.language as u64);
        form.append(language.as_str());
        Call { url, payload: Payload::Text(form), method: Method::POST, headers: None }
    }

    /// The call that selects the image profile of a spotlight that is on or
    /// off, for the session `web_id`.
    pub fn profile_call(&self, web_id: &str, enabled: bool) -> (call: Call)
        ensures
            call.reads(profile_url(self.spec_host(), web_id@, enabled)),
    {
        let mut url = String::from_str("http://");
        url.append(self.host());
        url.append("/ajax/image_profile?id=");
        url.append(web_id);
        url.append("&value=");
        url.append(
            if enabled {
                "2"
            } else {
                "1"
            },
        );
        Call::read(url)
    }

    /// What holds of `after_login` and of what it hands back.
    pub open spec fn after_login_spec(&self, response: Seq<char>, enabled: bool, step: Step<()>) -> bool {
        &&& !pattern_compiles(login_pattern()) ==> (step matches Step::Done(Err(e)) && e is Regex)
        &&& pattern_compiles(login_pattern()) ==> match login_id_of(
            pattern_capture(login_pattern(), response),
        ) {
            Ok(web_id) => step matches Step::Ask(call) && call.reads(
                profile_url(self.spec_host(), web_id, enabled),
            ),
            Err(kind) => step matches Step::Done(Err(e)) && e == (IpCamerasError::Std {
                kind,
            }),
        }
    }

    /// What follows the answer to the login: the call that selects the
    /// image profile, or the failure to find the session in the answer.
    pub fn after_login(&self, response: &str, enabled: bool) -> (step: Step<()>)
        ensures
            self.after_login_spec(response@, enabled, step),
    {
        match Self::get_id_from_reply(response) {
            Ok(web_id) => Step::Ask(self.profile_call(web_id.as_str(), enabled)),
            Err(e) => Step::Done(Err(e)),
        }
    }

    /// What holds of `finish_switch` and of what it hands back.
    pub open spec fn finish_switch_spec(&self, before: &Self, response: Seq<char>, enabled: bool, answer: Result<(), IpCamerasError>) -> bool {
        &&& contains(response, "Success"@) ==> answer is Ok && *self == (StilsoftHttp {
            spotlight_state: enabled,
            ..*before
        })
        &&& !contains(response, "Success"@) ==> (answer matches Err(e) && e is Spotlight)
            && *self == *before
    }

    /// Ends the switch of the spotlight by the answer to the selection of
    /// the image profile. Where the answer holds `Success`, the state of
    /// the spotlight is remembered as `enabled` and the switch succeeds;
    /// else the remembered state stays and the switch fails as a spotlight
    /// failure.
    pub fn finish_switch(&mut self, response: &str, enabled: bool) -> (answer: Result<
        (),
        IpCamerasError,
    >)
        ensures
            final(self).finish_switch_spec(old(self), response@, enabled, answer),
    {
        if contains_text(response, "Success") {
            self.spotlight_state = enabled;
            Ok(())
        } else {
            Err(IpCamerasError::Spotlight)
        }
    }
}

/// A copy of an optional text.
fn copy_text(text: &Option<String>) -> (copy: Option<String>)
    ensures
        opt_view(copy) == opt_view(*text),
{
    match text {
        Some(t) => Some(t.clone()),
        None => None,
    }
}

impl Default for StilsoftHttp {
    fn default() -> (adapter: Self)
        ensures
            adapter.unconfigured(),
    {
        Self {
            id: 0,
            host: None,
            username: None,
            password: None,
            timeout: DEFAULT_TIMEOUT,
            language: DEFAULT_LANGUAGE,
            spotlight_state: false,
        }
    }
}

impl StilsoftHttp {
    /// What `get_fps` answers.
    pub open spec fn get_fps_step(&self, step: Step<FpsValue>) -> bool {
        &&& step matches Step::Onvif(params) && opt_view(params.host) == opt_view(self.host)
            && opt_view(params.username) == opt_view(self.username) && opt_view(
            params.password,
        ) == opt_view(self.password)
    }

    /// What `set_fps` answers.
    pub open spec fn set_fps_step(&self, fps: FpsValue, step: Step<()>) -> bool {
        &&& step matches Step::Onvif(params) && opt_view(params.host) == opt_view(self.host)
            && opt_view(params.username) == opt_view(self.username) && opt_view(
            params.password,
        ) == opt_view(self.password)
    }

    /// What `get_spotlight_state` answers.
    pub open spec fn get_spotlight_state_step(&self, step: Step<bool>) -> bool {
        &&& step.is_done_with(self.spotlight_state)
    }

    /// What `switch_spotlight` answers.
    pub open spec fn switch_spotlight_step(&self, enabled: bool, step: Step<()>) -> bool {
        &&& step matches Step::Ask(call) && call.url@ == login_url(self.spec_host()) && (
        call.payload matches Payload::Text(form) && form@ == login_form(
            self.spec_auth().0,
            self.spec_auth().1,
            self.language,
        )) && call.method == Method::POST && call.headers is None
    }
}

/// The operations that the adapter carries out itself.
pub open spec fn stilsoft_overrides(capability: Capability) -> bool {
    match capability {
        Capability::GetFps
        | Capability::SetFps
        | Capability::GetSpotlightState
        | Capability::SwitchSpotlight => true,
        _ => false,
    }
}

impl ApiHandler for StilsoftHttp {
    open spec fn spec_auth(&self) -> (Seq<char>, Seq<char>) {
        resolved_auth(opt_view(self.username), opt_view(self.password))
    }

    open spec fn spec_host(&self) -> Seq<char> {
        resolved_host(opt_view(self.host))
    }

    open spec fn overrides(&self, capability: Capability) -> bool {
        stilsoft_overrides(capability)
    }

    fn auth(&self) -> (credentials: (&str, &str)) {
        resolve_auth(&self.username, &self.password)
    }

    fn host(&self) -> (address: &str) {
        resolve_host(&self.host)
    }

    fn supports(&self, capability: Capability) -> (supported: bool) {
        match capability {
            Capability::GetFps
            | Capability::SetFps
            | Capability::GetSpotlightState
            | Capability::SwitchSpotlight => true,
            _ => false,
        }
    }

    /// Hands the reading of the frame rate to the ONVIF client.
    fn get_fps(&self) -> (step: Step<FpsValue>)
        ensures
            self.get_fps_step(step),
    {
        Step::Onvif(self.init_onvif())
    }

    /// Hands the setting of the frame rate to the ONVIF client.
    fn set_fps(&self, fps: FpsValue) -> (step: Step<()>)
        ensures
            self.set_fps_step(fps, step),
    {
        Step::Onvif(self.init_onvif())
    }

    /// The state in which the spotlight was last put; the camera is not
    /// asked.
    fn get_spotlight_state(&self) -> (step: Step<bool>)
        ensures
            self.get_spotlight_state_step(step),
    {
        Step::Done(Ok(self.spotlight_state))
    }

    /// Logs in to the web interface; the switch goes on with `after_login`
    /// and ends with `finish_switch`.
    fn switch_spotlight(&self, enabled: bool) -> (step: Step<()>)
        ensures
            self.switch_spotlight_step(enabled, step),
    {
        Step::Ask(self.login_call())
    }
}

} // verus!

//! The adapter of Dahua cameras: plain requests to the configuration manager.

use vstd::prelude::*;
use vstd::string::StrSliceExecFns;
use vstd::string::StringExecFns;

use crate::clock::Timestamp;
use crate::domain::{opt_view, CameraId, FpsValue, Resource};
use crate::error::{ErrorKind, IpCamerasError};
use crate::exchange::{Call, Payload, Step};
use crate::focus::{FocusCapabilities, FocusValue};
use crate::handler::{
    resolve_auth, resolve_host, resolved_auth, resolved_host, ApiHandler, Capability,
    DEFAULT_TIMEOUT,
};
use crate::request::Method;
use crate::text::{
    contains, contains_text, find_equals, first_int, first_int_fits, from_first, key_value,
    line_bounds, lines, cut, pair_views, parse_first_int, query_string, range_is, tail_from,
    to_chars, views, write_query, first_int_in_range, lemma_views_push,
};

verus! {

/// How the alarm output that drives an external spotlight is switched.
#[derive(Debug, Clone, Copy, PartialEq, Eq, Structural)]
pub enum AlarmMode {
    Automatic,
    ForceOn,
    ForceOff,
}

impl AlarmMode {
    /// The number that the camera knows the mode by.
    pub open spec fn spec_code(self) -> u8 {
        match self {
            AlarmMode::Automatic => 0,
            AlarmMode::ForceOn => 1,
            AlarmMode::ForceOff => 2,
        }
    }

    pub fn code(self) -> (code: u8)
        ensures
            code == self.spec_code(),
    {
        match self {
            AlarmMode::Automatic => 0,
            AlarmMode::ForceOn => 1,
            AlarmMode::ForceOff => 2,
        }
    }
}

impl Default for AlarmMode {
    fn default() -> (mode: Self)
        ensures
            mode == AlarmMode::Automatic,
    {
        AlarmMode::Automatic
    }
}

/// The name of the alarm output; it is always written as `Noname`.
#[derive(Debug, Clone, Copy, PartialEq, Eq, Structural)]
pub struct AlarmName;

impl AlarmName {
    pub open spec fn spec_text() -> Seq<char> {
        "Noname"@
    }

    pub fn text(&self) -> (text: &'static str)
        ensures
            text@ == Self::spec_text(),
    {
        "Noname"
    }
}

/// The alarm output that drives an external spotlight.
#[derive(Debug, Clone, Copy, PartialEq, Eq, Structural)]
pub struct ExternalSpotlight {
    pub alarm_mode: AlarmMode,
    pub alarm_name: AlarmName,
}

impl ExternalSpotlight {
    /// The output of a spotlight that is on or off.
    pub open spec fn spec_from_enabled(enabled: bool) -> ExternalSpotlight {
        ExternalSpotlight {
            alarm_mode: if enabled {
                AlarmMode::ForceOn
            } else {
                AlarmMode::Automatic
            },
            alarm_name: AlarmName,
        }
    }

    pub fn enabled() -> (output: Self)
        ensures
            output == Self::spec_from_enabled(true),
    {
        Self { alarm_mode: AlarmMode::ForceOn, alarm_name: AlarmName }
    }

    pub fn disabled() -> (output: Self)
        ensures
            output == Self::spec_from_enabled(false),
    {
        Self { alarm_mode: AlarmMode::Automatic, alarm_name: AlarmName }
    }
}

impl From<bool> for ExternalSpotlight {
    fn from(value: bool) -> (output: ExternalSpotlight) {
        match value {
            true => Self::enabled(),
            _ => Self::disabled(),
        }
    }
}

impl vstd::std_specs::convert::FromSpecImpl<bool> for ExternalSpotlight {
    open spec fn obeys_from_spec() -> bool {
        true
    }

    open spec fn from_spec(value: bool) -> ExternalSpotlight {
        ExternalSpotlight::spec_from_enabled(value)
    }
}

/// Settings that are written to the camera; only those that are set are
/// written.
#[derive(Debug, Clone, Copy, PartialEq, Eq, Structural)]
pub struct Config {
    pub spotlight: Option<bool>,
    pub brightness: Option<u8>,
    pub fps: Option<FpsValue>,
    pub external_spotlight: Option<ExternalSpotlight>,
}

impl Config {
    /// The settings of which none is set.
    pub open spec fn unset() -> Config {
        Config { spotlight: None, brightness: None, fps: None, external_spotlight: None }
    }
}

impl Default for Config {
    fn default() -> (config: Self)
        ensures
            config == Config::unset(),
    {
        Config { spotlight: None, brightness: None, fps: None, external_spotlight: None }
    }
}

/// How often the focus status is polled before the camera is given up.
pub const RETRIES: usize = 5;

/// The milliseconds between two polls of the focus status.
pub const INTERVAL: u64 = 400;

/// A Dahua camera and the credentials under which it is reached.
#[derive(Debug)]
pub struct DahuaHttp {
    pub id: CameraId,
    pub host: Option<String>,
    pub username: Option<String>,
    pub password: Option<String>,
    pub timeout: u64,
}

/// The address of the interface `cgi` of the camera at `host`, with the
/// query `params`.
pub open spec fn dahua_url(host: Seq<char>, cgi: Seq<char>, params: Seq<(Seq<char>, Seq<char>)>) -> Seq<
    char,
> {
    "http://"@ + host + "/cgi-bin/"@ + cgi + ".cgi?"@ + query_string(params)
}

/// The address at which the configuration named `key` is read.
pub open spec fn get_config_url(host: Seq<char>, key: Seq<char>) -> Seq<char> {
    "http://"@ + host + "/cgi-bin/configManager.cgi?action=getConfig&name="@ + key
}

/// The address at which settings are written; the settings follow it.
pub open spec fn set_config_url(host: Seq<char>) -> Seq<char> {
    "http://"@ + host + "/cgi-bin/configManager.cgi?action=setConfig&"@
}

/// The name under which the camera reports its frame rate.
pub open spec fn fps_key() -> Seq<char> {
    "Encode[0].MainFormat[0].Video.FPS"@
}

/// The frame rate that a configuration dump reports: the number written by
/// the first run of digits after the first `=` that follows the first place
/// at which the name of the frame rate stands.
pub open spec fn reported_fps(dump: Seq<char>) -> Option<nat> {
    match from_first(dump, fps_key()) {
        Some(rest) => first_int(rest),
        None => None,
    }
}

/// The frame rate that `dump` reports, where it reports one, fits in 32
/// bits.
pub open spec fn reported_fps_fits(dump: Seq<char>) -> bool {
    match from_first(dump, fps_key()) {
        Some(rest) => first_int_fits(rest),
        None => true,
    }
}

/// What a configuration dump says of the spotlight: off where it holds
/// mode 0 of the first alarm output, else on where it holds mode 1.
pub open spec fn reported_spotlight(dump: Seq<char>) -> Option<bool> {
    if contains(dump, "table.AlarmOut[0].Mode=0"@) {
        Some(false)
    } else if contains(dump, "table.AlarmOut[0].Mode=1"@) {
        Some(true)
    } else {
        None
    }
}

/// The pattern under which the clock is written into an address.
pub open spec fn clock_pattern() -> Seq<char> {
    "%F%%20%T"@
}

/// The query that sets the clock to the time written as `time`.
pub open spec fn clock_query(time: Seq<char>) -> Seq<(Seq<char>, Seq<char>)> {
    seq![("action"@, "setCurrentTime"@), ("time"@, time)]
}

/// The query that asks for the focus status.
pub open spec fn focus_status_query() -> Seq<(Seq<char>, Seq<char>)> {
    seq![("action"@, "getFocusStatus"@)]
}

/// The query that moves the focus to the position written as `focus`.
pub open spec fn adjust_focus_query(focus: Seq<char>) -> Seq<(Seq<char>, Seq<char>)> {
    seq![("action"@, "adjustFocus"@), ("focus"@, focus), ("zoom"@, "0.0"@)]
}

/// The focus positions that the lines of a status report name, as they are
/// written: the values of the lines `status.Focus=...`, in their order.
pub open spec fn focus_positions(report: Seq<Seq<char>>) -> Seq<Seq<char>>
    decreases report.len(),
{
    if report.len() == 0 {
        seq![]
    } else {
        let before = focus_positions(report.drop_last());
        match key_value(report.last()) {
            Some((key, value)) => if key == "status.Focus"@ {
                before.push(value)
            } else {
                before
            },
            None => before,
        }
    }
}

/// A line of the report is `status.Status=Normal`.
pub open spec fn reports_normal(report: Seq<Seq<char>>) -> bool
    decreases report.len(),
{
    if report.len() == 0 {
        false
    } else {
        reports_normal(report.drop_last()) || key_value(report.last()) == Some(
            ("status.Status"@, "Normal"@),
        )
    }
}

/// What one report of the focus status says: the positions it names, as
/// they are written, and whether it reports the status as normal.
#[derive(Debug)]
pub struct FocusStatus {
    pub positions: Vec<String>,
    pub normal: bool,
}

/// What one poll of the focus status amounts to.
#[derive(Debug, Clone, Copy, PartialEq, Eq, Structural)]
pub enum PollVerdict {
    /// The report names a position and the status is normal.
    Ready(FocusValue),
    /// The report does not yet name a position under a normal status.
    Pending,
    /// The report names a position that is no number.
    Invalid,
}

/// The verdict on a report whose positions were read as `positions`, `None`
/// standing for one that is no number: invalid where any is none; else
/// ready with the last position where there is one and the status is
/// normal; else pending.
pub open spec fn verdict_of(positions: Seq<Option<FocusValue>>, normal: bool) -> PollVerdict {
    if exists|i: int| 0 <= i < positions.len() && positions[i] is None {
        PollVerdict::Invalid
    } else if positions.len() > 0 && normal {
        PollVerdict::Ready(positions.last()->0)
    } else {
        PollVerdict::Pending
    }
}

/// Judges one report of the focus status.
pub fn judge(positions: &Vec<Option<FocusValue>>, normal: bool) -> (verdict: PollVerdict)
    ensures
        verdict == verdict_of(positions@, normal),
{
    let mut last: Option<FocusValue> = None;
    let mut at: usize = 0;
    while at < positions.len()
        invariant
            at <= positions.len(),
            forall|i: int| 0 <= i < at ==> positions@[i] is Some,
            at == 0 ==> last is None,
            at > 0 ==> last == positions@[at - 1],
        decreases positions.len() - at,
    {
        match positions[at] {
            Some(value) => {
                last = Some(value);
            },
            None => {
                return PollVerdict::Invalid;
            },
        }
        at += 1;
    }
    match last {
        Some(value) => if normal {
            PollVerdict::Ready(value)
        } else {
            PollVerdict::Pending
        },
        None => PollVerdict::Pending,
    }
}

/// What follows a poll.
#[derive(Debug, Clone, Copy, PartialEq, Eq, Structural)]
pub enum PollTurn {
    /// The reading ends: with a position, or, for `None`, with invalid
    /// data.
    Answer(Option<FocusValue>),
    /// The reading pauses before it goes on.
    Sleep,
}

/// What follows a poll with the given verdict.
pub open spec fn turn_after(verdict: PollVerdict) -> PollTurn {
    match verdict {
        PollVerdict::Ready(value) => PollTurn::Answer(Some(value)),
        PollVerdict::Invalid => PollTurn::Answer(None),
        PollVerdict::Pending => PollTurn::Sleep,
    }
}

/// What reading the focus comes to when `made` polls have been made and the
/// polls are judged as `verdicts`, the first poll by `verdicts[0]`: the
/// number of polls made in all, and the position read, `None` standing for
/// invalid data.
pub open spec fn poll_run(verdicts: Seq<PollVerdict>, made: nat) -> (nat, Option<FocusValue>)
    decreases RETRIES - made,
{
    if made == 0 || made > verdicts.len() {
        (made, None)
    } else {
        match turn_after(verdicts[made - 1]) {
            PollTurn::Answer(answer) => (made, answer),
            PollTurn::Sleep => if made < RETRIES {
                poll_run(verdicts, made + 1)
            } else {
                (made, None)
            },
        }
    }
}

/// The progress of reading the focus: the number of polls made.
#[derive(Debug, Clone, Copy, PartialEq, Eq, Structural)]
pub struct FocusPoll {
    pub made: usize,
}

/// What the reader of the focus does after a poll.
#[derive(Debug)]
pub enum PollStep {
    /// The reading is over, with this answer.
    Done(Result<FocusValue, IpCamerasError>),
    /// The reader sleeps for so many milliseconds and then goes on.
    Sleep(u64),
}

impl FocusPoll {
    /// The progress when the first poll has been made.
    pub fn first() -> (poll: Self)
        ensures
            poll.made == 1,
    {
        FocusPoll { made: 1 }
    }

    /// What holds of `after_poll` and of what it hands back.
    pub open spec fn after_poll_spec(&self, verdict: PollVerdict, step: PollStep) -> bool {
        &&& match turn_after(verdict) {
            PollTurn::Answer(Some(value)) => step == PollStep::Done(
                Ok::<FocusValue, IpCamerasError>(value),
            ),
            PollTurn::Answer(None) => step matches PollStep::Done(Err(e)) && e == (
            IpCamerasError::Std { kind: ErrorKind::InvalidData }),
            PollTurn::Sleep => step == PollStep::Sleep(INTERVAL),
        }
    }

    /// What follows a poll that was answered and judged `verdict`: the
    /// position where it is ready, invalid data where it is invalid, and a
    /// pause of 400 milliseconds where it is pending.
    pub fn after_poll(&self, verdict: PollVerdict) -> (step: PollStep)
        ensures
            self.after_poll_spec(verdict, step),
    {
        match verdict {
            PollVerdict::Ready(value) => PollStep::Done(Ok(value)),
            PollVerdict::Invalid => PollStep::Done(
                Err(IpCamerasError::from_kind(ErrorKind::InvalidData)),
            ),
            PollVerdict::Pending => PollStep::Sleep(INTERVAL),
        }
    }

    /// What follows a poll that the transport failed: the reading ends with
    /// that failure.
    pub fn after_failure(&self, failure: IpCamerasError) -> (step: PollStep)
        ensures
            step == PollStep::Done(Err::<FocusValue, IpCamerasError>(failure)),
    {
        PollStep::Done(Err(failure))
    }

    /// What holds of `after_sleep` and of what it hands back.
    pub open spec fn after_sleep_spec(&self, before: &Self, camera: &DahuaHttp, step: Step<FocusValue>) -> bool {
        &&& before.made < RETRIES ==> self.made == before.made + 1 && (
        step matches Step::Ask(call) && call.reads(
            dahua_url(camera.spec_host(), "devVideoInput"@, focus_status_query()),
        ))
        &&& before.made >= RETRIES ==> self.made == before.made && (
        step matches Step::Done(Err(e)) && e == (IpCamerasError::Std {
            kind: ErrorKind::InvalidData,
        }))
    }

    /// What follows a pause: one more poll while fewer than five have been
    /// made; after the fifth, the reading ends with invalid data.
    pub fn after_sleep(&mut self, camera: &DahuaHttp) -> (step: Step<FocusValue>)
        ensures
            final(self).after_sleep_spec(old(self), camera, step),
    {
        if self.made < RETRIES {
            self.made = self.made + 1;
            camera.get_focus_absolute()
        } else {
            Step::Done(Err(IpCamerasError::from_kind(ErrorKind::InvalidData)))
        }
    }
}

/// Reading the focus makes exactly as many polls as it takes to find the
/// first report that is ready, where that is among the first five and all
/// before it are pending, and answers with the position of that report.
pub proof fn lemma_poll_until_ready(verdicts: Seq<PollVerdict>, ready_at: nat, value: FocusValue)
    requires
        ready_at < RETRIES,
        ready_at < verdicts.len(),
        forall|k: int| 0 <= k < ready_at ==> verdicts[k] == PollVerdict::Pending,
        verdicts[ready_at as int] == PollVerdict::Ready(value),
    ensures
        poll_run(verdicts, 1) == ((ready_at + 1) as nat, Some(value)),
{
    lemma_poll_run_from(verdicts, 1, ready_at, value);
}

proof fn lemma_poll_run_from(verdicts: Seq<PollVerdict>, made: nat, ready_at: nat, value: FocusValue)
    requires
        1 <= made <= ready_at + 1,
        ready_at < RETRIES,
        ready_at < verdicts.len(),
        forall|k: int| 0 <= k < ready_at ==> verdicts[k] == PollVerdict::Pending,
        verdicts[ready_at as int] == PollVerdict::Ready(value),
    ensures
        poll_run(verdicts, made) == ((ready_at + 1) as nat, Some(value)),
    decreases ready_at + 1 - made,
{
    if made < ready_at + 1 {
        lemma_poll_run_from(verdicts, made + 1, ready_at, value);
    }
}

/// Reading the focus from a camera whose first five reports are all pending
/// makes exactly five polls and ends with invalid data.
pub proof fn lemma_poll_gives_up(verdicts: Seq<PollVerdict>)
    requires
        verdicts.len() >= RETRIES,
        forall|k: int| 0 <= k < RETRIES ==> verdicts[k] == PollVerdict::Pending,
    ensures
        poll_run(verdicts, 1) == (RETRIES as nat, None::<FocusValue>),
{
    lemma_poll_pending_from(verdicts, 1);
}

proof fn lemma_poll_pending_from(verdicts: Seq<PollVerdict>, made: nat)
    requires
        1 <= made <= RETRIES,
        verdicts.len() >= RETRIES,
        forall|k: int| 0 <= k < RETRIES ==> verdicts[k] == PollVerdict::Pending,
    ensures
        poll_run(verdicts, made) == (RETRIES as nat, None::<FocusValue>),
    decreases RETRIES - made,
{
    if made < RETRIES {
        lemma_poll_pending_from(verdicts, made + 1);
    }
}

impl DahuaHttp {
    /// The adapter of a camera of which nothing is configured.
    pub open spec fn unconfigured(&self) -> bool {
        &&& self.id == 0
        &&& self.host is None
        &&& self.username is None
        &&& self.password is None
        &&& self.timeout == DEFAULT_TIMEOUT
    }

    /// The adapter of the camera that `r` describes.
    pub fn from_resource(r: Resource) -> (adapter: Self)
        ensures
            adapter.id == r.id,
            adapter.timeout == DEFAULT_TIMEOUT,
            match r.onvif {
                Some(o) => adapter.host == o.host && adapter.username == o.username
                    && adapter.password == o.password,
                None => adapter.host is None && adapter.username is None && adapter.password
                    is None,
            },
    {
        match r.onvif {
            Some(o) => Self {
                id: r.id,
                host: o.host,
                username: o.username,
                password: o.password,
                timeout: DEFAULT_TIMEOUT,
            },
            None => Self {
                id: r.id,
                host: None,
                username: None,
                password: None,
                timeout: DEFAULT_TIMEOUT,
            },
        }
    }

    /// The call to the interface `cgi` with the query `params`.
    pub fn get(&self, cgi: &str, params: &Vec<(&str, &str)>) -> (call: Call)
        ensures
            call.reads(dahua_url(self.spec_host(), cgi@, pair_views(params@))),
    {
        let mut url = String::from_str("http://");
        url.append(self.host());
        url.append("/cgi-bin/");
        url.append(cgi);
        url.append(".cgi?");
        let query = write_query(params);
        url.append(query.as_str());
        Call::read(url)
    }

    /// The call that reads the configuration named `key`.
    pub fn get_config(&self, key: &str) -> (call: Call)
        ensures
            call.reads(get_config_url(self.spec_host(), key@)),
    {
        let mut url = String::from_str("http://");
        url.append(self.host());
        url.append("/cgi-bin/configManager.cgi?action=getConfig&name=");
        url.append(key);
        Call::read(url)
    }

    /// The call that writes the settings of `config` that are set.
    pub fn set_config(&self, config: Config) -> (call: Call)
        ensures
            call.url@ == set_config_url(self.spec_host()),
            call.payload == Payload::DahuaConfig(config),
            call.method == Method::GET,
            call.headers is None,
    {
        let mut url = String::from_str("http://");
        url.append(self.host());
        url.append("/cgi-bin/configManager.cgi?action=setConfig&");
        Call { url, payload: Payload::DahuaConfig(config), method: Method::GET, headers: None }
    }

    /// Whether the camera acknowledges new settings in `reply`: it does
    /// where the reply holds `OK`; else the input is invalid.
    pub fn config_set_from_reply(reply: &str) -> (answer: Result<(), IpCamerasError>)
        ensures
            answer is Ok <==> contains(reply@, "OK"@),
            answer matches Err(e) ==> e == (IpCamerasError::Std { kind: ErrorKind::InvalidInput }),
    {
        if contains_text(reply, "OK") {
            Ok(())
        } else {
            Err(IpCamerasError::from_kind(ErrorKind::InvalidInput))
        }
    }

    /// Whether the frame rate that `input` reports, where it reports one,
    /// fits in 32 bits.
    pub fn output_in_range(input: &str) -> (fits: bool)
        ensures
            fits == reported_fps_fits(input@),
    {
        match tail_from(input, "Encode[0].MainFormat[0].Video.FPS") {
            Some(rest) => first_int_in_range(rest.as_str()),
            None => true,
        }
    }

    /// The frame rate that the configuration dump `input` reports; `None`
    /// where it reports none.
    pub fn parse_output(input: &str) -> (number: Option<u32>)
        requires
            reported_fps_fits(input@),
        ensures
            number is Some <==> reported_fps(input@) is Some,
            number matches Some(n) ==> reported_fps(input@) == Some(n as nat),
    {
        match tail_from(input, "Encode[0].MainFormat[0].Video.FPS") {
            Some(rest) => parse_first_int(rest.as_str()),
            None => None,
        }
    }

    /// The frame rate that the camera reports in `reply`; a frame rate
    /// failure where it reports none.
    pub fn fps_from_reply(reply: &str) -> (fps: Result<FpsValue, IpCamerasError>)
        requires
            reported_fps_fits(reply@),
        ensures
            match reported_fps(reply@) {
                Some(n) => fps == Ok::<FpsValue, IpCamerasError>(n as FpsValue),
                None => fps matches Err(e) && e is Fps,
            },
    {
        match Self::parse_output(reply) {
            Some(n) => Ok(n as FpsValue),
            None => Err(IpCamerasError::Fps),
        }
    }

    /// Whether the spotlight is on, by the dump of the alarm outputs;
    /// invalid input where the dump holds neither mode.
    pub fn spotlight_state_from_reply(reply: &str) -> (state: Result<bool, IpCamerasError>)
        ensures
            match reported_spotlight(reply@) {
                Some(on) => state == Ok::<bool, IpCamerasError>(on),
                None => state matches Err(e) && e == (IpCamerasError::Std {
                    kind: ErrorKind::InvalidInput,
                }),
            },
    {
        if contains_text(reply, "table.AlarmOut[0].Mode=0") {
            Ok(false)
        } else if contains_text(reply, "table.AlarmOut[0].Mode=1") {
            Ok(true)
        } else {
            Err(IpCamerasError::from_kind(ErrorKind::InvalidInput))
        }
    }

    /// The call that sets the clock to the time written as `time`.
    pub fn set_clock_call(&self, time: &str) -> (call: Call)
        ensures
            call.reads(dahua_url(self.spec_host(), "global"@, clock_query(time@))),
    {
        let mut params: Vec<(&str, &str)> = Vec::new();
        params.push(("action", "setCurrentTime"));
        params.push(("time", time));
        assert(pair_views(params@) =~= clock_query(time@));
        self.get("global", &params)
    }

    /// What one report of the focus status says.
    pub fn read_focus_status(output: &str) -> (status: FocusStatus)
        ensures
            views(status.positions@) == focus_positions(lines(output@)),
            status.normal == reports_normal(lines(output@)),
    {
        let chars = to_chars(output);
        let bounds = line_bounds(&chars);
        let ghost report = lines(output@);
        let mut positions: Vec<String> = Vec::new();
        let mut normal = false;
        let mut at: usize = 0;
        proof {
            assert(report.take(0) =~= seq![]);
            assert(views(positions@) =~= seq![]);
            reveal_strlit("status.Focus");
            reveal_strlit("status.Status");
            assert("status.Focus"@.len() != "status.Status"@.len());
        }
        while at < bounds.len()
            invariant
                at <= bounds.len(),
                chars@ == output@,
                report == lines(output@),
                cut(chars@, bounds@) == report,
                forall|i: int|
                    0 <= i < bounds.len() ==> (#[trigger] bounds[i]).start <= bounds[i].end
                        <= chars.len(),
                views(positions@) == focus_positions(report.take(at as int)),
                normal == reports_normal(report.take(at as int)),
                "status.Focus"@ != "status.Status"@,
            decreases bounds.len() - at,
        {
            let from = bounds[at].start;
            let to = bounds[at].end;
            proof {
                assert(report.take(at + 1).drop_last() =~= report.take(at as int));
                assert(report.take(at + 1).last() == chars@.subrange(from as int, to as int));
            }
            match find_equals(&chars, from, to) {
                Some(eq) => {
                    if range_is(&chars, from, eq, "status.Focus") {
                        let value = String::from_str(output.substring_char(eq + 1, to));
                        proof {
                            lemma_views_push(positions@, value);
                        }
                        positions.push(value);
                    } else if range_is(&chars, from, eq, "status.Status") && range_is(
                        &chars,
                        eq + 1,
                        to,
                        "Normal",
                    ) {
                        normal = true;
                    }
                },
                None => {},
            }
            at += 1;
        }
        assert(report.take(at as int) =~= report);
        FocusStatus { positions, normal }
    }
}

impl Default for DahuaHttp {
    fn default() -> (adapter: Self)
        ensures
            adapter.unconfigured(),
    {
        Self { id: 0, host: None, username: None, password: None, timeout: DEFAULT_TIMEOUT }
    }
}

impl DahuaHttp {
    /// What `set_fps` answers.
    pub open spec fn set_fps_step(&self, fps: FpsValue, step: Step<()>) -> bool {
        &&& step matches Step::Ask(call) && call.url@ == set_config_url(self.spec_host())
            && call.payload == Payload::DahuaConfig(Config { fps: Some(fps), ..Config::unset() })
            && call.method == Method::GET && call.headers is None
    }

    /// What `get_fps` answers.
    pub open spec fn get_fps_step(&self, step: Step<FpsValue>) -> bool {
        &&& step matches Step::Ask(call) && call.reads(get_config_url(self.spec_host(), "Encode"@))
    }

    /// What `switch_spotlight` answers.
    pub open spec fn switch_spotlight_step(&self, enabled: bool, step: Step<()>) -> bool {
        &&& step matches Step::Ask(call) && call.url@ == set_config_url(self.spec_host())
            && call.payload == Payload::DahuaConfig(
            Config {
                external_spotlight: Some(ExternalSpotlight::spec_from_enabled(enabled)),
                ..Config::unset()
            },
        ) && call.method == Method::GET && call.headers is None
    }

    /// What `get_spotlight_state` answers.
    pub open spec fn get_spotlight_state_step(&self, step: Step<bool>) -> bool {
        &&& step matches Step::Ask(call) && call.reads(
            get_config_url(self.spec_host(), "AlarmOut"@),
        )
    }

    /// What `set_date_time` answers.
    pub open spec fn set_date_time_step(&self, date_time: Timestamp, step: Step<()>) -> bool {
        &&& match date_time.spec_format(clock_pattern()) {
            Some(time) => step matches Step::Ask(call) && call.reads(
                dahua_url(self.spec_host(), "global"@, clock_query(time)),
            ),
            None => step matches Step::Done(Err(e)) && e == (IpCamerasError::Std {
                kind: ErrorKind::InvalidInput,
            }),
        }
    }

    /// What `get_focus_capabilities` answers.
    pub open spec fn get_focus_capabilities_step(&self, step: Step<FocusCapabilities>) -> bool {
        &&& step.is_done_with(FocusCapabilities::unit_scale())
    }

    /// What `get_focus_absolute` answers.
    pub open spec fn get_focus_absolute_step(&self, step: Step<FocusValue>) -> bool {
        &&& step matches Step::Ask(call) && call.reads(
            dahua_url(self.spec_host(), "devVideoInput"@, focus_status_query()),
        )
    }

    /// What `set_focus_absolute` answers.
    pub open spec fn set_focus_absolute_step(&self, focus: Seq<char>, step: Step<()>) -> bool {
        &&& step matches Step::Ask(call) && call.reads(
            dahua_url(self.spec_host(), "devVideoInput"@, adjust_focus_query(focus)),
        )
    }
}

/// The operations that the adapter carries out itself.
pub open spec fn dahua_overrides(capability: Capability) -> bool {
    match capability {
        Capability::SetFps
        | Capability::GetFps
        | Capability::SwitchSpotlight
        | Capability::GetSpotlightState
        | Capability::SetDateTime
        | Capability::GetFocusCapabilities
        | Capability::GetFocusAbsolute
        | Capability::SetFocusAbsolute => true,
        _ => false,
    }
}

impl ApiHandler for DahuaHttp {
    open spec fn spec_auth(&self) -> (Seq<char>, Seq<char>) {
        resolved_auth(opt_view(self.username), opt_view(self.password))
    }

    open spec fn spec_host(&self) -> Seq<char> {
        resolved_host(opt_view(self.host))
    }

    open spec fn overrides(&self, capability: Capability) -> bool {
        dahua_overrides(capability)
    }

    fn auth(&self) -> (credentials: (&str, &str)) {
        resolve_auth(&self.username, &self.password)
    }

    fn host(&self) -> (address: &str) {
        resolve_host(&self.host)
    }

    fn supports(&self, capability: Capability) -> (supported: bool) {
        match capability {
            Capability::SetFps
            | Capability::GetFps
            | Capability::SwitchSpotlight
            | Capability::GetSpotlightState
            | Capability::SetDateTime
            | Capability::GetFocusCapabilities
            | Capability::GetFocusAbsolute
            | Capability::SetFocusAbsolute => true,
            _ => false,
        }
    }

    /// Writes the frame rate and no other setting.
    fn set_fps(&self, fps: FpsValue) -> (step: Step<()>)
        ensures
            self.set_fps_step(fps, step),
    {
        Step::Ask(
            self.set_config(
                Config { spotlight: None, brightness: None, fps: Some(fps), external_spotlight: None },
            ),
        )
    }

    /// Reads the configuration of the encoder.
    fn get_fps(&self) -> (step: Step<FpsValue>)
        ensures
            self.get_fps_step(step),
    {
        Step::Ask(self.get_config("Encode"))
    }

    /// Writes the alarm output that drives the external spotlight, and no
    /// other setting.
    fn switch_spotlight(&self, enabled: bool) -> (step: Step<()>)
        ensures
            self.switch_spotlight_step(enabled, step),
    {
        Step::Ask(
            self.set_config(
                Config {
                    spotlight: None,
                    brightness: None,
                    fps: None,
                    external_spotlight: Some(ExternalSpotlight::from(enabled)),
                },
            ),
        )
    }

    /// Reads the configuration of the alarm outputs.
    fn get_spotlight_state(&self) -> (step: Step<bool>)
        ensures
            self.get_spotlight_state_step(step),
    {
        Step::Ask(self.get_config("AlarmOut"))
    }

    /// Sets the clock to `date_time`, written as date, `%20` and time of
    /// day; invalid input where the time cannot be written.
    fn set_date_time(&self, date_time: Timestamp) -> (step: Step<()>)
        ensures
            self.set_date_time_step(date_time, step),
    {
        match date_time.format("%F%%20%T") {
            Some(time) => Step::Ask(self.set_clock_call(time.as_str())),
            None => Step::Done(Err(IpCamerasError::from_kind(ErrorKind::InvalidInput))),
        }
    }

    /// Absolute focus between 0 and 1 by thousandths.
    fn get_focus_capabilities(&self) -> (step: Step<FocusCapabilities>)
        ensures
            self.get_focus_capabilities_step(step),
    {
        Step::Done(Ok(FocusCapabilities::on_unit_scale()))
    }

    /// Makes the first poll of the focus status.
    fn get_focus_absolute(&self) -> (step: Step<FocusValue>)
        ensures
            self.get_focus_absolute_step(step),
    {
        let mut params: Vec<(&str, &str)> = Vec::new();
        params.push(("action", "getFocusStatus"));
        assert(pair_views(params@) =~= focus_status_query());
        Step::Ask(self.get("devVideoInput", &params))
    }

    /// Asks the camera to move the focus and to leave the zoom.
    fn set_focus_absolute(&self, focus: &str) -> (step: Step<()>)
        ensures
            self.set_focus_absolute_step(focus@, step),
    {
        let mut params: Vec<(&str, &str)> = Vec::new();
        params.push(("action", "adjustFocus"));
        params.push(("focus", focus));
        params.push(("zoom", "0.0"));
        assert(pair_views(params@) =~= adjust_focus_query(focus@));
        Step::Ask(self.get("devVideoInput", &params))
    }
}

} // verus!

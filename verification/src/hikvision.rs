//! The adapter of Hikvision cameras.
//!
//! The adapter remembers what it discovered of its camera: the firmware,
//! whether the camera pans and tilts, and the lines that drive its
//! projectors. What it writes depends on these and on the role of the camera.

use vstd::prelude::*;
use vstd::string::StringExecFns;

use crate::configuration::{
    AdditionalConfiguration, HikvisionConfiguration, SpotlightConfiguration, SpotlightMode,
};
use crate::daynight::{ImageIcrE, IrcutFilter, SPSettings};
use crate::defaults::{recommend_image, recommend_video, recommended_image, recommended_video};
use crate::device::{
    AddresingFormatType, DeviceInfo, FirmwareVerison, FocusData, NTPServer, PTZChannel, Time,
};
use crate::dublicates;
use crate::domain::{opt_view, CameraId, CameraRole, FpsValue, Resource};
use crate::error::{ErrorKind, IpCamerasError};
use crate::exchange::{Call, HikPayload, Part, Payload, Stage, Step};
use crate::focus::{Direction, FocusCapabilities, FocusCapabilitiesContinuous, FocusContinuous};
use crate::handler::{
    resolve_auth, resolve_host, resolved_auth, resolved_host, ApiHandler, Capability,
    DEFAULT_TIMEOUT,
};
use crate::image::ImageChannel;
use crate::request::Method;
use crate::signal::SyncSignalOutputList;
use crate::status::Response;
use crate::streaming::{StreamingChannel, Video};

verus! {

/// The continuous focus movement that was last commanded.
#[derive(Debug, Clone, Copy, PartialEq, Eq, Structural)]
pub struct Focus {
    pub current_interval: usize,
    /// The lens moves forward.
    pub current_direction: bool,
}

impl Default for Focus {
    fn default() -> (focus: Self)
        ensures
            focus == (Focus { current_interval: 1, current_direction: true }),
    {
        Self { current_interval: 1, current_direction: true }
    }
}

/// The lines that drive the projectors of a camera.
#[derive(Debug, Clone)]
pub struct Projectors {
    pub projectors_lines: Vec<u8>,
}

/// The line of the external projector.
pub const EXTERNAL_LINE: u8 = 5;

/// The line of the internal projector.
pub const INTERNAL_LINE: u8 = 7;

/// The line that marks a camera whose projectors are not switched by the
/// projector lines alone.
pub const SWITCH_MARKER: u8 = 1;

impl Default for Projectors {
    fn default() -> (projectors: Self)
        ensures
            projectors.projectors_lines@ == seq![EXTERNAL_LINE, INTERNAL_LINE],
    {
        let mut lines: Vec<u8> = Vec::new();
        lines.push(EXTERNAL_LINE);
        lines.push(INTERNAL_LINE);
        assert(lines@ =~= seq![EXTERNAL_LINE, INTERNAL_LINE]);
        Self { projectors_lines: lines }
    }
}

/// What is known of the camera itself.
#[derive(Debug, Clone, Copy, PartialEq, Eq, Structural)]
pub struct CameraS {
    pub firmware_verison: FirmwareVerison,
}

impl Default for CameraS {
    fn default() -> (camera: Self)
        ensures
            camera.firmware_verison == FirmwareVerison::V502,
    {
        Self { firmware_verison: FirmwareVerison::V502 }
    }
}

/// A Hikvision camera, the credentials under which it is reached, its role,
/// and what the adapter discovered of it.
#[derive(Debug)]
pub struct HikvisionHttp {
    pub id: CameraId,
    pub host: Option<String>,
    pub username: Option<String>,
    pub password: Option<String>,
    pub timeout: u64,
    pub camera_role: CameraRole,
    pub focus: Focus,
    pub projectors: Projectors,
    pub camera_version: CameraS,
    pub is_ptz: bool,
}

/// The address of the resource at `path` of the camera at `host`.
pub open spec fn isapi(host: Seq<char>, path: Seq<char>) -> Seq<char> {
    "http://"@ + host + path
}

/// The speed at which the focus is driven in a direction.
pub open spec fn focus_speed(direction: Direction) -> i32 {
    match direction {
        Direction::Forward => 60i32,
        Direction::Backward => (-60) as i32,
    }
}

/// The projector lines of a camera that lists `outputs` synchronisation
/// outputs and runs `firmware`: line 5 where it lists a fifth output, line 7
/// where it lists a seventh, and the marker line 1 where its firmware does
/// not switch the projectors by these lines alone.
pub open spec fn derived_lines(outputs: nat, firmware: FirmwareVerison) -> Seq<u8> {
    (if outputs > 4 {
        seq![EXTERNAL_LINE]
    } else {
        seq![]
    }) + (if outputs > 6 {
        seq![INTERNAL_LINE]
    } else {
        seq![]
    }) + (if firmware.spec_default_switch() {
        seq![]
    } else {
        seq![SWITCH_MARKER]
    })
}

/// The projector lines that a configuration names.
pub open spec fn flagged_lines(external: bool, internal: bool) -> Seq<u8> {
    (if external {
        seq![EXTERNAL_LINE]
    } else {
        seq![]
    }) + (if internal {
        seq![INTERNAL_LINE]
    } else {
        seq![]
    })
}

/// Derives the projector lines of a camera from the number of outputs that
/// it lists and from its firmware.
pub fn derive_lines(outputs: usize, firmware: FirmwareVerison) -> (lines: Vec<u8>)
    ensures
        lines@ == derived_lines(outputs as nat, firmware),
{
    let mut lines: Vec<u8> = Vec::new();
    if outputs > 4 {
        lines.push(EXTERNAL_LINE);
    }
    if outputs > 6 {
        lines.push(INTERNAL_LINE);
    }
    if !firmware.default_switch() {
        lines.push(SWITCH_MARKER);
    }
    assert(lines@ =~= derived_lines(outputs as nat, firmware));
    lines
}

/// Whether `line` is among `lines`.
pub fn has_line(lines: &Vec<u8>, line: u8) -> (found: bool)
    ensures
        found == lines@.contains(line),
{
    let mut at: usize = 0;
    while at < lines.len()
        invariant
            at <= lines.len(),
            forall|i: int| 0 <= i < at ==> lines@[i] != line,
        decreases lines.len() - at,
    {
        if lines[at] == line {
            return true;
        }
        at += 1;
    }
    false
}

/// The lines derived for a camera hold the marker line exactly where its
/// firmware is V5.1.4, so that the configuration read back from them says
/// that the projectors are switched by the lines alone for every other
/// firmware and for no camera with that one.
pub proof fn lemma_marker_by_firmware(outputs: nat, firmware: FirmwareVerison)
    ensures
        derived_lines(outputs, firmware).contains(SWITCH_MARKER) <==> firmware
            == FirmwareVerison::V514,
        !derived_lines(outputs, firmware).contains(SWITCH_MARKER)
            == firmware.spec_default_switch(),
        derived_lines(outputs, firmware).contains(EXTERNAL_LINE) <==> outputs > 4,
        derived_lines(outputs, firmware).contains(INTERNAL_LINE) <==> outputs > 6,
{
    let lines = derived_lines(outputs, firmware);
    let first: Seq<u8> = if outputs > 4 {
        seq![EXTERNAL_LINE]
    } else {
        seq![]
    };
    let second: Seq<u8> = if outputs > 6 {
        seq![INTERNAL_LINE]
    } else {
        seq![]
    };
    let third: Seq<u8> = if firmware.spec_default_switch() {
        seq![]
    } else {
        seq![SWITCH_MARKER]
    };
    assert(lines == first + second + third);
    if outputs > 4 {
        assert(lines[0] == EXTERNAL_LINE);
    }
    if outputs > 6 {
        assert(lines[first.len() as int] == INTERNAL_LINE);
    }
    if !firmware.spec_default_switch() {
        assert(lines[(first.len() + second.len()) as int] == SWITCH_MARKER);
    }
    assert forall|i: int| 0 <= i < lines.len() implies (lines[i] == EXTERNAL_LINE ==> outputs > 4)
        && (lines[i] == INTERNAL_LINE ==> outputs > 6) && (lines[i] == SWITCH_MARKER
        ==> !firmware.spec_default_switch()) by {
        if i < first.len() {
            assert(lines[i] == first[i]);
        } else if i < first.len() + second.len() {
            assert(lines[i] == second[i - first.len()]);
        } else {
            assert(lines[i] == third[i - first.len() - second.len()]);
        }
    }
}

/// How a write ended, by what the transport handed back: its own failure;
/// else invalid data where the camera reports a status other than 0 or 1;
/// else success.
pub open spec fn write_outcome(reply: Result<Response, IpCamerasError>) -> Result<
    (),
    IpCamerasError,
> {
    match reply {
        Err(e) => Err(e),
        Ok(response) => if response.spec_is_ok() {
            Ok(())
        } else {
            Err(IpCamerasError::Std { kind: ErrorKind::InvalidData })
        },
    }
}

/// Judges the answer to a write.
pub fn send(reply: Result<Response, IpCamerasError>) -> (outcome: Result<(), IpCamerasError>)
    ensures
        outcome == write_outcome(reply),
{
    match reply {
        Err(e) => Err(e),
        Ok(response) => {
            if response.is_ok() {
                Ok(())
            } else {
                Err(IpCamerasError::from_kind(ErrorKind::InvalidData))
            }
        },
    }
}

pub open spec fn color_payload(ic: ImageChannel) -> Option<HikPayload> {
    match ic.color {
        Some(v) => Some(HikPayload::Color(v)),
        None => None,
    }
}

pub open spec fn sharpness_payload(ic: ImageChannel) -> Option<HikPayload> {
    match ic.sharpness {
        Some(v) => Some(HikPayload::Sharpness(v)),
        None => None,
    }
}

pub open spec fn gain_payload(ic: ImageChannel) -> Option<HikPayload> {
    match ic.gain {
        Some(v) => Some(HikPayload::Gain(v)),
        None => None,
    }
}

pub open spec fn shutter_payload(ic: ImageChannel) -> Option<HikPayload> {
    match ic.shutter {
        Some(v) => Some(HikPayload::Shutter(v)),
        None => None,
    }
}

pub open spec fn white_balance_payload(ic: ImageChannel) -> Option<HikPayload> {
    match ic.white_balance {
        Some(v) => Some(HikPayload::WhiteBalance(v)),
        None => None,
    }
}

pub open spec fn noise_reduce_ext_payload(ic: ImageChannel) -> Option<HikPayload> {
    match ic.noise_reduce_ext {
        Some(v) => Some(HikPayload::NoiseReduceExt(v)),
        None => None,
    }
}

pub open spec fn gamma_correction_payload(ic: ImageChannel) -> Option<HikPayload> {
    match ic.gamma_correction {
        Some(v) => Some(HikPayload::GammaCorrection(v)),
        None => None,
    }
}

pub open spec fn noise_reduce_2d_payload(ic: ImageChannel) -> Option<HikPayload> {
    match ic.noise_reduce_2d {
        Some(v) => Some(HikPayload::NoiseReduce2D(v)),
        None => None,
    }
}

pub open spec fn bright_enhance_payload(ic: ImageChannel) -> Option<HikPayload> {
    match ic.bright_enhance {
        Some(v) => Some(HikPayload::BrightEnhance(v)),
        None => None,
    }
}

pub open spec fn exposure_payload(ic: ImageChannel) -> Option<HikPayload> {
    match ic.exposure {
        Some(v) => Some(HikPayload::Exposure(v)),
        None => None,
    }
}

pub open spec fn hlc_payload(ic: ImageChannel) -> Option<HikPayload> {
    match ic.hlc {
        Some(v) => Some(HikPayload::HLC(v)),
        None => None,
    }
}

pub open spec fn noise_reduce_payload(ic: ImageChannel) -> Option<HikPayload> {
    match ic.noise_reduce {
        Some(v) => Some(HikPayload::NoiseReduce(v)),
        None => None,
    }
}

/// The first four parts of writing an image channel, which every role
/// writes: color, sharpness, gain and shutter.
pub open spec fn common_image_parts(parts: Seq<Part>, host: Seq<char>, ic: ImageChannel) -> bool {
    &&& parts.len() >= 4
    &&& parts[0].is_write_of(isapi(host, "/ISAPI/Image/channels/1/color"@), color_payload(ic))
    &&& parts[1].is_write_of(
        isapi(host, "/ISAPI/Image/channels/1/sharpness"@),
        sharpness_payload(ic),
    )
    &&& parts[2].is_write_of(isapi(host, "/ISAPI/Image/channels/1/gain"@), gain_payload(ic))
    &&& parts[3].is_write_of(isapi(host, "/ISAPI/Image/channels/1/shutter"@), shutter_payload(ic))
}

/// `stage` writes the image channel `ic` of a camera in `role`, one
/// sub-resource after the other; a sub-resource that `ic` lacks is a part
/// that fails as unsupported. A camera that registers writes nine
/// sub-resources, one that views writes seven; for any other role the four
/// common ones are written and their failures are not reported.
pub open spec fn image_stage(stage: Stage, role: CameraRole, host: Seq<char>, ic: ImageChannel) -> bool {
    let parts = stage.parts@;
    &&& common_image_parts(parts, host, ic)
    &&& match role {
        CameraRole::Register => {
            &&& !stage.lenient
            &&& parts.len() == 9
            &&& parts[4].is_write_of(
                isapi(host, "/ISAPI/Image/channels/1/whiteBalance"@),
                white_balance_payload(ic),
            )
            &&& parts[5].is_write_of(
                isapi(host, "/ISAPI/Image/channels/1/noiseReduceExt"@),
                noise_reduce_ext_payload(ic),
            )
            &&& parts[6].is_write_of(
                isapi(host, "/ISAPI/Image/channels/1/gammaCorrection"@),
                gamma_correction_payload(ic),
            )
            &&& parts[7].is_write_of(
                isapi(host, "/ISAPI/Image/channels/1/NoiseReduce2D"@),
                noise_reduce_2d_payload(ic),
            )
            &&& parts[8].is_write_of(
                isapi(host, "/ISAPI/Image/channels/1/brightEnhance"@),
                bright_enhance_payload(ic),
            )
        },
        CameraRole::View => {
            &&& !stage.lenient
            &&& parts.len() == 7
            &&& parts[4].is_write_of(
                isapi(host, "/ISAPI/Image/channels/1/exposure"@),
                exposure_payload(ic),
            )
            &&& parts[5].is_write_of(isapi(host, "/ISAPI/Image/channels/1/HLC"@), hlc_payload(ic))
            &&& parts[6].is_write_of(
                isapi(host, "/ISAPI/Image/channels/1/noiseReduce"@),
                noise_reduce_payload(ic),
            )
        },
        CameraRole::Other => stage.lenient && parts.len() == 4,
    }
}

/// `stage` writes the streaming channel `sc`, and reports a failure.
pub open spec fn video_stage(stage: Stage, host: Seq<char>, sc: StreamingChannel) -> bool {
    &&& !stage.lenient
    &&& stage.parts@.len() == 1
    &&& stage.parts@[0].is_write_of(
        isapi(host, "/ISAPI/Streaming/channels/1"@),
        Some(HikPayload::StreamingChannel(sc)),
    )
}

/// `stages` write the channels of a configuration that has them: the image
/// channel first, then the streaming channel.
pub open spec fn channel_stages(
    stages: Seq<Stage>,
    role: CameraRole,
    host: Seq<char>,
    image: Option<ImageChannel>,
    video: Option<StreamingChannel>,
) -> bool {
    match (image, video) {
        (Some(ic), Some(sc)) => stages.len() == 2 && image_stage(stages[0], role, host, ic)
            && video_stage(stages[1], host, sc),
        (Some(ic), None) => stages.len() == 1 && image_stage(stages[0], role, host, ic),
        (None, Some(sc)) => stages.len() == 1 && video_stage(stages[0], host, sc),
        (None, None) => stages.len() == 0,
    }
}

/// `stages` switch the spotlight of a camera that is no viewing camera: a
/// camera that pans and tilts gets its filter setting; any other gets its
/// projector lines driven and then its filter control, both in one stage,
/// so that the second is written however the first ended.
pub open spec fn spotlight_stages(
    stages: Seq<Stage>,
    host: Seq<char>,
    is_ptz: bool,
    lines: Seq<u8>,
    enabled: bool,
) -> bool {
    &&& stages.len() == 1
    &&& !stages[0].lenient
    &&& if is_ptz {
        &&& stages[0].parts@.len() == 1
        &&& stages[0].parts@[0].is_write_of(
            isapi(host, "/ISAPI/Image/channels/1/ircutFilter"@),
            Some(HikPayload::IrcutFilter(IrcutFilter::spec_from_settings(SPSettings { enabled }))),
        )
    } else {
        &&& stages[0].parts@.len() == 2
        &&& (stages[0].parts@[0] matches Part::Write(call) && call.url@ == isapi(
            host,
            "/ISAPI/ITC/syncSignalOutput"@,
        ) && call.method == Method::PUT && call.headers is None && (
        call.payload matches Payload::Hik(HikPayload::SyncSignalOutputList(list))
            && list.outputs() == SyncSignalOutputList::spec_some(lines, enabled)))
        &&& stages[0].parts@[1].is_write_of(
            isapi(host, "/ISAPI/Image/channels/1/icr"@),
            Some(HikPayload::ImageIcrE(ImageIcrE::spec_from_settings(SPSettings { enabled }))),
        )
    }
}

impl HikvisionHttp {
    /// The adapter of a camera of which nothing is configured or
    /// discovered: a viewing camera with firmware V5.0.2 that neither pans
    /// nor tilts and drives both projector lines.
    pub open spec fn unconfigured(&self) -> bool {
        &&& self.id == 0
        &&& self.host is None
        &&& self.username is None
        &&& self.password is None
        &&& self.timeout == DEFAULT_TIMEOUT
        &&& self.camera_role == CameraRole::View
        &&& self.undiscovered()
    }

    /// Nothing is discovered of the camera yet.
    pub open spec fn undiscovered(&self) -> bool {
        &&& self.focus == Focus { current_interval: 1, current_direction: true }
        &&& self.projectors.projectors_lines@ == seq![EXTERNAL_LINE, INTERNAL_LINE]
        &&& self.camera_version.firmware_verison == FirmwareVerison::V502
        &&& !self.is_ptz
    }

    /// The adapter of the camera that `r` describes.
    pub fn from_resource(r: Resource) -> (adapter: Self)
        ensures
            adapter.id == r.id,
            adapter.timeout == DEFAULT_TIMEOUT,
            adapter.camera_role == r.role,
            adapter.undiscovered(),
            match r.onvif {
                Some(o) => adapter.host == o.host && adapter.username == o.username
                    && adapter.password == o.password,
                None => adapter.host is None && adapter.username is None && adapter.password
                    is None,
            },
    {
        let (host, username, password) = match r.onvif {
            Some(o) => (o.host, o.username, o.password),
            None => (None, None, None),
        };
        Self {
            id: r.id,
            host,
            username,
            password,
            timeout: DEFAULT_TIMEOUT,
            camera_role: r.role,
            focus: Focus::default(),
            projectors: Projectors::default(),
            camera_version: CameraS::default(),
            is_ptz: false,
        }
    }

    /// The address of the resource at `path`.
    pub fn resource(&self, path: &str) -> (url: String)
        ensures
            url@ == isapi(self.spec_host(), path@),
    {
        let mut url = String::from_str("http://");
        url.append(self.host());
        url.append(path);
        url
    }

    /// The call that reads the resource at `path`.
    pub fn recieve(&self, path: &str) -> (call: Call)
        ensures
            call.reads(isapi(self.spec_host(), path@)),
    {
        Call::read(self.resource(path))
    }

    fn part(&self, path: &str, payload: Option<HikPayload>) -> (part: Part)
        ensures
            part.is_write_of(isapi(self.spec_host(), path@), payload),
    {
        match payload {
            Some(p) => Part::Write(Call::write(self.resource(path), p)),
            None => Part::Unsupported,
        }
    }

    /// The call that reads the streaming channel.
    pub fn retrieve_video_settings(&self) -> (call: Call)
        ensures
            call.reads(isapi(self.spec_host(), "/ISAPI/Streaming/channels/1"@)),
    {
        self.recieve("/ISAPI/Streaming/channels/1")
    }

    /// The call that writes the streaming channel `sc`.
    pub fn send_video_settings(&self, sc: StreamingChannel) -> (call: Call)
        ensures
            call.writes(
                isapi(self.spec_host(), "/ISAPI/Streaming/channels/1"@),
                HikPayload::StreamingChannel(sc),
            ),
    {
        Call::write(self.resource("/ISAPI/Streaming/channels/1"), HikPayload::StreamingChannel(sc))
    }

    /// The call that reads the facts of the device.
    pub fn retrieve_version_of_camera(&self) -> (call: Call)
        ensures
            call.reads(isapi(self.spec_host(), "/ISAPI/System/deviceInfo"@)),
    {
        self.recieve("/ISAPI/System/deviceInfo")
    }

    /// The call that reads the image channel.
    pub fn retrieve_image_channel(&self) -> (call: Call)
        ensures
            call.reads(isapi(self.spec_host(), "/ISAPI/Image/channels/1"@)),
    {
        self.recieve("/ISAPI/Image/channels/1")
    }

    /// The call that reads the channel by which the camera pans and tilts.
    pub fn retrieve_ptz_channel(&self) -> (call: Call)
        ensures
            call.reads(isapi(self.spec_host(), "/ISAPI/PTZCtrl/channels/1"@)),
    {
        self.recieve("/ISAPI/PTZCtrl/channels/1")
    }

    /// The stage that writes the image channel `ic`.
    pub fn send_image_channel(&self, ic: ImageChannel) -> (stage: Stage)
        ensures
            image_stage(stage, self.camera_role, self.spec_host(), ic),
    {
        let mut parts: Vec<Part> = Vec::new();
        parts.push(
            self.part(
                "/ISAPI/Image/channels/1/color",
                match ic.color {
                    Some(v) => Some(HikPayload::Color(v)),
                    None => None,
                },
            ),
        );
        parts.push(
            self.part(
                "/ISAPI/Image/channels/1/sharpness",
                match ic.sharpness {
                    Some(v) => Some(HikPayload::Sharpness(v)),
                    None => None,
                },
            ),
        );
        parts.push(
            self.part(
                "/ISAPI/Image/channels/1/gain",
                match ic.gain {
                    Some(v) => Some(HikPayload::Gain(v)),
                    None => None,
                },
            ),
        );
        parts.push(
            self.part(
                "/ISAPI/Image/channels/1/shutter",
                match ic.shutter {
                    Some(v) => Some(HikPayload::Shutter(v)),
                    None => None,
                },
            ),
        );
        match self.camera_role {
            CameraRole::Register => {
                parts.push(
                    self.part(
                        "/ISAPI/Image/channels/1/whiteBalance",
                        match ic.white_balance {
                            Some(v) => Some(HikPayload::WhiteBalance(v)),
                            None => None,
                        },
                    ),
                );
                parts.push(
                    self.part(
                        "/ISAPI/Image/channels/1/noiseReduceExt",
                        match ic.noise_reduce_ext {
                            Some(v) => Some(HikPayload::NoiseReduceExt(v)),
                            None => None,
                        },
                    ),
                );
                parts.push(
                    self.part(
                        "/ISAPI/Image/channels/1/gammaCorrection",
                        match ic.gamma_correction {
                            Some(v) => Some(HikPayload::GammaCorrection(v)),
                            None => None,
                        },
                    ),
                );
                parts.push(
                    self.part(
                        "/ISAPI/Image/channels/1/NoiseReduce2D",
                        match ic.noise_reduce_2d {
                            Some(v) => Some(HikPayload::NoiseReduce2D(v)),
                            None => None,
                        },
                    ),
                );
                parts.push(
                    self.part(
                        "/ISAPI/Image/channels/1/brightEnhance",
                        match ic.bright_enhance {
                            Some(v) => Some(HikPayload::BrightEnhance(v)),
                            None => None,
                        },
                    ),
                );
                Stage { parts, lenient: false }
            },
            CameraRole::View => {
                parts.push(
                    self.part(
                        "/ISAPI/Image/channels/1/exposure",
                        match ic.exposure {
                            Some(v) => Some(HikPayload::Exposure(v)),
                            None => None,
                        },
                    ),
                );
                parts.push(
                    self.part(
                        "/ISAPI/Image/channels/1/HLC",
                        match ic.hlc {
                            Some(v) => Some(HikPayload::HLC(v)),
                            None => None,
                        },
                    ),
                );
                parts.push(
                    self.part(
                        "/ISAPI/Image/channels/1/noiseReduce",
                        match ic.noise_reduce {
                            Some(v) => Some(HikPayload::NoiseReduce(v)),
                            None => None,
                        },
                    ),
                );
                Stage { parts, lenient: false }
            },
            CameraRole::Other => Stage { parts, lenient: true },
        }
    }

    /// The stage that writes the streaming channel `sc`.
    pub fn video_stage(&self, sc: StreamingChannel) -> (stage: Stage)
        ensures
            video_stage(stage, self.spec_host(), sc),
    {
        let mut parts: Vec<Part> = Vec::new();
        parts.push(Part::Write(self.send_video_settings(sc)));
        Stage { parts, lenient: false }
    }

    /// The image channel `ic` with the values recommended for the role of
    /// the camera.
    pub fn default_general_settings(&self, ic: ImageChannel) -> (tuned: ImageChannel)
        ensures
            recommended_image(self.camera_role, ic, tuned),
    {
        recommend_image(self.camera_role, ic)
    }

    /// The streaming channel `sc` with the values recommended for the role
    /// of the camera.
    pub fn default_video_settings(&self, sc: StreamingChannel) -> (tuned: StreamingChannel)
        ensures
            recommended_video(self.camera_role, sc, tuned),
    {
        recommend_video(self.camera_role, sc)
    }

    /// The frame rate of the streaming channel `sc`, which holds it in
    /// hundredths.
    pub fn fps_from_channel(sc: &StreamingChannel) -> (fps: FpsValue)
        ensures
            fps == sc.video.max_frame_rate / 100,
    {
        sc.video.max_frame_rate / 100
    }

    /// What holds of `fps_write` and of what it hands back.
    pub open spec fn fps_write_spec(&self, sc: StreamingChannel, fps: FpsValue, call: Call) -> bool {
        &&& call.url@ == isapi(self.spec_host(), "/ISAPI/Streaming/channels/1"@)
        &&& call.method == Method::PUT
        &&& call.headers is None
        &&& call.payload matches Payload::Hik(HikPayload::StreamingChannel(written)) && written
            == (StreamingChannel {
            video: Video { max_frame_rate: (fps * 100) as u64, ..sc.video },
            ..sc
        })
    }

    /// The call that writes the streaming channel `sc` with the frame rate
    /// `fps`.
    pub fn fps_write(&self, sc: StreamingChannel, fps: FpsValue) -> (call: Call)
        requires
            fps * 100 <= u64::MAX,
        ensures
            self.fps_write_spec(sc, fps, call),
    {
        let mut sc = sc;
        sc.video.max_frame_rate = fps * 100;
        self.send_video_settings(sc)
    }

    /// Whether the spotlight is on, by the filter setting of a camera that
    /// pans and tilts: it is on at night.
    pub fn spotlight_from_filter(filter: IrcutFilter) -> (on: bool)
        ensures
            on == filter.ircut_filter_type.spec_enabled(),
    {
        bool::from(SPSettings::from(filter))
    }

    /// Whether the spotlight is on, by the filter control of a fixed
    /// camera: it is on where the manual position is night.
    pub fn spotlight_from_icr(control: ImageIcrE) -> (on: bool)
        requires
            control.has_manual_position(),
        ensures
            on == control.icr_ctrl.manual_mode->0.manual_preset_val.spec_enabled(),
    {
        SPSettings::from_icr(control).enabled
    }

    /// The continuous focus movement that the adapter remembers.
    pub open spec fn spec_focus_continuous(&self) -> FocusContinuous {
        FocusContinuous {
            direction: if self.focus.current_direction {
                Direction::Forward
            } else {
                Direction::Backward
            },
            interval: self.focus.current_interval,
        }
    }

    /// The call that drives the focus at `speed`; unsupported for a camera
    /// that is no viewing camera.
    pub fn send_focus_settings(&self, fd: FocusData) -> (call: Result<Call, IpCamerasError>)
        ensures
            self.camera_role == CameraRole::View ==> (call matches Ok(c) && c.writes(
                isapi(self.spec_host(), "/ISAPI/System/Video/inputs/channels/1/focus"@),
                HikPayload::FocusData(fd),
            )),
            self.camera_role != CameraRole::View ==> (call matches Err(e) && e
                is NotAvialiableApi),
    {
        match self.camera_role {
            CameraRole::View => Ok(
                Call::write(
                    self.resource("/ISAPI/System/Video/inputs/channels/1/focus"),
                    HikPayload::FocusData(fd),
                ),
            ),
            _ => Err(IpCamerasError::NotAvialiableApi),
        }
    }

    /// What holds of `focus_stop` and of what it hands back.
    pub open spec fn focus_stop_spec(&self, call: Result<Call, IpCamerasError>) -> bool {
        &&& self.camera_role == CameraRole::View ==> (call matches Ok(c) && c.writes(
            isapi(self.spec_host(), "/ISAPI/System/Video/inputs/channels/1/focus"@),
            HikPayload::FocusData(FocusData { focus: 0 }),
        ))
        &&& self.camera_role != CameraRole::View ==> (call matches Err(e) && e
            is NotAvialiableApi)
    }

    /// The second call of a continuous focus movement, which stops the
    /// focus once it has been set in motion.
    pub fn focus_stop(&self) -> (call: Result<Call, IpCamerasError>)
        ensures
            self.focus_stop_spec(call),
    {
        self.send_focus_settings(FocusData { focus: 0 })
    }

    /// What holds of `finish_focus_continuous` and of what it hands back.
    pub open spec fn finish_focus_continuous_spec(&self, before: &Self, fc: FocusContinuous) -> bool {
        &&& self.spec_focus_continuous() == fc
        &&& *self == (HikvisionHttp { focus: self.focus, ..*before })
    }

    /// Ends a continuous focus movement whose two writes succeeded: the
    /// adapter remembers the movement, so that it is the one that is read
    /// back, whatever was sent to the camera.
    pub fn finish_focus_continuous(&mut self, fc: FocusContinuous)
        ensures
            final(self).finish_focus_continuous_spec(old(self), fc),
    {
        let forward = match fc.direction {
            Direction::Forward => true,
            _ => false,
        };
        self.focus.current_interval = fc.interval;
        self.focus.current_direction = forward;
    }

    /// What holds of `init_version` and of what it hands back.
    pub open spec fn init_version_spec(&self, before: &Self, reply: Result<DeviceInfo, IpCamerasError>, step: Step<()>) -> bool {
        &&& self.camera_version.firmware_verison == (match reply {
            Ok(info) => info.firmware_verison,
            Err(_) => FirmwareVerison::V502,
        })
        &&& *self == (HikvisionHttp {
            camera_version: self.camera_version,
            ..*before
        })
        &&& step matches Step::Ask(call) && call.reads(
            isapi(before.spec_host(), "/ISAPI/PTZCtrl/channels/1"@),
        )
    }

    /// The second step of the initialisation. The firmware that the device
    /// reports is remembered, or V5.0.2 where the reading failed; then the
    /// channel by which the camera pans and tilts is read.
    pub fn init_version(&mut self, reply: Result<DeviceInfo, IpCamerasError>) -> (step: Step<()>)
        ensures
            final(self).init_version_spec(old(self), reply, step),
    {
        let firmware = match reply {
            Ok(info) => info.firmware_verison,
            Err(_) => FirmwareVerison::V502,
        };
        self.camera_version.firmware_verison = firmware;
        Step::Ask(self.retrieve_ptz_channel())
    }

    /// What holds of `init_ptz` and of what it hands back.
    pub open spec fn init_ptz_spec(&self, before: &Self, reply: Result<PTZChannel, IpCamerasError>, step: Step<()>) -> bool {
        &&& self.is_ptz == reply is Ok
        &&& *self == (HikvisionHttp { is_ptz: self.is_ptz, ..*before })
        &&& reply is Ok ==> step.is_done_with(())
        &&& reply is Err && before.camera_role == CameraRole::View ==> step.is_unsupported()
        &&& reply is Err && before.camera_role != CameraRole::View ==> (
        step matches Step::Ask(call) && call.reads(
            isapi(before.spec_host(), "/ISAPI/ITC/syncSignalOutput"@),
        ))
    }

    /// The third step of the initialisation. The camera pans and tilts
    /// where its channel for that could be read, and this is remembered. A
    /// camera that does is initialised. Of any other the synchronisation
    /// outputs are read, which a viewing camera does not support.
    pub fn init_ptz(&mut self, reply: Result<PTZChannel, IpCamerasError>) -> (step: Step<()>)
        ensures
            final(self).init_ptz_spec(old(self), reply, step),
    {
        let is_ptz = reply.is_ok();
        self.is_ptz = is_ptz;
        if is_ptz {
            Step::Done(Ok(()))
        } else {
            match self.get_raw_projectors_params() {
                Ok(call) => Step::Ask(call),
                Err(e) => Step::Done(Err(e)),
            }
        }
    }

    /// The call that reads the synchronisation outputs; unsupported for a
    /// viewing camera.
    pub fn get_raw_projectors_params(&self) -> (call: Result<Call, IpCamerasError>)
        ensures
            self.camera_role == CameraRole::View ==> (call matches Err(e) && e
                is NotAvialiableApi),
            self.camera_role != CameraRole::View ==> (call matches Ok(c) && c.reads(
                isapi(self.spec_host(), "/ISAPI/ITC/syncSignalOutput"@),
            )),
    {
        match self.camera_role {
            CameraRole::View => Err(IpCamerasError::NotAvialiableApi),
            _ => Ok(self.recieve("/ISAPI/ITC/syncSignalOutput")),
        }
    }

    /// The projector lines of the camera by the outputs that it lists and by
    /// the firmware that the adapter remembers.
    pub fn prepare_raw_projectors(&self, ssol: &SyncSignalOutputList) -> (lines: Vec<u8>)
        ensures
            lines@ == derived_lines(
                ssol.outputs().len(),
                self.camera_version.firmware_verison,
            ),
    {
        derive_lines(ssol.sync_signal_output_list.len(), self.camera_version.firmware_verison)
    }

    /// What holds of `init_projectors` and of what it hands back.
    pub open spec fn init_projectors_spec(&self, before: &Self, reply: Result<SyncSignalOutputList, IpCamerasError>, step: Step<()>) -> bool {
        &&& match reply {
            Ok(ssol) => step.is_done_with(()) && self.projectors.projectors_lines@
                == derived_lines(
                ssol.outputs().len(),
                before.camera_version.firmware_verison,
            ) && *self == (HikvisionHttp {
                projectors: self.projectors,
                ..*before
            }),
            Err(e) => step == Step::Done(Err::<(), IpCamerasError>(e)) && *self == *before,
        }
    }

    /// The last step of the initialisation. The projector lines are derived
    /// from the outputs that the camera lists and remembered; a failure to
    /// read the outputs ends the initialisation and leaves the lines.
    pub fn init_projectors(&mut self, reply: Result<SyncSignalOutputList, IpCamerasError>) -> (step:
        Step<()>)
        ensures
            final(self).init_projectors_spec(old(self), reply, step),
    {
        match reply {
            Ok(ssol) => {
                let lines = self.prepare_raw_projectors(&ssol);
                self.projectors.projectors_lines = lines;
                Step::Done(Ok(()))
            },
            Err(e) => Step::Done(Err(e)),
        }
    }

    /// The Hikvision settings of the camera: the projector lines that the
    /// adapter remembers, and the channels where both could be read.
    pub fn prepare_hikvision_configuration(
        &self,
        channels: Option<(ImageChannel, StreamingChannel)>,
    ) -> (configuration: HikvisionConfiguration)
        ensures
            configuration.internal_projector == self.projectors.projectors_lines@.contains(
                INTERNAL_LINE,
            ),
            configuration.external_projector == self.projectors.projectors_lines@.contains(
                EXTERNAL_LINE,
            ),
            configuration.default_switch == !self.projectors.projectors_lines@.contains(
                SWITCH_MARKER,
            ),
            match channels {
                Some((ic, sc)) => configuration.image_channel == Some(ic)
                    && configuration.streaming_channel == Some(sc),
                None => configuration.image_channel is None && configuration.streaming_channel
                    is None,
            },
    {
        let internal_projector = has_line(&self.projectors.projectors_lines, INTERNAL_LINE);
        let external_projector = has_line(&self.projectors.projectors_lines, EXTERNAL_LINE);
        let default_switch = !has_line(&self.projectors.projectors_lines, SWITCH_MARKER);
        let (image_channel, streaming_channel) = match channels {
            Some((ic, sc)) => (Some(ic), Some(sc)),
            None => (None, None),
        };
        HikvisionConfiguration {
            internal_projector,
            external_projector,
            default_switch,
            image_channel,
            streaming_channel,
        }
    }

    /// `configuration` is the additional configuration of the camera: its
    /// settings are not the recommended ones, its Hikvision settings name the
    /// projector lines that the adapter remembers, and they hold `channels`.
    pub open spec fn is_configuration(
        &self,
        configuration: AdditionalConfiguration,
        channels: Option<(ImageChannel, StreamingChannel)>,
    ) -> bool {
        &&& configuration.id == self.id
        &&& configuration.default_settings == Some(false)
        &&& configuration.is_day_now is None
        &&& configuration.spotlight == Some(
            SpotlightConfiguration { io_line: 0, mode: SpotlightMode::Off },
        )
        &&& configuration.hikvision matches Some(h) && h.internal_projector
            == self.projectors.projectors_lines@.contains(INTERNAL_LINE) && h.external_projector
            == self.projectors.projectors_lines@.contains(EXTERNAL_LINE) && h.default_switch
            == !self.projectors.projectors_lines@.contains(SWITCH_MARKER) && (match channels {
            Some((ic, sc)) => h.image_channel == Some(ic) && h.streaming_channel == Some(sc),
            None => h.image_channel is None && h.streaming_channel is None,
        })
    }

    /// The additional configuration of the camera, once its channels have
    /// been read or have failed to be.
    pub fn additional_configuration(
        &self,
        channels: Option<(ImageChannel, StreamingChannel)>,
    ) -> (configuration: AdditionalConfiguration)
        ensures
            self.is_configuration(configuration, channels),
    {
        let hikvision = Some(self.prepare_hikvision_configuration(channels));
        AdditionalConfiguration {
            id: self.id,
            is_day_now: None,
            default_settings: Some(false),
            spotlight: Some(SpotlightConfiguration { io_line: 0, mode: SpotlightMode::Off }),
            hikvision,
        }
    }

    /// What holds of `default_configuration` and of what it hands back.
    pub open spec fn default_configuration_spec(&self, ic: ImageChannel, sc: StreamingChannel, configuration: AdditionalConfiguration) -> bool {
        &&& configuration.id == self.id
        &&& configuration.default_settings == Some(true)
        &&& configuration.is_day_now is None
        &&& configuration.spotlight == Some(
            SpotlightConfiguration { io_line: 0, mode: SpotlightMode::Off },
        )
        &&& configuration.hikvision matches Some(h) && h.internal_projector
            && h.external_projector && h.default_switch && (h.image_channel matches Some(
            tuned,
        ) && recommended_image(self.camera_role, ic, tuned)) && (
        h.streaming_channel matches Some(tuned) && recommended_video(
            self.camera_role,
            sc,
            tuned,
        ))
    }

    /// The configuration that is recommended for the camera, made from the
    /// channels that it reports; nothing is written.
    pub fn default_configuration(&self, ic: ImageChannel, sc: StreamingChannel) -> (configuration:
        AdditionalConfiguration)
        ensures
            self.default_configuration_spec(ic, sc, configuration),
    {
        let image = self.default_general_settings(ic);
        let video = self.default_video_settings(sc);
        AdditionalConfiguration {
            id: self.id,
            is_day_now: None,
            default_settings: Some(true),
            spotlight: Some(SpotlightConfiguration { io_line: 0, mode: SpotlightMode::Off }),
            hikvision: Some(
                HikvisionConfiguration {
                    external_projector: true,
                    internal_projector: true,
                    default_switch: true,
                    image_channel: Some(image),
                    streaming_channel: Some(video),
                },
            ),
        }
    }

    /// What holds of `default_video_write` and of what it hands back.
    pub open spec fn default_video_write_spec(&self, sc: StreamingChannel, call: Call) -> bool {
        &&& call.url@ == isapi(self.spec_host(), "/ISAPI/Streaming/channels/1"@)
        &&& call.method == Method::PUT
        &&& call.headers is None
        &&& call.payload matches Payload::Hik(HikPayload::StreamingChannel(tuned))
            && recommended_video(self.camera_role, sc, tuned)
    }

    /// Writing the recommended settings, second step: the call that writes
    /// the streaming channel `sc` with the recommended values.
    pub fn default_video_write(&self, sc: StreamingChannel) -> (call: Call)
        ensures
            self.default_video_write_spec(sc, call),
    {
        let tuned = self.default_video_settings(sc);
        self.send_video_settings(tuned)
    }

    /// What holds of `default_image_stage` and of what it hands back.
    pub open spec fn default_image_stage_spec(&self, ic: ImageChannel, stage: Stage) -> bool {
        &&& exists|tuned: ImageChannel|
            recommended_image(self.camera_role, ic, tuned) && image_stage(
                stage,
                self.camera_role,
                self.spec_host(),
                tuned,
            )
    }

    /// Writing the recommended settings, last step: the stage that writes
    /// the image channel `ic` with the recommended values.
    pub fn default_image_stage(&self, ic: ImageChannel) -> (stage: Stage)
        ensures
            self.default_image_stage_spec(ic, stage),
    {
        let tuned = self.default_general_settings(ic);
        self.send_image_channel(tuned)
    }
}

impl HikvisionHttp {
    /// What holds of `configuration_after_image` and of what it hands back.
    pub open spec fn configuration_after_image_spec(&self, reply: Result<ImageChannel, IpCamerasError>, next: (Option<ImageChannel>, Step<AdditionalConfiguration>)) -> bool {
        &&& match reply {
            Ok(ic) => next.0 == Some(ic) && (next.1 matches Step::Ask(call) && call.reads(
                isapi(self.spec_host(), "/ISAPI/Streaming/channels/1"@),
            )),
            Err(_) => next.0 is None && (next.1 matches Step::Done(Ok(configuration))
                && self.is_configuration(configuration, None)),
        }
    }

    /// Reading the additional configuration, second step. Where the image
    /// channel was read, it is handed back and the streaming channel is
    /// read next; where it was not, the configuration is made without the
    /// channels and the streaming channel is not read.
    pub fn configuration_after_image(&self, reply: Result<ImageChannel, IpCamerasError>) -> (next: (
        Option<ImageChannel>,
        Step<AdditionalConfiguration>,
    ))
        ensures
            self.configuration_after_image_spec(reply, next),
    {
        match reply {
            Ok(ic) => (Some(ic), Step::Ask(self.retrieve_video_settings())),
            Err(_) => (None, Step::Done(Ok(self.additional_configuration(None)))),
        }
    }

    /// What holds of `configuration_after_video` and of what it hands back.
    pub open spec fn configuration_after_video_spec(&self, ic: ImageChannel, reply: Result<StreamingChannel, IpCamerasError>, configuration: AdditionalConfiguration) -> bool {
        &&& self.is_configuration(
            configuration,
            match reply {
                Ok(sc) => Some((ic, sc)),
                Err(_) => None,
            },
        )
    }

    /// Reading the additional configuration, last step: the configuration
    /// with both channels where the streaming channel was read too, and
    /// without any channel where it was not.
    pub fn configuration_after_video(
        &self,
        ic: ImageChannel,
        reply: Result<StreamingChannel, IpCamerasError>,
    ) -> (configuration: AdditionalConfiguration)
        ensures
            self.configuration_after_video_spec(ic, reply, configuration),
    {
        match reply {
            Ok(sc) => self.additional_configuration(Some((ic, sc))),
            Err(_) => self.additional_configuration(None),
        }
    }

    /// The call that reads the clock of the camera.
    pub fn retrieve_time_settings(&self) -> (call: Call)
        ensures
            call.reads(isapi(self.spec_host(), "/ISAPI/System/time"@)),
    {
        self.recieve("/ISAPI/System/time")
    }

    /// The clock settings `time` switched to network time, and the time
    /// server that the camera is then to ask once a minute.
    pub fn default_time_settings(time: Time) -> (settings: (Time, NTPServer))
        ensures
            settings.0 == (Time { time_mode: dublicates::TimeMode::NTP, ..time }),
            settings.1.id == 1,
            settings.1.addresing_format_type == AddresingFormatType::IPADDRESS,
            settings.1.ip_address matches Some(address) && address@ == "172.16.16.10"@,
            settings.1.synchronize_interval == Some(60i32),
            settings.1.port_no == Some(123i32),
            settings.1.host_name is None,
            settings.1.ip6_address is None,
    {
        let mut time = time;
        time.time_mode = dublicates::TimeMode::NTP;
        let server = NTPServer {
            id: 1,
            addresing_format_type: AddresingFormatType::IPADDRESS,
            ip_address: Some(String::from_str("172.16.16.10")),
            synchronize_interval: Some(60),
            port_no: Some(123),
            host_name: None,
            ip6_address: None,
        };
        (time, server)
    }

    /// The stage that writes the clock settings and then the time server,
    /// the second however the first ended.
    pub fn send_time_settings(&self, ts: (Time, NTPServer)) -> (stage: Stage)
        ensures
            !stage.lenient,
            stage.parts@.len() == 2,
            stage.parts@[0].is_write_of(
                isapi(self.spec_host(), "/ISAPI/System/time"@),
                Some(HikPayload::Time(ts.0)),
            ),
            stage.parts@[1].is_write_of(
                isapi(self.spec_host(), "/ISAPI/System/time/ntpServers/1"@),
                Some(HikPayload::NTPServer(ts.1)),
            ),
    {
        let (time, server) = ts;
        let mut parts: Vec<Part> = Vec::new();
        parts.push(self.part("/ISAPI/System/time", Some(HikPayload::Time(time))));
        parts.push(
            self.part("/ISAPI/System/time/ntpServers/1", Some(HikPayload::NTPServer(server))),
        );
        Stage { parts, lenient: false }
    }
}

/// A continuous focus movement that the adapter has remembered is the one
/// that is read back from it, without a call to the camera.
pub proof fn lemma_focus_read_back(camera: HikvisionHttp, focus: FocusContinuous, step: Step<
    FocusContinuous,
>)
    requires
        camera.spec_focus_continuous() == focus,
        camera.get_focus_continuous_step(step),
    ensures
        step.is_done_with(focus),
{
}

/// Switching the spotlight of a viewing camera succeeds at once: the step
/// asks nothing of the camera.
pub proof fn lemma_view_spotlight_is_idle(camera: HikvisionHttp, enabled: bool, step: Step<()>)
    requires
        camera.camera_role == CameraRole::View,
        camera.switch_spotlight_step(enabled, step),
    ensures
        step.is_done_with(()),
        !(step is Ask),
        !(step is Run),
{
}

impl Default for HikvisionHttp {
    fn default() -> (adapter: Self)
        ensures
            adapter.unconfigured(),
    {
        Self {
            id: 0,
            host: None,
            username: None,
            password: None,
            timeout: DEFAULT_TIMEOUT,
            camera_role: CameraRole::View,
            focus: Focus::default(),
            projectors: Projectors::default(),
            camera_version: CameraS::default(),
            is_ptz: false,
        }
    }
}

/// A copy of the lines.
fn copy_lines(lines: &Vec<u8>) -> (copy: Vec<u8>)
    ensures
        copy@ == lines@,
{
    let mut copy: Vec<u8> = Vec::new();
    let mut at: usize = 0;
    while at < lines.len()
        invariant
            at <= lines.len(),
            copy@ == lines@.take(at as int),
        decreases lines.len() - at,
    {
        copy.push(lines[at]);
        assert(lines@.take(at + 1) =~= lines@.take(at as int).push(lines@[at as int]));
        at += 1;
    }
    assert(lines@.take(at as int) =~= lines@);
    copy
}

impl HikvisionHttp {
    /// What `init` answers.
    pub open spec fn init_step(&self, step: Step<()>) -> bool {
        &&& step matches Step::Ask(call) && call.reads(
            isapi(self.spec_host(), "/ISAPI/System/deviceInfo"@),
        )
    }

    /// What `get_spotlight_state` answers.
    pub open spec fn get_spotlight_state_step(&self, step: Step<bool>) -> bool {
        &&& self.camera_role == CameraRole::View ==> step.is_done_with(false)
        &&& self.camera_role != CameraRole::View && self.is_ptz ==> (
        step matches Step::Ask(call) && call.reads(
            isapi(self.spec_host(), "/ISAPI/Image/channels/1/ircutFilter"@),
        ))
        &&& self.camera_role != CameraRole::View && !self.is_ptz ==> (
        step matches Step::Ask(call) && call.reads(
            isapi(self.spec_host(), "/ISAPI/Image/channels/1/icr"@),
        ))
    }

    /// What `switch_spotlight` answers.
    pub open spec fn switch_spotlight_step(&self, enabled: bool, step: Step<()>) -> bool {
        &&& self.camera_role == CameraRole::View ==> step.is_done_with(())
        &&& self.camera_role != CameraRole::View ==> (step matches Step::Run(stages)
            && spotlight_stages(
            stages@,
            self.spec_host(),
            self.is_ptz,
            self.projectors.projectors_lines@,
            enabled,
        ))
    }

    /// What `get_fps` answers.
    pub open spec fn get_fps_step(&self, step: Step<FpsValue>) -> bool {
        &&& step matches Step::Ask(call) && call.reads(
            isapi(self.spec_host(), "/ISAPI/Streaming/channels/1"@),
        )
    }

    /// What `set_fps` answers.
    pub open spec fn set_fps_step(&self, fps: FpsValue, step: Step<()>) -> bool {
        &&& step matches Step::Ask(call) && call.reads(
            isapi(self.spec_host(), "/ISAPI/Streaming/channels/1"@),
        )
    }

    /// What `set_focus_continuous` answers.
    pub open spec fn set_focus_continuous_step(&self, focus: FocusContinuous, step: Step<()>) -> bool {
        &&& self.camera_role == CameraRole::View ==> (step matches Step::Ask(call) && call.writes(
            isapi(self.spec_host(), "/ISAPI/System/Video/inputs/channels/1/focus"@),
            HikPayload::FocusData(FocusData { focus: focus_speed(focus.direction) }),
        ))
        &&& self.camera_role != CameraRole::View ==> step.is_unsupported()
    }

    /// What `get_focus_capabilities` answers.
    pub open spec fn get_focus_capabilities_step(&self, step: Step<FocusCapabilities>) -> bool {
        &&& step.is_done_with(
            FocusCapabilities {
                continuous: Some(
                    FocusCapabilitiesContinuous { min_interval: 1, max_interval: 1 },
                ),
                ..FocusCapabilities::none()
            },
        )
    }

    /// What `get_focus_continuous` answers.
    pub open spec fn get_focus_continuous_step(&self, step: Step<FocusContinuous>) -> bool {
        &&& step.is_done_with(self.spec_focus_continuous())
    }

    /// What `get_additional_configuration` answers.
    pub open spec fn get_additional_configuration_step(&self, step: Step<AdditionalConfiguration>) -> bool {
        &&& step matches Step::Ask(call) && call.reads(
            isapi(self.spec_host(), "/ISAPI/Image/channels/1"@),
        )
    }

    /// What `get_default_configuration` answers.
    pub open spec fn get_default_configuration_step(&self, step: Step<AdditionalConfiguration>) -> bool {
        &&& step matches Step::Ask(call) && call.reads(
            isapi(self.spec_host(), "/ISAPI/Image/channels/1"@),
        )
    }

    /// What `set_additional_configuration` answers.
    pub open spec fn set_additional_configuration_step(&self, before: &Self, configuration: AdditionalConfiguration, step: Step<()>) -> bool {
        &&& configuration.default_settings == Some(true) ==> *self == *before && (
        step matches Step::Ask(call) && call.reads(
            isapi(before.spec_host(), "/ISAPI/Streaming/channels/1"@),
        ))
        &&& configuration.default_settings != Some(true) ==> match configuration.hikvision {
            None => *self == *before && step.is_done_with(()),
            Some(settings) => {
                &&& *self == (HikvisionHttp {
                    projectors: self.projectors,
                    ..*before
                })
                &&& self.projectors.projectors_lines@ == (if settings.default_switch {
                    flagged_lines(settings.external_projector, settings.internal_projector)
                } else {
                    before.projectors.projectors_lines@
                })
                &&& step matches Step::Run(stages) && channel_stages(
                    stages@,
                    before.camera_role,
                    before.spec_host(),
                    settings.image_channel,
                    settings.streaming_channel,
                )
            },
        }
    }
}

/// The operations that the adapter carries out itself.
pub open spec fn hikvision_overrides(capability: Capability) -> bool {
    match capability {
        Capability::Init
        | Capability::GetSpotlightState
        | Capability::SwitchSpotlight
        | Capability::GetFps
        | Capability::SetFps
        | Capability::SetFocusContinuous
        | Capability::GetFocusCapabilities
        | Capability::GetFocusContinuous
        | Capability::GetAdditionalConfiguration
        | Capability::GetDefaultConfiguration
        | Capability::SetAdditionalConfiguration => true,
        _ => false,
    }
}

impl ApiHandler for HikvisionHttp {
    open spec fn spec_auth(&self) -> (Seq<char>, Seq<char>) {
        resolved_auth(opt_view(self.username), opt_view(self.password))
    }

    open spec fn spec_host(&self) -> Seq<char> {
        resolved_host(opt_view(self.host))
    }

    open spec fn overrides(&self, capability: Capability) -> bool {
        hikvision_overrides(capability)
    }

    fn auth(&self) -> (credentials: (&str, &str)) {
        resolve_auth(&self.username, &self.password)
    }

    fn host(&self) -> (address: &str) {
        resolve_host(&self.host)
    }

    fn supports(&self, capability: Capability) -> (supported: bool) {
        match capability {
            Capability::Init
            | Capability::GetSpotlightState
            | Capability::SwitchSpotlight
            | Capability::GetFps
            | Capability::SetFps
            | Capability::SetFocusContinuous
            | Capability::GetFocusCapabilities
            | Capability::GetFocusContinuous
            | Capability::GetAdditionalConfiguration
            | Capability::GetDefaultConfiguration
            | Capability::SetAdditionalConfiguration => true,
            _ => false,
        }
    }

    /// Reads the facts of the device; the initialisation goes on with
    /// `init_version`, `init_ptz` and `init_projectors`.
    fn init(&self) -> (step: Step<()>)
        ensures
            self.init_step(step),
    {
        Step::Ask(self.retrieve_version_of_camera())
    }

    /// A viewing camera has no spotlight, which is off. Of any other the
    /// filter is read: its setting where the camera pans and tilts, its
    /// control where it does not.
    fn get_spotlight_state(&self) -> (step: Step<bool>)
        ensures
            self.get_spotlight_state_step(step),
    {
        match self.camera_role {
            CameraRole::View => Step::Done(Ok(SPSettings::default().enabled)),
            _ => {
                if self.is_ptz {
                    Step::Ask(self.recieve("/ISAPI/Image/channels/1/ircutFilter"))
                } else {
                    Step::Ask(self.recieve("/ISAPI/Image/channels/1/icr"))
                }
            },
        }
    }

    /// A viewing camera has no spotlight: the switch succeeds and nothing
    /// is asked of the camera. Any other camera is switched to night or to
    /// day.
    fn switch_spotlight(&self, enabled: bool) -> (step: Step<()>)
        ensures
            self.switch_spotlight_step(enabled, step),
    {
        match self.camera_role {
            CameraRole::View => Step::Done(Ok(())),
            _ => {
                let settings = SPSettings::from(enabled);
                let mut parts: Vec<Part> = Vec::new();
                if self.is_ptz {
                    parts.push(
                        self.part(
                            "/ISAPI/Image/channels/1/ircutFilter",
                            Some(HikPayload::IrcutFilter(IrcutFilter::from(settings))),
                        ),
                    );
                } else {
                    let lines = copy_lines(&self.projectors.projectors_lines);
                    let list = if enabled {
                        SyncSignalOutputList::set_some(lines)
                    } else {
                        SyncSignalOutputList::unset_some(lines)
                    };
                    parts.push(
                        Part::Write(
                            Call::write(
                                self.resource("/ISAPI/ITC/syncSignalOutput"),
                                HikPayload::SyncSignalOutputList(list),
                            ),
                        ),
                    );
                    parts.push(
                        self.part(
                            "/ISAPI/Image/channels/1/icr",
                            Some(HikPayload::ImageIcrE(ImageIcrE::from(settings))),
                        ),
                    );
                }
                let mut stages: Vec<Stage> = Vec::new();
                stages.push(Stage { parts, lenient: false });
                Step::Run(stages)
            },
        }
    }

    /// Reads the streaming channel, which holds the frame rate.
    fn get_fps(&self) -> (step: Step<FpsValue>)
        ensures
            self.get_fps_step(step),
    {
        Step::Ask(self.retrieve_video_settings())
    }

    /// Reads the streaming channel, which is then written with the new
    /// frame rate.
    fn set_fps(&self, fps: FpsValue) -> (step: Step<()>)
        ensures
            self.set_fps_step(fps, step),
    {
        Step::Ask(self.retrieve_video_settings())
    }

    /// Sets the focus of a viewing camera in motion, forward or backward;
    /// unsupported for any other camera. The movement goes on with
    /// `focus_stop` and ends with `finish_focus_continuous`.
    fn set_focus_continuous(&self, focus: FocusContinuous) -> (step: Step<()>)
        ensures
            self.set_focus_continuous_step(focus, step),
    {
        let speed: i32 = match focus.direction {
            Direction::Forward => 60,
            _ => -60,
        };
        match self.send_focus_settings(FocusData { focus: speed }) {
            Ok(call) => Step::Ask(call),
            Err(e) => Step::Done(Err(e)),
        }
    }

    /// Continuous focus at intervals of 1, and no other mode.
    fn get_focus_capabilities(&self) -> (step: Step<FocusCapabilities>)
        ensures
            self.get_focus_capabilities_step(step),
    {
        Step::Done(Ok(FocusCapabilities::new().continuous(1, 1)))
    }

    /// The movement that the adapter remembers; the camera is not asked.
    fn get_focus_continuous(&self) -> (step: Step<FocusContinuous>)
        ensures
            self.get_focus_continuous_step(step),
    {
        let direction = match self.focus.current_direction {
            true => Direction::Forward,
            _ => Direction::Backward,
        };
        Step::Done(Ok(FocusContinuous { direction, interval: self.focus.current_interval }))
    }

    /// Reads the image channel; the streaming channel is read next, and
    /// `additional_configuration` makes the answer.
    fn get_additional_configuration(&self) -> (step: Step<AdditionalConfiguration>)
        ensures
            self.get_additional_configuration_step(step),
    {
        Step::Ask(self.retrieve_image_channel())
    }

    /// Reads the image channel; the streaming channel is read next, and
    /// `default_configuration` makes the answer.
    fn get_default_configuration(&self) -> (step: Step<AdditionalConfiguration>)
        ensures
            self.get_default_configuration_step(step),
    {
        Step::Ask(self.retrieve_image_channel())
    }

    /// A configuration of recommended settings starts the writing of those:
    /// the streaming channel is read, and the writing goes on with
    /// `default_video_write` and `default_image_stage`. Of any other
    /// configuration the Hikvision settings are written: where they say
    /// that the projectors are switched by the lines alone, the adapter
    /// remembers the lines that they name; then the channels that they hold
    /// are written, the image channel first and the streaming channel
    /// however the image channel ended.
    fn set_additional_configuration(&mut self, configuration: AdditionalConfiguration) -> (step: Step<()>)
        ensures
            final(self).set_additional_configuration_step(old(self), configuration, step),
    {
        match configuration.default_settings {
            Some(true) => {
                return Step::Ask(self.retrieve_video_settings());
            },
            _ => {},
        }
        match configuration.hikvision {
            Some(settings) => {
                if settings.default_switch {
                    let mut lines: Vec<u8> = Vec::new();
                    if settings.external_projector {
                        lines.push(EXTERNAL_LINE);
                    }
                    if settings.internal_projector {
                        lines.push(INTERNAL_LINE);
                    }
                    assert(lines@ =~= flagged_lines(
                        settings.external_projector,
                        settings.internal_projector,
                    ));
                    self.projectors.projectors_lines = lines;
                }
                let mut stages: Vec<Stage> = Vec::new();
                match settings.image_channel {
                    Some(ic) => {
                        stages.push(self.send_image_channel(ic));
                    },
                    None => {},
                }
                match settings.streaming_channel {
                    Some(sc) => {
                        stages.push(self.video_stage(sc));
                    },
                    None => {},
                }
                Step::Run(stages)
            },
            None => Step::Done(Ok(())),
        }
    }
}

} // verus!

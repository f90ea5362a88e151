//! An operation as a sequence of actions.
//!
//! An operation begins with an action and goes on, each time the action has
//! been carried out and its answer is handed back, with the next one, until
//! an action ends it. What is pending between two actions is a value, so
//! that whoever carries the actions out needs to know nothing of the
//! operation.

use vstd::prelude::*;

use crate::axis::{first_read, spotlight_state_of, AxisHttp, ProjectorsData, SwitchData};
use crate::camera::CameraModelHttp;
use crate::clock::Timestamp;
use crate::configuration::AdditionalConfiguration;
use crate::dahua::{
    focus_positions, judge, reported_fps, reported_fps_fits, reported_spotlight, reports_normal,
    verdict_of, DahuaHttp, FocusPoll, PollStep,
};
use crate::daynight::{ImageIcrE, IrcutFilter};
use crate::device::{DeviceInfo, PTZChannel};
use crate::domain::{FpsValue, OnvifParams};
use crate::error::{ErrorKind, IpCamerasError};
use crate::exchange::{first_error, settle, Call, Part, Stage, Step};
use crate::handler::{ApiHandler, Capability};
use crate::hikvision::{isapi, send, write_outcome, HikvisionHttp};
use crate::markup::{element_attribute_values, xml_nodes};
use crate::text::{
    contains, first_int, first_int_fits, first_int_in_range, lines, starts_with, views,
};
use crate::focus::{FocusCapabilities, FocusContinuous, FocusValue};
use crate::image::ImageChannel;
use crate::signal::SyncSignalOutputList;
use crate::status::Response;
use crate::streaming::StreamingChannel;

verus! {

/// An operation of the capability contract, with what it is given.
#[derive(Debug)]
pub enum Operation {
    Init,
    GetFps,
    SetFps(FpsValue),
    SwitchSpotlight(bool),
    GetSpotlightState,
    GetFocusCapabilities,
    GetFocusContinuous,
    SetFocusContinuous(FocusContinuous),
    GetFocusAbsolute,
    /// The position, written as a decimal number.
    SetFocusAbsolute(String),
    GetFocusRelative,
    /// The step, written as a decimal number.
    SetFocusRelative(String),
    SetDateTime(Timestamp),
    GetAdditionalConfiguration,
    SetAdditionalConfiguration(AdditionalConfiguration),
    GetDefaultConfiguration,
}

/// What an operation answers with.
#[derive(Debug)]
pub enum Outcome {
    Unit,
    Fps(FpsValue),
    Flag(bool),
    Focus(FocusValue),
    Capabilities(FocusCapabilities),
    Continuous(FocusContinuous),
    Configuration(AdditionalConfiguration),
}

/// What is asked of the ONVIF client.
#[derive(Debug, Clone, Copy, PartialEq, Eq, Structural)]
pub enum OnvifRequest {
    GetFps,
    SetFps(FpsValue),
}

/// The form in which the answer to a call is handed back.
#[derive(Debug, Clone, Copy, PartialEq, Eq, Structural)]
pub enum Expect {
    /// The body of the answer as it stands.
    Text,
    /// The ports of an Axis camera, decoded from JSON.
    AxisPorts,
    /// The ports that an Axis camera reports as written, decoded from JSON.
    AxisSwitch,
    /// A JSON answer of an Axis camera, of which only the form matters.
    AxisAccepted,
    /// A value of a Hikvision camera, decoded from XML.
    DeviceInfo,
    PtzChannel,
    Outputs,
    Filter,
    Control,
    Image,
    Video,
    /// The envelope in which a Hikvision camera answers a write.
    Status,
}

/// The answer to an action.
#[derive(Debug)]
pub enum Reply {
    /// The call failed, or its answer could not be decoded.
    Failed(IpCamerasError),
    Text(String),
    AxisPorts(ProjectorsData),
    AxisSwitch(SwitchData),
    AxisAccepted,
    DeviceInfo(DeviceInfo),
    PtzChannel(PTZChannel),
    Outputs(SyncSignalOutputList),
    Filter(IrcutFilter),
    Control(ImageIcrE),
    Image(ImageChannel),
    Video(StreamingChannel),
    Status(Response),
    /// The texts that were to be read as numbers, each as the number that
    /// it writes, or `None` where it writes none.
    Numbers(Vec<Option<FocusValue>>),
    /// The pause is over.
    Woken,
}

/// The progress of a composite write.
///
/// The parts of a stage are written one after the other, and the stages one
/// after the other, each however those before it ended. A stage reports the
/// first failure among its parts, or none where it is lenient, and the write
/// answers with the first failure that was reported.
#[derive(Debug)]
pub struct Writing {
    /// How the parts of the stage that have been written ended.
    pub outcomes: Vec<Result<(), IpCamerasError>>,
    /// The parts of the stage that are left.
    pub parts: Vec<Part>,
    /// The failures of the parts of the stage are not reported.
    pub lenient: bool,
    /// The stages that are left.
    pub stages: Vec<Stage>,
    /// The first failure that was reported by what went before.
    pub failure: Option<IpCamerasError>,
}

/// What is pending between two actions of an operation.
#[derive(Debug)]
pub enum Pending {
    /// The operation succeeds with any answer.
    Accepted,
    /// The operation ends with the verdict on a write.
    Written,
    /// A composite write is under way.
    Writing(Writing),
    AxisFps,
    AxisFpsSet,
    AxisPorts,
    AxisTimeZone(Timestamp),
    AxisFocus,
    AxisFocusRead,
    AxisFocusSet,
    DahuaFps,
    DahuaConfigSet,
    DahuaSpotlight,
    DahuaFocus(FocusPoll),
    DahuaFocusRead(FocusPoll, bool),
    DahuaFocusSleep(FocusPoll),
    StilsoftLogin(bool),
    StilsoftProfile(bool),
    HikVersion,
    HikPtz,
    HikOutputs,
    HikFilter,
    HikControl,
    HikFps,
    HikFpsSet(FpsValue),
    HikFocusStart(FocusContinuous),
    HikFocusStop(FocusContinuous),
    HikImage,
    HikVideo(ImageChannel),
    HikDefaultImage,
    HikDefaultVideo(ImageChannel),
    HikDefaultsVideo,
    HikDefaultsWritten,
    HikDefaultsImage(Result<(), IpCamerasError>),
}

/// What is to be done next for an operation.
#[derive(Debug)]
pub enum Action {
    /// Nothing: the operation is over, with this answer.
    Done(Result<Outcome, IpCamerasError>),
    /// The call is made and its answer handed back in the expected form.
    Ask(Call, Expect, Pending),
    /// The texts are read as numbers, which are handed back.
    Read(Vec<String>, Pending),
    /// A pause of so many milliseconds is made.
    Sleep(u64, Pending),
    /// The ONVIF client is asked, and its answer is that of the operation.
    Onvif(OnvifParams, OnvifRequest),
}

/// The answer of an operation that ended as `answer` and answers with
/// nothing.
pub open spec fn unit_answer(answer: Result<(), IpCamerasError>) -> Result<Outcome, IpCamerasError> {
    match answer {
        Ok(_) => Ok(Outcome::Unit),
        Err(e) => Err(e),
    }
}

pub fn to_unit_answer(answer: Result<(), IpCamerasError>) -> (lifted: Result<Outcome, IpCamerasError>)
    ensures
        lifted == unit_answer(answer),
{
    match answer {
        Ok(_) => Ok(Outcome::Unit),
        Err(e) => Err(e),
    }
}

/// What is asked of the ONVIF client for an operation that is handed to it.
pub open spec fn onvif_request(operation: Operation) -> OnvifRequest {
    match operation {
        Operation::SetFps(fps) => OnvifRequest::SetFps(fps),
        _ => OnvifRequest::GetFps,
    }
}

/// The form in which the answer to the first call of an operation is
/// expected, and what is pending while the call is made.
pub open spec fn follow_up(camera: CameraModelHttp, operation: Operation) -> (Expect, Pending) {
    match camera {
        CameraModelHttp::Axis(_) => match operation {
            Operation::GetFps => (Expect::Text, Pending::AxisFps),
            Operation::SetFps(_) => (Expect::Text, Pending::AxisFpsSet),
            Operation::SwitchSpotlight(_) => (Expect::AxisSwitch, Pending::Accepted),
            Operation::GetSpotlightState => (Expect::AxisPorts, Pending::AxisPorts),
            Operation::SetDateTime(moment) => (Expect::AxisAccepted, Pending::AxisTimeZone(moment)),
            Operation::GetFocusAbsolute => (Expect::Text, Pending::AxisFocus),
            Operation::SetFocusAbsolute(_) => (Expect::Text, Pending::AxisFocusSet),
            _ => (Expect::Text, Pending::Accepted),
        },
        CameraModelHttp::Dahua(_) => match operation {
            Operation::GetFps => (Expect::Text, Pending::DahuaFps),
            Operation::SetFps(_) => (Expect::Text, Pending::DahuaConfigSet),
            Operation::SwitchSpotlight(_) => (Expect::Text, Pending::DahuaConfigSet),
            Operation::GetSpotlightState => (Expect::Text, Pending::DahuaSpotlight),
            Operation::GetFocusAbsolute => (Expect::Text, Pending::DahuaFocus(FocusPoll { made: 1 })),
            _ => (Expect::Text, Pending::Accepted),
        },
        CameraModelHttp::Stilsoft(_) => match operation {
            Operation::SwitchSpotlight(enabled) => (Expect::Text, Pending::StilsoftLogin(enabled)),
            _ => (Expect::Text, Pending::Accepted),
        },
        CameraModelHttp::Hikvision(c) => match operation {
            Operation::Init => (Expect::DeviceInfo, Pending::HikVersion),
            Operation::GetSpotlightState => if c.is_ptz {
                (Expect::Filter, Pending::HikFilter)
            } else {
                (Expect::Control, Pending::HikControl)
            },
            Operation::GetFps => (Expect::Video, Pending::HikFps),
            Operation::SetFps(fps) => (Expect::Video, Pending::HikFpsSet(fps)),
            Operation::SetFocusContinuous(focus) => (Expect::Status, Pending::HikFocusStart(focus)),
            Operation::GetAdditionalConfiguration => (Expect::Image, Pending::HikImage),
            Operation::GetDefaultConfiguration => (Expect::Image, Pending::HikDefaultImage),
            Operation::SetAdditionalConfiguration(_) => (Expect::Video, Pending::HikDefaultsVideo),
            _ => (Expect::Text, Pending::Accepted),
        },
        CameraModelHttp::Unknown => (Expect::Text, Pending::Accepted),
    }
}

/// The failure that a stage reports whose parts ended as `outcomes`: the
/// first among them, and none where the stage is lenient.
pub open spec fn stage_failure(lenient: bool, outcomes: Seq<Result<(), IpCamerasError>>) -> Option<
    IpCamerasError,
> {
    if lenient {
        None
    } else {
        first_error(outcomes)
    }
}

/// The first of two failures, of which the first to be reported is `failure`.
pub open spec fn first_of(failure: Option<IpCamerasError>, later: Option<IpCamerasError>) -> Option<
    IpCamerasError,
> {
    match failure {
        Some(e) => Some(e),
        None => later,
    }
}

/// The failure with which a write ended, if it ended with one.
pub open spec fn failure_of(answer: Result<(), IpCamerasError>) -> Option<IpCamerasError> {
    match answer {
        Err(e) => Some(e),
        Ok(_) => None,
    }
}

/// The answer of a composite write whose first reported failure is
/// `failure`: that failure, or success where none was reported.
pub open spec fn written_answer(failure: Option<IpCamerasError>) -> Result<Outcome, IpCamerasError> {
    match failure {
        Some(e) => Err(e),
        None => Ok(Outcome::Unit),
    }
}

/// `action` is what follows in a composite write of which `outcomes` are in
/// for the stage under way, `parts` are left of it, `stages` are left after
/// it, and `failure` is the first failure reported before it. The next part
/// that is a call is made, whatever the outcomes so far; a part that has
/// nothing to write fails as unsupported without a call. When no part is
/// left, the stage reports its failure and the next stage follows, whatever
/// was reported. After the last stage the write answers with the first
/// failure that was reported, or with success.
pub open spec fn advanced(
    outcomes: Seq<Result<(), IpCamerasError>>,
    parts: Seq<Part>,
    lenient: bool,
    stages: Seq<Stage>,
    failure: Option<IpCamerasError>,
    action: Action,
) -> bool
    decreases stages.len(), parts.len(),
{
    if parts.len() > 0 {
        match parts[0] {
            Part::Write(call) => action matches Action::Ask(asked, expect, Pending::Writing(next))
                && asked == call && expect == Expect::Status && next.outcomes@ == outcomes
                && next.parts@ == parts.drop_first() && next.lenient == lenient && next.stages@
                == stages && next.failure == failure,
            Part::Unsupported => advanced(
                outcomes.push(Err(IpCamerasError::NotAvialiableApi)),
                parts.drop_first(),
                lenient,
                stages,
                failure,
                action,
            ),
        }
    } else {
        let reported = first_of(failure, stage_failure(lenient, outcomes));
        if stages.len() > 0 {
            advanced(
                Seq::empty(),
                stages[0].parts@,
                stages[0].lenient,
                stages.drop_first(),
                reported,
                action,
            )
        } else {
            action == Action::Done(written_answer(reported))
        }
    }
}

fn to_failure(answer: Result<(), IpCamerasError>) -> (failure: Option<IpCamerasError>)
    ensures
        failure == failure_of(answer),
{
    match answer {
        Err(e) => Some(e),
        Ok(_) => None,
    }
}

/// The failure that a stage reports.
fn report(lenient: bool, outcomes: Vec<Result<(), IpCamerasError>>) -> (failure: Option<
    IpCamerasError,
>)
    ensures
        failure == stage_failure(lenient, outcomes@),
{
    if lenient {
        None
    } else {
        to_failure(settle(outcomes))
    }
}

/// Goes on with a composite write up to its next call or to its end.
#[verifier::loop_isolation(false)]
fn advance(writing: Writing) -> (action: Action)
    ensures
        advanced(
            writing.outcomes@,
            writing.parts@,
            writing.lenient,
            writing.stages@,
            writing.failure,
            action,
        ),
{
    let Writing { outcomes, parts, lenient, stages, failure } = writing;
    let mut outcomes = outcomes;
    let mut parts = parts;
    let mut lenient = lenient;
    let mut stages = stages;
    let mut failure = failure;
    let ghost outcomes0 = outcomes@;
    let ghost parts0 = parts@;
    let ghost lenient0 = lenient;
    let ghost stages0 = stages@;
    let ghost failure0 = failure;
    loop
        invariant
            forall|a: Action|
                advanced(outcomes0, parts0, lenient0, stages0, failure0, a) == #[trigger] advanced(
                    outcomes@,
                    parts@,
                    lenient,
                    stages@,
                    failure,
                    a,
                ),
        decreases stages.len(), parts.len(),
    {
        let ghost outcomes1 = outcomes@;
        let ghost parts1 = parts@;
        let ghost stages1 = stages@;
        let ghost lenient1 = lenient;
        let ghost failure1 = failure;
        if parts.len() > 0 {
            let part = parts.remove(0);
            assert(parts@ =~= parts1.drop_first());
            match part {
                Part::Write(call) => {
                    let action = Action::Ask(
                        call,
                        Expect::Status,
                        Pending::Writing(Writing { outcomes, parts, lenient, stages, failure }),
                    );
                    assert(advanced(outcomes1, parts1, lenient1, stages1, failure1, action));
                    return action;
                },
                Part::Unsupported => {
                    outcomes.push(Err(IpCamerasError::NotAvialiableApi));
                    assert forall|a: Action|
                        advanced(outcomes1, parts1, lenient1, stages1, failure1, a)
                            == #[trigger] advanced(outcomes@, parts@, lenient, stages@, failure, a) by {}
                },
            }
        } else {
            let reported = report(lenient, outcomes);
            failure = match failure {
                Some(e) => Some(e),
                None => reported,
            };
            if stages.len() > 0 {
                let stage = stages.remove(0);
                assert(stages@ =~= stages1.drop_first());
                parts = stage.parts;
                lenient = stage.lenient;
                outcomes = Vec::new();
                assert(outcomes@ =~= Seq::empty());
                assert forall|a: Action|
                    advanced(outcomes1, parts1, lenient1, stages1, failure1, a)
                        == #[trigger] advanced(outcomes@, parts@, lenient, stages@, failure, a) by {}
            } else {
                let action = Action::Done(
                    match failure {
                        Some(e) => Err(e),
                        None => Ok(Outcome::Unit),
                    },
                );
                assert(advanced(outcomes1, parts1, lenient1, stages1, failure1, action));
                return action;
            }
        }
    }
}

/// In a composite write the next part that is a call is made, whatever the
/// outcomes of the parts before it and whatever failure was reported.
pub proof fn lemma_next_part_is_written(
    outcomes: Seq<Result<(), IpCamerasError>>,
    parts: Seq<Part>,
    lenient: bool,
    stages: Seq<Stage>,
    failure: Option<IpCamerasError>,
    action: Action,
)
    requires
        parts.len() > 0,
        parts[0] is Write,
        advanced(outcomes, parts, lenient, stages, failure, action),
    ensures
        action matches Action::Ask(call, expect, _) && call == parts[0]->Write_0 && expect
            == Expect::Status,
{
}

/// When a stage of a composite write is over, the next stage is written,
/// whatever the stage reported: where the next stage begins with a call,
/// that call is made.
pub proof fn lemma_next_stage_is_written(
    outcomes: Seq<Result<(), IpCamerasError>>,
    lenient: bool,
    stages: Seq<Stage>,
    failure: Option<IpCamerasError>,
    action: Action,
)
    requires
        stages.len() > 0,
        stages[0].parts@.len() > 0,
        stages[0].parts@[0] is Write,
        advanced(outcomes, Seq::empty(), lenient, stages, failure, action),
    ensures
        action matches Action::Ask(call, expect, _) && call == stages[0].parts@[0]->Write_0
            && expect == Expect::Status,
{
    assert(advanced(
        Seq::empty(),
        stages[0].parts@,
        stages[0].lenient,
        stages.drop_first(),
        first_of(failure, stage_failure(lenient, outcomes)),
        action,
    ));
}

/// A composite write whose last stage is over answers with the first
/// failure that was reported: the one reported before the last stage, else
/// the first among the parts of the last stage unless that stage is
/// lenient; and with success where none was reported.
pub proof fn lemma_last_stage_answers(
    outcomes: Seq<Result<(), IpCamerasError>>,
    lenient: bool,
    failure: Option<IpCamerasError>,
    action: Action,
)
    requires
        advanced(outcomes, Seq::empty(), lenient, Seq::empty(), failure, action),
    ensures
        action == Action::Done(
            match failure {
                Some(e) => Err(e),
                None => match first_error(outcomes) {
                    Some(e) => if lenient {
                        Ok(Outcome::Unit)
                    } else {
                        Err(e)
                    },
                    None => Ok(Outcome::Unit),
                },
            },
        ),
{
}

/// `action` is what the step of an adapter comes to: its answer, wrapped;
/// its call, with the form of the answer and what is pending; its stages;
/// or the request to the ONVIF client.
pub open spec fn lifted<T>(
    step: Step<T>,
    wrap: spec_fn(T) -> Outcome,
    follow: (Expect, Pending),
    request: OnvifRequest,
    action: Action,
) -> bool {
    match step {
        Step::Done(Ok(value)) => action == Action::Done(Ok(wrap(value))),
        Step::Done(Err(e)) => action == Action::Done(Err(e)),
        Step::Ask(call) => action == Action::Ask(call, follow.0, follow.1),
        Step::Run(stages) => advanced(Seq::empty(), Seq::empty(), false, stages@, None, action),
        Step::Onvif(params) => action == Action::Onvif(params, request),
    }
}

fn lift_unit(step: Step<()>, follow: (Expect, Pending), request: OnvifRequest) -> (action: Action)
    ensures
        lifted(step, |v: ()| Outcome::Unit, follow, request, action),
{
    match step {
        Step::Done(Ok(_)) => Action::Done(Ok(Outcome::Unit)),
        Step::Done(Err(e)) => Action::Done(Err(e)),
        Step::Ask(call) => Action::Ask(call, follow.0, follow.1),
        Step::Run(stages) => advance(
            Writing {
                outcomes: Vec::new(),
                parts: Vec::new(),
                lenient: false,
                stages,
                failure: None,
            },
        ),
        Step::Onvif(params) => Action::Onvif(params, request),
    }
}

fn lift_fps(step: Step<FpsValue>, follow: (Expect, Pending), request: OnvifRequest) -> (action:
    Action)
    ensures
        lifted(step, |v: FpsValue| Outcome::Fps(v), follow, request, action),
{
    match step {
        Step::Done(Ok(v)) => Action::Done(Ok(Outcome::Fps(v))),
        Step::Done(Err(e)) => Action::Done(Err(e)),
        Step::Ask(call) => Action::Ask(call, follow.0, follow.1),
        Step::Run(stages) => advance(
            Writing {
                outcomes: Vec::new(),
                parts: Vec::new(),
                lenient: false,
                stages,
                failure: None,
            },
        ),
        Step::Onvif(params) => Action::Onvif(params, request),
    }
}

fn lift_flag(step: Step<bool>, follow: (Expect, Pending), request: OnvifRequest) -> (action: Action)
    ensures
        lifted(step, |v: bool| Outcome::Flag(v), follow, request, action),
{
    match step {
        Step::Done(Ok(v)) => Action::Done(Ok(Outcome::Flag(v))),
        Step::Done(Err(e)) => Action::Done(Err(e)),
        Step::Ask(call) => Action::Ask(call, follow.0, follow.1),
        Step::Run(stages) => advance(
            Writing {
                outcomes: Vec::new(),
                parts: Vec::new(),
                lenient: false,
                stages,
                failure: None,
            },
        ),
        Step::Onvif(params) => Action::Onvif(params, request),
    }
}

fn lift_focus(step: Step<FocusValue>, follow: (Expect, Pending), request: OnvifRequest) -> (action:
    Action)
    ensures
        lifted(step, |v: FocusValue| Outcome::Focus(v), follow, request, action),
{
    match step {
        Step::Done(Ok(v)) => Action::Done(Ok(Outcome::Focus(v))),
        Step::Done(Err(e)) => Action::Done(Err(e)),
        Step::Ask(call) => Action::Ask(call, follow.0, follow.1),
        Step::Run(stages) => advance(
            Writing {
                outcomes: Vec::new(),
                parts: Vec::new(),
                lenient: false,
                stages,
                failure: None,
            },
        ),
        Step::Onvif(params) => Action::Onvif(params, request),
    }
}

fn lift_capabilities(
    step: Step<FocusCapabilities>,
    follow: (Expect, Pending),
    request: OnvifRequest,
) -> (action: Action)
    ensures
        lifted(step, |v: FocusCapabilities| Outcome::Capabilities(v), follow, request, action),
{
    match step {
        Step::Done(Ok(v)) => Action::Done(Ok(Outcome::Capabilities(v))),
        Step::Done(Err(e)) => Action::Done(Err(e)),
        Step::Ask(call) => Action::Ask(call, follow.0, follow.1),
        Step::Run(stages) => advance(
            Writing {
                outcomes: Vec::new(),
                parts: Vec::new(),
                lenient: false,
                stages,
                failure: None,
            },
        ),
        Step::Onvif(params) => Action::Onvif(params, request),
    }
}

fn lift_continuous(
    step: Step<FocusContinuous>,
    follow: (Expect, Pending),
    request: OnvifRequest,
) -> (action: Action)
    ensures
        lifted(step, |v: FocusContinuous| Outcome::Continuous(v), follow, request, action),
{
    match step {
        Step::Done(Ok(v)) => Action::Done(Ok(Outcome::Continuous(v))),
        Step::Done(Err(e)) => Action::Done(Err(e)),
        Step::Ask(call) => Action::Ask(call, follow.0, follow.1),
        Step::Run(stages) => advance(
            Writing {
                outcomes: Vec::new(),
                parts: Vec::new(),
                lenient: false,
                stages,
                failure: None,
            },
        ),
        Step::Onvif(params) => Action::Onvif(params, request),
    }
}

fn lift_configuration(
    step: Step<AdditionalConfiguration>,
    follow: (Expect, Pending),
    request: OnvifRequest,
) -> (action: Action)
    ensures
        lifted(step, |v: AdditionalConfiguration| Outcome::Configuration(v), follow, request, action),
{
    match step {
        Step::Done(Ok(v)) => Action::Done(Ok(Outcome::Configuration(v))),
        Step::Done(Err(e)) => Action::Done(Err(e)),
        Step::Ask(call) => Action::Ask(call, follow.0, follow.1),
        Step::Run(stages) => advance(
            Writing {
                outcomes: Vec::new(),
                parts: Vec::new(),
                lenient: false,
                stages,
                failure: None,
            },
        ),
        Step::Onvif(params) => Action::Onvif(params, request),
    }
}

/// `action` is the first action of `operation` on the camera `before`,
/// which it leaves as `after`: what the first step of the operation comes
/// to.
pub open spec fn begun(
    before: CameraModelHttp,
    after: CameraModelHttp,
    operation: Operation,
    action: Action,
) -> bool {
    let follow = follow_up(before, operation);
    let request = onvif_request(operation);
    match operation {
        Operation::Init => after == before && exists|step: Step<()>|
            #[trigger] before.init_step(step) && lifted(
                step,
                |v: ()| Outcome::Unit,
                follow,
                request,
                action,
            ),
        Operation::GetFps => after == before && exists|step: Step<FpsValue>|
            #[trigger] before.get_fps_step(step) && lifted(
                step,
                |v: FpsValue| Outcome::Fps(v),
                follow,
                request,
                action,
            ),
        Operation::SetFps(fps) => after == before && exists|step: Step<()>|
            #[trigger] before.set_fps_step(fps, step) && lifted(
                step,
                |v: ()| Outcome::Unit,
                follow,
                request,
                action,
            ),
        Operation::SwitchSpotlight(enabled) => after == before && exists|step: Step<()>|
            #[trigger] before.switch_spotlight_step(enabled, step) && lifted(
                step,
                |v: ()| Outcome::Unit,
                follow,
                request,
                action,
            ),
        Operation::GetSpotlightState => after == before && exists|step: Step<bool>|
            #[trigger] before.get_spotlight_state_step(step) && lifted(
                step,
                |v: bool| Outcome::Flag(v),
                follow,
                request,
                action,
            ),
        Operation::GetFocusCapabilities => after == before && exists|step: Step<FocusCapabilities>|
            #[trigger] before.get_focus_capabilities_step(step) && lifted(
                step,
                |v: FocusCapabilities| Outcome::Capabilities(v),
                follow,
                request,
                action,
            ),
        Operation::GetFocusContinuous => after == before && exists|step: Step<FocusContinuous>|
            #[trigger] before.get_focus_continuous_step(step) && lifted(
                step,
                |v: FocusContinuous| Outcome::Continuous(v),
                follow,
                request,
                action,
            ),
        Operation::SetFocusContinuous(focus) => after == before && exists|step: Step<()>|
            #[trigger] before.set_focus_continuous_step(focus, step) && lifted(
                step,
                |v: ()| Outcome::Unit,
                follow,
                request,
                action,
            ),
        Operation::GetFocusAbsolute => after == before && exists|step: Step<FocusValue>|
            #[trigger] before.get_focus_absolute_step(step) && lifted(
                step,
                |v: FocusValue| Outcome::Focus(v),
                follow,
                request,
                action,
            ),
        Operation::SetFocusAbsolute(focus) => after == before && exists|step: Step<()>|
            #[trigger] before.set_focus_absolute_step(focus@, step) && lifted(
                step,
                |v: ()| Outcome::Unit,
                follow,
                request,
                action,
            ),
        Operation::GetFocusRelative => after == before && exists|step: Step<FocusValue>|
            #[trigger] before.get_focus_relative_step(step) && lifted(
                step,
                |v: FocusValue| Outcome::Focus(v),
                follow,
                request,
                action,
            ),
        Operation::SetFocusRelative(focus) => after == before && exists|step: Step<()>|
            #[trigger] before.set_focus_relative_step(focus@, step) && lifted(
                step,
                |v: ()| Outcome::Unit,
                follow,
                request,
                action,
            ),
        Operation::SetDateTime(moment) => after == before && exists|step: Step<()>|
            #[trigger] before.set_date_time_step(moment, step) && lifted(
                step,
                |v: ()| Outcome::Unit,
                follow,
                request,
                action,
            ),
        Operation::GetAdditionalConfiguration => after == before && exists|
            step: Step<AdditionalConfiguration>,
        |
            #[trigger] before.get_additional_configuration_step(step) && lifted(
                step,
                |v: AdditionalConfiguration| Outcome::Configuration(v),
                follow,
                request,
                action,
            ),
        Operation::SetAdditionalConfiguration(configuration) => exists|step: Step<()>|
            #[trigger] after.set_additional_configuration_step(&before, configuration, step)
                && lifted(step, |v: ()| Outcome::Unit, follow, request, action),
        Operation::GetDefaultConfiguration => after == before && exists|
            step: Step<AdditionalConfiguration>,
        |
            #[trigger] before.get_default_configuration_step(step) && lifted(
                step,
                |v: AdditionalConfiguration| Outcome::Configuration(v),
                follow,
                request,
                action,
            ),
    }
}

impl CameraModelHttp {
    fn follow(&self, operation: &Operation) -> (follow: (Expect, Pending))
        ensures
            follow == follow_up(*self, *operation),
    {
        match self {
            CameraModelHttp::Axis(_) => match operation {
                Operation::GetFps => (Expect::Text, Pending::AxisFps),
                Operation::SetFps(_) => (Expect::Text, Pending::AxisFpsSet),
                Operation::SwitchSpotlight(_) => (Expect::AxisSwitch, Pending::Accepted),
                Operation::GetSpotlightState => (Expect::AxisPorts, Pending::AxisPorts),
                Operation::SetDateTime(moment) => (
                    Expect::AxisAccepted,
                    Pending::AxisTimeZone(*moment),
                ),
                Operation::GetFocusAbsolute => (Expect::Text, Pending::AxisFocus),
                Operation::SetFocusAbsolute(_) => (Expect::Text, Pending::AxisFocusSet),
                _ => (Expect::Text, Pending::Accepted),
            },
            CameraModelHttp::Dahua(_) => match operation {
                Operation::GetFps => (Expect::Text, Pending::DahuaFps),
                Operation::SetFps(_) => (Expect::Text, Pending::DahuaConfigSet),
                Operation::SwitchSpotlight(_) => (Expect::Text, Pending::DahuaConfigSet),
                Operation::GetSpotlightState => (Expect::Text, Pending::DahuaSpotlight),
                Operation::GetFocusAbsolute => (Expect::Text, Pending::DahuaFocus(FocusPoll::first())),
                _ => (Expect::Text, Pending::Accepted),
            },
            CameraModelHttp::Stilsoft(_) => match operation {
                Operation::SwitchSpotlight(enabled) => (
                    Expect::Text,
                    Pending::StilsoftLogin(*enabled),
                ),
                _ => (Expect::Text, Pending::Accepted),
            },
            CameraModelHttp::Hikvision(c) => match operation {
                Operation::Init => (Expect::DeviceInfo, Pending::HikVersion),
                Operation::GetSpotlightState => if c.is_ptz {
                    (Expect::Filter, Pending::HikFilter)
                } else {
                    (Expect::Control, Pending::HikControl)
                },
                Operation::GetFps => (Expect::Video, Pending::HikFps),
                Operation::SetFps(fps) => (Expect::Video, Pending::HikFpsSet(*fps)),
                Operation::SetFocusContinuous(focus) => (
                    Expect::Status,
                    Pending::HikFocusStart(*focus),
                ),
                Operation::GetAdditionalConfiguration => (Expect::Image, Pending::HikImage),
                Operation::GetDefaultConfiguration => (Expect::Image, Pending::HikDefaultImage),
                Operation::SetAdditionalConfiguration(_) => (Expect::Video, Pending::HikDefaultsVideo),
                _ => (Expect::Text, Pending::Accepted),
            },
            CameraModelHttp::Unknown => (Expect::Text, Pending::Accepted),
        }
    }

    /// Begins `operation`.
    pub fn begin(&mut self, operation: Operation) -> (action: Action)
        ensures
            begun(*old(self), *final(self), operation, action),
    {
        let follow = self.follow(&operation);
        match operation {
            Operation::Init => lift_unit(self.init(), follow, OnvifRequest::GetFps),
            Operation::GetFps => lift_fps(self.get_fps(), follow, OnvifRequest::GetFps),
            Operation::SetFps(fps) => lift_unit(self.set_fps(fps), follow, OnvifRequest::SetFps(fps)),
            Operation::SwitchSpotlight(enabled) => lift_unit(
                self.switch_spotlight(enabled),
                follow,
                OnvifRequest::GetFps,
            ),
            Operation::GetSpotlightState => lift_flag(
                self.get_spotlight_state(),
                follow,
                OnvifRequest::GetFps,
            ),
            Operation::GetFocusCapabilities => lift_capabilities(
                self.get_focus_capabilities(),
                follow,
                OnvifRequest::GetFps,
            ),
            Operation::GetFocusContinuous => lift_continuous(
                self.get_focus_continuous(),
                follow,
                OnvifRequest::GetFps,
            ),
            Operation::SetFocusContinuous(focus) => lift_unit(
                self.set_focus_continuous(focus),
                follow,
                OnvifRequest::GetFps,
            ),
            Operation::GetFocusAbsolute => lift_focus(
                self.get_focus_absolute(),
                follow,
                OnvifRequest::GetFps,
            ),
            Operation::SetFocusAbsolute(focus) => lift_unit(
                self.set_focus_absolute(focus.as_str()),
                follow,
                OnvifRequest::GetFps,
            ),
            Operation::GetFocusRelative => lift_focus(
                self.get_focus_relative(),
                follow,
                OnvifRequest::GetFps,
            ),
            Operation::SetFocusRelative(focus) => lift_unit(
                self.set_focus_relative(focus.as_str()),
                follow,
                OnvifRequest::GetFps,
            ),
            Operation::SetDateTime(moment) => lift_unit(
                self.set_date_time(moment),
                follow,
                OnvifRequest::GetFps,
            ),
            Operation::GetAdditionalConfiguration => lift_configuration(
                self.get_additional_configuration(),
                follow,
                OnvifRequest::GetFps,
            ),
            Operation::SetAdditionalConfiguration(configuration) => lift_unit(
                self.set_additional_configuration(configuration),
                follow,
                OnvifRequest::GetFps,
            ),
            Operation::GetDefaultConfiguration => lift_configuration(
                self.get_default_configuration(),
                follow,
                OnvifRequest::GetFps,
            ),
        }
    }
}

/// The answer that is handed back is one that can follow what is pending.
pub open spec fn fits(pending: Pending, reply: Reply) -> bool {
    match pending {
        Pending::Accepted => true,
        Pending::Written
        | Pending::Writing(_)
        | Pending::HikFocusStart(_)
        | Pending::HikFocusStop(_)
        | Pending::HikDefaultsWritten => reply is Status,
        Pending::AxisFps
        | Pending::AxisFpsSet
        | Pending::AxisFocus
        | Pending::AxisFocusSet
        | Pending::DahuaFps
        | Pending::DahuaConfigSet
        | Pending::DahuaSpotlight
        | Pending::DahuaFocus(_)
        | Pending::StilsoftLogin(_)
        | Pending::StilsoftProfile(_) => reply is Text,
        Pending::AxisPorts => reply is AxisPorts,
        Pending::AxisTimeZone(_) => reply is AxisAccepted,
        Pending::AxisFocusRead | Pending::DahuaFocusRead(_, _) => reply is Numbers,
        Pending::DahuaFocusSleep(_) => reply is Woken,
        Pending::HikVersion => reply is DeviceInfo,
        Pending::HikPtz => reply is PtzChannel,
        Pending::HikOutputs => reply is Outputs,
        Pending::HikFilter => reply is Filter,
        Pending::HikControl => reply is Control,
        Pending::HikFps
        | Pending::HikFpsSet(_)
        | Pending::HikVideo(_)
        | Pending::HikDefaultVideo(_)
        | Pending::HikDefaultsVideo => reply is Video,
        Pending::HikImage | Pending::HikDefaultImage | Pending::HikDefaultsImage(_) => reply
            is Image,
    }
}

/// What is pending is pending for an operation of this camera.
pub open spec fn adapter_fits(camera: CameraModelHttp, pending: Pending) -> bool {
    match pending {
        Pending::AxisTimeZone(_) => camera is Axis,
        Pending::DahuaFocusSleep(_) => camera is Dahua,
        Pending::StilsoftLogin(_) | Pending::StilsoftProfile(_) => camera is Stilsoft,
        Pending::HikVersion
        | Pending::HikPtz
        | Pending::HikOutputs
        | Pending::HikFpsSet(_)
        | Pending::HikFocusStart(_)
        | Pending::HikFocusStop(_)
        | Pending::HikImage
        | Pending::HikVideo(_)
        | Pending::HikDefaultImage
        | Pending::HikDefaultVideo(_)
        | Pending::HikDefaultsVideo
        | Pending::HikDefaultsWritten
        | Pending::HikDefaultsImage(_) => camera is Hikvision,
        _ => true,
    }
}

/// The numbers that the answer holds are within what the machine can hold:
/// a frame rate fits in 32 bits, and in 64 bits when written in hundredths;
/// a filter control holds the manual position that it is read by.
pub open spec fn within_limits(pending: Pending, reply: Reply) -> bool {
    match (pending, reply) {
        (Pending::AxisFps, Reply::Text(text)) => first_int_fits(text@),
        (Pending::DahuaFps, Reply::Text(text)) => reported_fps_fits(text@),
        (Pending::HikControl, Reply::Control(control)) => control.has_manual_position(),
        (Pending::HikFpsSet(fps), Reply::Video(_)) => fps * 100 <= u64::MAX,
        _ => true,
    }
}

/// The answer is one that the camera expects for what is pending: what is
/// pending is pending for this camera, and the answer is a failure or fits.
pub open spec fn expected(camera: CameraModelHttp, pending: Pending, reply: Reply) -> bool {
    &&& adapter_fits(camera, pending)
    &&& reply is Failed || fits(pending, reply)
}

/// The answer is expected and within limits.
pub open spec fn allowed(camera: CameraModelHttp, pending: Pending, reply: Reply) -> bool {
    &&& expected(camera, pending, reply)
    &&& within_limits(pending, reply)
}

/// The operation takes a failure of the call up itself: it goes on, or it
/// ends with a failure that came before.
pub open spec fn tolerant(pending: Pending) -> bool {
    pending is HikVersion || pending is HikPtz || pending is HikImage || pending is HikVideo
        || pending is HikDefaultsWritten || pending is HikDefaultsImage || pending is Writing
}

/// The answer of an operation that reads a focus position.
pub open spec fn focus_answer(answer: Result<FocusValue, IpCamerasError>) -> Result<
    Outcome,
    IpCamerasError,
> {
    match answer {
        Ok(value) => Ok(Outcome::Focus(value)),
        Err(e) => Err(e),
    }
}

/// The failure of the given kind.
pub open spec fn failure(kind: ErrorKind) -> IpCamerasError {
    IpCamerasError::Std { kind }
}

pub open spec fn as_info(reply: Reply) -> Result<DeviceInfo, IpCamerasError> {
    match reply {
        Reply::DeviceInfo(info) => Ok(info),
        Reply::Failed(e) => Err(e),
        _ => Err(IpCamerasError::NotSet),
    }
}

pub open spec fn as_ptz(reply: Reply) -> Result<PTZChannel, IpCamerasError> {
    match reply {
        Reply::PtzChannel(channel) => Ok(channel),
        Reply::Failed(e) => Err(e),
        _ => Err(IpCamerasError::NotSet),
    }
}

pub open spec fn as_image(reply: Reply) -> Result<ImageChannel, IpCamerasError> {
    match reply {
        Reply::Image(image) => Ok(image),
        Reply::Failed(e) => Err(e),
        _ => Err(IpCamerasError::NotSet),
    }
}

pub open spec fn as_video(reply: Reply) -> Result<StreamingChannel, IpCamerasError> {
    match reply {
        Reply::Video(video) => Ok(video),
        Reply::Failed(e) => Err(e),
        _ => Err(IpCamerasError::NotSet),
    }
}

pub open spec fn as_status(reply: Reply) -> Result<Response, IpCamerasError> {
    match reply {
        Reply::Status(response) => Ok(response),
        Reply::Failed(e) => Err(e),
        _ => Err(IpCamerasError::NotSet),
    }
}

/// `action` is what follows for a Hikvision camera `b`, which is left as
/// `a`, when `reply` is handed back while `pending` is pending.
pub open spec fn resumed_hikvision(
    b: HikvisionHttp,
    a: HikvisionHttp,
    pending: Pending,
    reply: Reply,
    action: Action,
) -> bool {
    let none = (Expect::Text, Pending::Accepted);
    match pending {
        Pending::HikVersion => exists|step: Step<()>|
            #[trigger] a.init_version_spec(&b, as_info(reply), step) && lifted(
                step,
                |v: ()| Outcome::Unit,
                (Expect::PtzChannel, Pending::HikPtz),
                OnvifRequest::GetFps,
                action,
            ),
        Pending::HikPtz => exists|step: Step<()>|
            #[trigger] a.init_ptz_spec(&b, as_ptz(reply), step) && lifted(
                step,
                |v: ()| Outcome::Unit,
                (Expect::Outputs, Pending::HikOutputs),
                OnvifRequest::GetFps,
                action,
            ),
        Pending::HikOutputs => exists|step: Step<()>|
            #[trigger] a.init_projectors_spec(&b, Ok(reply->Outputs_0), step) && lifted(
                step,
                |v: ()| Outcome::Unit,
                none,
                OnvifRequest::GetFps,
                action,
            ),
        Pending::HikFpsSet(fps) => a == b && (action matches Action::Ask(call, expect, next)
            && expect == Expect::Status && next == Pending::Written && b.fps_write_spec(
            reply->Video_0,
            fps,
            call,
        )),
        Pending::HikFocusStart(focus) => a == b && match write_outcome(Ok(reply->Status_0)) {
            Err(e) => action == Action::Done(Err(e)),
            Ok(_) => exists|stop: Result<Call, IpCamerasError>|
                #[trigger] b.focus_stop_spec(stop) && match stop {
                    Ok(call) => action == Action::Ask(
                        call,
                        Expect::Status,
                        Pending::HikFocusStop(focus),
                    ),
                    Err(e) => action == Action::Done(Err(e)),
                },
        },
        Pending::HikFocusStop(focus) => match write_outcome(Ok(reply->Status_0)) {
            Err(e) => a == b && action == Action::Done(Err(e)),
            Ok(_) => a.finish_focus_continuous_spec(&b, focus) && action == Action::Done(
                Ok(Outcome::Unit),
            ),
        },
        Pending::HikImage => a == b && exists|
            next: (Option<ImageChannel>, Step<AdditionalConfiguration>),
        |
            #[trigger] b.configuration_after_image_spec(as_image(reply), next) && lifted(
                next.1,
                |v: AdditionalConfiguration| Outcome::Configuration(v),
                (
                    Expect::Video,
                    match next.0 {
                        Some(image) => Pending::HikVideo(image),
                        None => Pending::Accepted,
                    },
                ),
                OnvifRequest::GetFps,
                action,
            ),
        Pending::HikVideo(image) => a == b && (
        action matches Action::Done(Ok(Outcome::Configuration(configuration)))
            && b.configuration_after_video_spec(image, as_video(reply), configuration)),
        Pending::HikDefaultImage => a == b && (action matches Action::Ask(call, expect, next)
            && expect == Expect::Video && next == Pending::HikDefaultVideo(reply->Image_0)
            && call.reads(isapi(b.spec_host(), "/ISAPI/Streaming/channels/1"@))),
        Pending::HikDefaultVideo(image) => a == b && (
        action matches Action::Done(Ok(Outcome::Configuration(configuration)))
            && b.default_configuration_spec(image, reply->Video_0, configuration)),
        Pending::HikDefaultsVideo => a == b && (action matches Action::Ask(call, expect, next)
            && expect == Expect::Status && next == Pending::HikDefaultsWritten
            && b.default_video_write_spec(reply->Video_0, call)),
        Pending::HikDefaultsWritten => a == b && (action matches Action::Ask(call, expect, next)
            && expect == Expect::Image && next == Pending::HikDefaultsImage(
            write_outcome(as_status(reply)),
        ) && call.reads(isapi(b.spec_host(), "/ISAPI/Image/channels/1"@))),
        Pending::HikDefaultsImage(written) => a == b && match reply {
            Reply::Failed(e) => action == Action::Done(
                written_answer(first_of(failure_of(written), Some(e))),
            ),
            _ => exists|stage: Stage|
                #[trigger] b.default_image_stage_spec(reply->Image_0, stage) && advanced(
                    Seq::empty(),
                    stage.parts@,
                    stage.lenient,
                    Seq::empty(),
                    failure_of(written),
                    action,
                ),
        },
        _ => false,
    }
}

/// `action` is what follows when `reply` is handed back to the camera
/// `before` while `pending` is pending, and `after` is how the camera is
/// left.
///
/// A failure ends the operation with itself, except where the operation
/// tolerates it: the initialisation of a Hikvision camera goes on without
/// the firmware and takes a camera whose pan and tilt channel cannot be read
/// for a fixed one; its configuration is made without the channels that
/// cannot be read; and the recommended settings are written to the image
/// channel however the write of the streaming channel ended, whose failure
/// comes before any later one. In a composite write a failure is the
/// outcome of its part, and the write goes on.
///
/// An answer that the camera does not expect for what is pending ends the
/// operation as not set and leaves the camera as it was.
pub open spec fn resumed(
    before: CameraModelHttp,
    after: CameraModelHttp,
    pending: Pending,
    reply: Reply,
    action: Action,
) -> bool {
    if reply is Failed && !tolerant(pending) {
        after == before && action == Action::Done(Err(reply->Failed_0))
    } else if !expected(before, pending, reply) {
        after == before && action == Action::Done(Err(IpCamerasError::NotSet))
    } else {
        match pending {
            Pending::Accepted => after == before && action == Action::Done(Ok(Outcome::Unit)),
            Pending::Writing(writing) => after == before && advanced(
                writing.outcomes@.push(write_outcome(as_status(reply))),
                writing.parts@,
                writing.lenient,
                writing.stages@,
                writing.failure,
                action,
            ),
            Pending::Written => after == before && action == Action::Done(
                unit_answer(write_outcome(Ok(reply->Status_0))),
            ),
            Pending::AxisFps => after == before && action == Action::Done(
                match first_int(reply->Text_0@) {
                    Some(n) => Ok(Outcome::Fps(n as FpsValue)),
                    None => Err(failure(ErrorKind::InvalidData)),
                },
            ),
            Pending::AxisFpsSet => after == before && action == Action::Done(
                if starts_with(reply->Text_0@, "OK"@) {
                    Ok(Outcome::Unit)
                } else {
                    Err(failure(ErrorKind::InvalidData))
                },
            ),
            Pending::AxisPorts => after == before && action == Action::Done(
                match spotlight_state_of(reply->AxisPorts_0.items@) {
                    Some(on) => Ok(Outcome::Flag(on)),
                    None => Err(failure(ErrorKind::NotFound)),
                },
            ),
            Pending::AxisTimeZone(moment) => after == before && (
            action matches Action::Ask(call, expect, next) && expect == Expect::AxisAccepted
                && next == Pending::Accepted && (before matches CameraModelHttp::Axis(c)
                && c.set_date_time_call_spec(moment, call))),
            Pending::AxisFocus => after == before && (action matches Action::Read(texts, next)
                && next == Pending::AxisFocusRead && views(texts@) == element_attribute_values(
                xml_nodes(reply->Text_0@),
                "opticsSetupState"@,
                "focusPosition"@,
            )),
            Pending::AxisFocusRead => after == before && action == Action::Done(
                match first_read(reply->Numbers_0@) {
                    Some(value) => Ok(Outcome::Focus(value)),
                    None => Err(failure(ErrorKind::InvalidData)),
                },
            ),
            Pending::AxisFocusSet => after == before && action == Action::Done(
                if starts_with(reply->Text_0@, "ok"@) {
                    Ok(Outcome::Unit)
                } else {
                    Err(failure(ErrorKind::InvalidData))
                },
            ),
            Pending::DahuaFps => after == before && action == Action::Done(
                match reported_fps(reply->Text_0@) {
                    Some(n) => Ok(Outcome::Fps(n as FpsValue)),
                    None => Err(IpCamerasError::Fps),
                },
            ),
            Pending::DahuaConfigSet => after == before && action == Action::Done(
                if contains(reply->Text_0@, "OK"@) {
                    Ok(Outcome::Unit)
                } else {
                    Err(failure(ErrorKind::InvalidInput))
                },
            ),
            Pending::DahuaSpotlight => after == before && action == Action::Done(
                match reported_spotlight(reply->Text_0@) {
                    Some(on) => Ok(Outcome::Flag(on)),
                    None => Err(failure(ErrorKind::InvalidInput)),
                },
            ),
            Pending::DahuaFocus(poll) => after == before && (
            action matches Action::Read(texts, next) && views(texts@) == focus_positions(
                lines(reply->Text_0@),
            ) && next == Pending::DahuaFocusRead(poll, reports_normal(lines(reply->Text_0@)))),
            Pending::DahuaFocusRead(poll, normal) => after == before && exists|step: PollStep|
                #[trigger] poll.after_poll_spec(verdict_of(reply->Numbers_0@, normal), step)
                    && match step {
                    PollStep::Done(answer) => action == Action::Done(focus_answer(answer)),
                    PollStep::Sleep(millis) => action == Action::Sleep(
                        millis,
                        Pending::DahuaFocusSleep(poll),
                    ),
                },
            Pending::DahuaFocusSleep(poll) => after == before && (
            before matches CameraModelHttp::Dahua(c) && exists|
                next: FocusPoll,
                step: Step<FocusValue>,
            |
                #[trigger] next.after_sleep_spec(&poll, &c, step) && lifted(
                    step,
                    |v: FocusValue| Outcome::Focus(v),
                    (Expect::Text, Pending::DahuaFocus(next)),
                    OnvifRequest::GetFps,
                    action,
                )),
            Pending::StilsoftLogin(enabled) => after == before && (
            before matches CameraModelHttp::Stilsoft(c) && exists|step: Step<()>|
                #[trigger] c.after_login_spec(reply->Text_0@, enabled, step) && lifted(
                    step,
                    |v: ()| Outcome::Unit,
                    (Expect::Text, Pending::StilsoftProfile(enabled)),
                    OnvifRequest::GetFps,
                    action,
                )),
            Pending::StilsoftProfile(enabled) => match (before, after) {
                (CameraModelHttp::Stilsoft(b), CameraModelHttp::Stilsoft(a)) => exists|
                    answer: Result<(), IpCamerasError>,
                |
                    #[trigger] a.finish_switch_spec(&b, reply->Text_0@, enabled, answer) && action
                        == Action::Done(unit_answer(answer)),
                _ => false,
            },
            Pending::HikFilter => after == before && action == Action::Done(
                Ok(Outcome::Flag(reply->Filter_0.ircut_filter_type.spec_enabled())),
            ),
            Pending::HikControl => after == before && action == Action::Done(
                Ok(
                    Outcome::Flag(
                        reply->Control_0.icr_ctrl.manual_mode->0.manual_preset_val.spec_enabled(),
                    ),
                ),
            ),
            Pending::HikFps => after == before && action == Action::Done(
                Ok(Outcome::Fps((reply->Video_0.video.max_frame_rate / 100) as FpsValue)),
            ),
            _ => match (before, after) {
                (CameraModelHttp::Hikvision(b), CameraModelHttp::Hikvision(a)) => resumed_hikvision(
                    b,
                    a,
                    pending,
                    reply,
                    action,
                ),
                _ => false,
            },
        }
    }
}

fn to_focus_answer(answer: Result<FocusValue, IpCamerasError>) -> (lifted: Result<
    Outcome,
    IpCamerasError,
>)
    ensures
        lifted == focus_answer(answer),
{
    match answer {
        Ok(value) => Ok(Outcome::Focus(value)),
        Err(e) => Err(e),
    }
}

impl Pending {
    /// Whether the operation takes a failure of the call up itself.
    pub fn tolerates_failure(&self) -> (tolerates: bool)
        ensures
            tolerates == tolerant(*self),
    {
        match self {
            Pending::HikVersion
            | Pending::HikPtz
            | Pending::HikImage
            | Pending::HikVideo(_)
            | Pending::HikDefaultsWritten
            | Pending::HikDefaultsImage(_)
            | Pending::Writing(_) => true,
            _ => false,
        }
    }

    /// Whether `reply` is an answer that can follow what is pending.
    pub fn fits(&self, reply: &Reply) -> (fitting: bool)
        ensures
            fitting == fits(*self, *reply),
    {
        match self {
            Pending::Accepted => true,
            Pending::Written
            | Pending::Writing(_)
            | Pending::HikFocusStart(_)
            | Pending::HikFocusStop(_)
            | Pending::HikDefaultsWritten => match reply {
                Reply::Status(_) => true,
                _ => false,
            },
            Pending::AxisFps
            | Pending::AxisFpsSet
            | Pending::AxisFocus
            | Pending::AxisFocusSet
            | Pending::DahuaFps
            | Pending::DahuaConfigSet
            | Pending::DahuaSpotlight
            | Pending::DahuaFocus(_)
            | Pending::StilsoftLogin(_)
            | Pending::StilsoftProfile(_) => match reply {
                Reply::Text(_) => true,
                _ => false,
            },
            Pending::AxisPorts => match reply {
                Reply::AxisPorts(_) => true,
                _ => false,
            },
            Pending::AxisTimeZone(_) => match reply {
                Reply::AxisAccepted => true,
                _ => false,
            },
            Pending::AxisFocusRead | Pending::DahuaFocusRead(_, _) => match reply {
                Reply::Numbers(_) => true,
                _ => false,
            },
            Pending::DahuaFocusSleep(_) => match reply {
                Reply::Woken => true,
                _ => false,
            },
            Pending::HikVersion => match reply {
                Reply::DeviceInfo(_) => true,
                _ => false,
            },
            Pending::HikPtz => match reply {
                Reply::PtzChannel(_) => true,
                _ => false,
            },
            Pending::HikOutputs => match reply {
                Reply::Outputs(_) => true,
                _ => false,
            },
            Pending::HikFilter => match reply {
                Reply::Filter(_) => true,
                _ => false,
            },
            Pending::HikControl => match reply {
                Reply::Control(_) => true,
                _ => false,
            },
            Pending::HikFps
            | Pending::HikFpsSet(_)
            | Pending::HikVideo(_)
            | Pending::HikDefaultVideo(_)
            | Pending::HikDefaultsVideo => match reply {
                Reply::Video(_) => true,
                _ => false,
            },
            Pending::HikImage | Pending::HikDefaultImage | Pending::HikDefaultsImage(_) => match reply {
                Reply::Image(_) => true,
                _ => false,
            },
        }
    }

    /// Whether the numbers that `reply` holds are within what the machine
    /// can hold.
    pub fn within_limits(&self, reply: &Reply) -> (within: bool)
        ensures
            within == within_limits(*self, *reply),
    {
        match (self, reply) {
            (Pending::AxisFps, Reply::Text(text)) => first_int_in_range(text.as_str()),
            (Pending::DahuaFps, Reply::Text(text)) => DahuaHttp::output_in_range(text.as_str()),
            (Pending::HikControl, Reply::Control(control)) => control.icr_ctrl.manual_mode.is_some(),
            (Pending::HikFpsSet(fps), Reply::Video(_)) => *fps <= u64::MAX / 100,
            _ => true,
        }
    }
}

impl CameraModelHttp {
    /// Whether `reply` is an answer that the camera expects for what is
    /// pending.
    pub fn expects(&self, pending: &Pending, reply: &Reply) -> (may: bool)
        ensures
            may == expected(*self, *pending, *reply),
    {
        let adapter = match pending {
            Pending::AxisTimeZone(_) => match self {
                CameraModelHttp::Axis(_) => true,
                _ => false,
            },
            Pending::DahuaFocusSleep(_) => match self {
                CameraModelHttp::Dahua(_) => true,
                _ => false,
            },
            Pending::StilsoftLogin(_) | Pending::StilsoftProfile(_) => match self {
                CameraModelHttp::Stilsoft(_) => true,
                _ => false,
            },
            Pending::HikVersion
            | Pending::HikPtz
            | Pending::HikOutputs
            | Pending::HikFpsSet(_)
            | Pending::HikFocusStart(_)
            | Pending::HikFocusStop(_)
            | Pending::HikImage
            | Pending::HikVideo(_)
            | Pending::HikDefaultImage
            | Pending::HikDefaultVideo(_)
            | Pending::HikDefaultsVideo
            | Pending::HikDefaultsWritten
            | Pending::HikDefaultsImage(_) => match self {
                CameraModelHttp::Hikvision(_) => true,
                _ => false,
            },
            _ => true,
        };
        let failed = match reply {
            Reply::Failed(_) => true,
            _ => false,
        };
        adapter && (failed || pending.fits(reply))
    }

    /// Whether `reply` is expected for what is pending and within limits.
    pub fn allows(&self, pending: &Pending, reply: &Reply) -> (may: bool)
        ensures
            may == allowed(*self, *pending, *reply),
    {
        self.expects(pending, reply) && pending.within_limits(reply)
    }

    /// Goes on with the operation of which `pending` is pending, now that
    /// `reply` is handed back.
    pub fn resume(&mut self, pending: Pending, reply: Reply) -> (action: Action)
        requires
            within_limits(pending, reply),
        ensures
            resumed(*old(self), *final(self), pending, reply, action),
    {
        let request = OnvifRequest::GetFps;
        if !pending.tolerates_failure() {
            match reply {
                Reply::Failed(e) => {
                    return Action::Done(Err(e));
                },
                _ => {},
            }
        }
        if !self.expects(&pending, &reply) {
            return Action::Done(Err(IpCamerasError::NotSet));
        }
        match (pending, reply) {
            (Pending::Accepted, _) => Action::Done(Ok(Outcome::Unit)),
            (Pending::Writing(writing), Reply::Status(response)) => {
                let Writing { outcomes, parts, lenient, stages, failure } = writing;
                let mut outcomes = outcomes;
                outcomes.push(send(Ok(response)));
                advance(Writing { outcomes, parts, lenient, stages, failure })
            },
            (Pending::Writing(writing), Reply::Failed(e)) => {
                let Writing { outcomes, parts, lenient, stages, failure } = writing;
                let mut outcomes = outcomes;
                outcomes.push(send(Err(e)));
                advance(Writing { outcomes, parts, lenient, stages, failure })
            },
            (Pending::Written, Reply::Status(response)) => Action::Done(
                to_unit_answer(send(Ok(response))),
            ),
            (Pending::AxisFps, Reply::Text(text)) => Action::Done(
                match AxisHttp::fps_from_reply(text.as_str()) {
                    Ok(fps) => Ok(Outcome::Fps(fps)),
                    Err(e) => Err(e),
                },
            ),
            (Pending::AxisFpsSet, Reply::Text(text)) => Action::Done(
                to_unit_answer(AxisHttp::fps_set_from_reply(text.as_str())),
            ),
            (Pending::AxisPorts, Reply::AxisPorts(data)) => Action::Done(
                match AxisHttp::spotlight_state_from_reply(&data) {
                    Ok(on) => Ok(Outcome::Flag(on)),
                    Err(e) => Err(e),
                },
            ),
            (Pending::AxisTimeZone(moment), Reply::AxisAccepted) => match self {
                CameraModelHttp::Axis(c) => Action::Ask(
                    c.set_date_time_call(moment),
                    Expect::AxisAccepted,
                    Pending::Accepted,
                ),
                _ => Action::Done(Err(IpCamerasError::NotSet)),
            },
            (Pending::AxisFocus, Reply::Text(text)) => Action::Read(
                AxisHttp::focus_positions_from_reply(text.as_str()),
                Pending::AxisFocusRead,
            ),
            (Pending::AxisFocusRead, Reply::Numbers(numbers)) => Action::Done(
                to_focus_answer(AxisHttp::focus_from_positions(&numbers)),
            ),
            (Pending::AxisFocusSet, Reply::Text(text)) => Action::Done(
                to_unit_answer(AxisHttp::focus_set_from_reply(text.as_str())),
            ),
            (Pending::DahuaFps, Reply::Text(text)) => Action::Done(
                match DahuaHttp::fps_from_reply(text.as_str()) {
                    Ok(fps) => Ok(Outcome::Fps(fps)),
                    Err(e) => Err(e),
                },
            ),
            (Pending::DahuaConfigSet, Reply::Text(text)) => Action::Done(
                to_unit_answer(DahuaHttp::config_set_from_reply(text.as_str())),
            ),
            (Pending::DahuaSpotlight, Reply::Text(text)) => Action::Done(
                match DahuaHttp::spotlight_state_from_reply(text.as_str()) {
                    Ok(on) => Ok(Outcome::Flag(on)),
                    Err(e) => Err(e),
                },
            ),
            (Pending::DahuaFocus(poll), Reply::Text(text)) => {
                let status = DahuaHttp::read_focus_status(text.as_str());
                Action::Read(status.positions, Pending::DahuaFocusRead(poll, status.normal))
            },
            (Pending::DahuaFocusRead(poll, normal), Reply::Numbers(numbers)) => {
                match poll.after_poll(judge(&numbers, normal)) {
                    PollStep::Done(answer) => Action::Done(to_focus_answer(answer)),
                    PollStep::Sleep(millis) => Action::Sleep(millis, Pending::DahuaFocusSleep(poll)),
                }
            },
            (Pending::DahuaFocusSleep(poll), Reply::Woken) => match self {
                CameraModelHttp::Dahua(c) => {
                    let mut next = poll;
                    let step = next.after_sleep(c);
                    lift_focus(step, (Expect::Text, Pending::DahuaFocus(next)), request)
                },
                _ => Action::Done(Err(IpCamerasError::NotSet)),
            },
            (Pending::StilsoftLogin(enabled), Reply::Text(text)) => match self {
                CameraModelHttp::Stilsoft(c) => lift_unit(
                    c.after_login(text.as_str(), enabled),
                    (Expect::Text, Pending::StilsoftProfile(enabled)),
                    request,
                ),
                _ => Action::Done(Err(IpCamerasError::NotSet)),
            },
            (Pending::StilsoftProfile(enabled), Reply::Text(text)) => match self {
                CameraModelHttp::Stilsoft(c) => Action::Done(
                    to_unit_answer(c.finish_switch(text.as_str(), enabled)),
                ),
                _ => Action::Done(Err(IpCamerasError::NotSet)),
            },
            (Pending::HikFilter, Reply::Filter(filter)) => Action::Done(
                Ok(Outcome::Flag(HikvisionHttp::spotlight_from_filter(filter))),
            ),
            (Pending::HikControl, Reply::Control(control)) => Action::Done(
                Ok(Outcome::Flag(HikvisionHttp::spotlight_from_icr(control))),
            ),
            (Pending::HikFps, Reply::Video(video)) => Action::Done(
                Ok(Outcome::Fps(HikvisionHttp::fps_from_channel(&video))),
            ),
            (pending, reply) => match self {
                CameraModelHttp::Hikvision(c) => resume_hikvision(c, pending, reply),
                _ => Action::Done(Err(IpCamerasError::NotSet)),
            },
        }
    }
}

fn resume_hikvision(c: &mut HikvisionHttp, pending: Pending, reply: Reply) -> (action: Action)
    requires
        allowed(CameraModelHttp::Hikvision(*old(c)), pending, reply),
        !(reply is Failed) || tolerant(pending),
        pending is HikVersion || pending is HikPtz || pending is HikOutputs || pending
            is HikFpsSet || pending is HikFocusStart || pending is HikFocusStop || pending
            is HikImage || pending is HikVideo || pending is HikDefaultImage || pending
            is HikDefaultVideo || pending is HikDefaultsVideo || pending is HikDefaultsWritten
            || pending is HikDefaultsImage,
    ensures
        resumed_hikvision(*old(c), *final(c), pending, reply, action),
{
    let none = (Expect::Text, Pending::Accepted);
    let request = OnvifRequest::GetFps;
    match (pending, reply) {
        (Pending::HikVersion, Reply::DeviceInfo(info)) => lift_unit(
            c.init_version(Ok(info)),
            (Expect::PtzChannel, Pending::HikPtz),
            request,
        ),
        (Pending::HikVersion, Reply::Failed(e)) => lift_unit(
            c.init_version(Err(e)),
            (Expect::PtzChannel, Pending::HikPtz),
            request,
        ),
        (Pending::HikPtz, Reply::PtzChannel(channel)) => lift_unit(
            c.init_ptz(Ok(channel)),
            (Expect::Outputs, Pending::HikOutputs),
            request,
        ),
        (Pending::HikPtz, Reply::Failed(e)) => lift_unit(
            c.init_ptz(Err(e)),
            (Expect::Outputs, Pending::HikOutputs),
            request,
        ),
        (Pending::HikOutputs, Reply::Outputs(outputs)) => lift_unit(
            c.init_projectors(Ok(outputs)),
            none,
            request,
        ),
        (Pending::HikFpsSet(fps), Reply::Video(video)) => Action::Ask(
            c.fps_write(video, fps),
            Expect::Status,
            Pending::Written,
        ),
        (Pending::HikFocusStart(focus), Reply::Status(response)) => match send(Ok(response)) {
            Err(e) => Action::Done(Err(e)),
            Ok(_) => match c.focus_stop() {
                Ok(call) => Action::Ask(call, Expect::Status, Pending::HikFocusStop(focus)),
                Err(e) => Action::Done(Err(e)),
            },
        },
        (Pending::HikFocusStop(focus), Reply::Status(response)) => match send(Ok(response)) {
            Err(e) => Action::Done(Err(e)),
            Ok(_) => {
                c.finish_focus_continuous(focus);
                Action::Done(Ok(Outcome::Unit))
            },
        },
        (Pending::HikImage, Reply::Image(image)) => {
            let (kept, step) = c.configuration_after_image(Ok(image));
            match kept {
                Some(image) => lift_configuration(
                    step,
                    (Expect::Video, Pending::HikVideo(image)),
                    request,
                ),
                None => lift_configuration(step, (Expect::Video, Pending::Accepted), request),
            }
        },
        (Pending::HikImage, Reply::Failed(e)) => {
            let (kept, step) = c.configuration_after_image(Err(e));
            match kept {
                Some(image) => lift_configuration(
                    step,
                    (Expect::Video, Pending::HikVideo(image)),
                    request,
                ),
                None => lift_configuration(step, (Expect::Video, Pending::Accepted), request),
            }
        },
        (Pending::HikVideo(image), Reply::Video(video)) => Action::Done(
            Ok(Outcome::Configuration(c.configuration_after_video(image, Ok(video)))),
        ),
        (Pending::HikVideo(image), Reply::Failed(e)) => Action::Done(
            Ok(Outcome::Configuration(c.configuration_after_video(image, Err(e)))),
        ),
        (Pending::HikDefaultImage, Reply::Image(image)) => Action::Ask(
            c.retrieve_video_settings(),
            Expect::Video,
            Pending::HikDefaultVideo(image),
        ),
        (Pending::HikDefaultVideo(image), Reply::Video(video)) => Action::Done(
            Ok(Outcome::Configuration(c.default_configuration(image, video))),
        ),
        (Pending::HikDefaultsVideo, Reply::Video(video)) => Action::Ask(
            c.default_video_write(video),
            Expect::Status,
            Pending::HikDefaultsWritten,
        ),
        (Pending::HikDefaultsWritten, Reply::Status(response)) => Action::Ask(
            c.retrieve_image_channel(),
            Expect::Image,
            Pending::HikDefaultsImage(send(Ok(response))),
        ),
        (Pending::HikDefaultsWritten, Reply::Failed(e)) => Action::Ask(
            c.retrieve_image_channel(),
            Expect::Image,
            Pending::HikDefaultsImage(send(Err(e))),
        ),
        (Pending::HikDefaultsImage(written), Reply::Failed(e)) => Action::Done(
            Err(
                match to_failure(written) {
                    Some(first) => first,
                    None => e,
                },
            ),
        ),
        (Pending::HikDefaultsImage(written), Reply::Image(image)) => {
            let stage = c.default_image_stage(image);
            advance(
                Writing {
                    outcomes: Vec::new(),
                    parts: stage.parts,
                    lenient: stage.lenient,
                    stages: Vec::new(),
                    failure: to_failure(written),
                },
            )
        },
        _ => Action::Done(Err(IpCamerasError::NotSet)),
    }
}

impl Operation {
    /// The operation of the capability contract, without what it is given.
    pub open spec fn capability(self) -> Capability {
        match self {
            Operation::Init => Capability::Init,
            Operation::GetFps => Capability::GetFps,
            Operation::SetFps(_) => Capability::SetFps,
            Operation::SwitchSpotlight(_) => Capability::SwitchSpotlight,
            Operation::GetSpotlightState => Capability::GetSpotlightState,
            Operation::GetFocusCapabilities => Capability::GetFocusCapabilities,
            Operation::GetFocusContinuous => Capability::GetFocusContinuous,
            Operation::SetFocusContinuous(_) => Capability::SetFocusContinuous,
            Operation::GetFocusAbsolute => Capability::GetFocusAbsolute,
            Operation::SetFocusAbsolute(_) => Capability::SetFocusAbsolute,
            Operation::GetFocusRelative => Capability::GetFocusRelative,
            Operation::SetFocusRelative(_) => Capability::SetFocusRelative,
            Operation::SetDateTime(_) => Capability::SetDateTime,
            Operation::GetAdditionalConfiguration => Capability::GetAdditionalConfiguration,
            Operation::SetAdditionalConfiguration(_) => Capability::SetAdditionalConfiguration,
            Operation::GetDefaultConfiguration => Capability::GetDefaultConfiguration,
        }
    }
}

/// An operation that the adapter of a camera does not carry out ends at
/// once as unsupported and leaves the camera as it was, so that it ends in
/// the same way however often it is begun.
pub proof fn lemma_unsupported_ends_at_once(
    before: CameraModelHttp,
    after: CameraModelHttp,
    operation: Operation,
    action: Action,
)
    requires
        !before.overrides(operation.capability()),
        begun(before, after, operation, action),
    ensures
        after == before,
        action == Action::Done(Err(IpCamerasError::NotAvialiableApi)),
{
}

} // verus!

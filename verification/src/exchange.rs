//! One step of an operation: either its answer, or the call to the camera
//! that it goes on with.
//!
//! The library decides; it neither sends nor encodes. A call names its
//! address and carries its payload as a value, which the transport encodes.

use vstd::prelude::*;

use crate::axis::{ApiRequest, GenericApiRequest, Port, SetDateTimeRequest, SetTimeZoneRequest};
use crate::dahua::Config;
use crate::daynight::{ImageIcrE, IrcutFilter};
use crate::device::{FocusData, NTPServer, Time};
use crate::domain::OnvifParams;
use crate::error::IpCamerasError;
use crate::image::{
    BrightEnhance, Color, Exposure, Gain, GammaCorrection, NoiseReduce, NoiseReduce2D,
    NoiseReduceExt, Sharpness, Shutter, WhiteBalance, HLC,
};
use crate::request::{Header, Method};
use crate::signal::SyncSignalOutputList;
use crate::streaming::StreamingChannel;

verus! {

/// A value that is written to a Hikvision camera, encoded as XML.
#[derive(Debug)]
pub enum HikPayload {
    SyncSignalOutputList(SyncSignalOutputList),
    ImageIcrE(ImageIcrE),
    IrcutFilter(IrcutFilter),
    StreamingChannel(StreamingChannel),
    FocusData(FocusData),
    Color(Color),
    Sharpness(Sharpness),
    WhiteBalance(WhiteBalance),
    BrightEnhance(BrightEnhance),
    Shutter(Shutter),
    NoiseReduce2D(NoiseReduce2D),
    Gain(Gain),
    GammaCorrection(GammaCorrection),
    NoiseReduce(NoiseReduce),
    HLC(HLC),
    Exposure(Exposure),
    NoiseReduceExt(NoiseReduceExt),
    Time(Time),
    NTPServer(NTPServer),
}

/// What a call carries.
#[derive(Debug)]
pub enum Payload {
    /// Nothing.
    Empty,
    /// A body that is sent as it stands.
    Text(String),
    /// A port request to an Axis camera, encoded as JSON.
    AxisPorts(ApiRequest<Vec<Port>>),
    /// A time zone for an Axis camera, encoded as JSON.
    AxisTimeZone(GenericApiRequest<SetTimeZoneRequest>),
    /// A date and time for an Axis camera, encoded as JSON.
    AxisDateTime(GenericApiRequest<SetDateTimeRequest>),
    /// Settings of a Dahua camera, encoded as query parameters and appended
    /// to the address.
    DahuaConfig(Config),
    /// A value for a Hikvision camera, encoded as XML.
    Hik(HikPayload),
}

/// A call to a camera.
#[derive(Debug)]
pub struct Call {
    pub url: String,
    pub payload: Payload,
    pub method: Method,
    pub headers: Option<Vec<Header>>,
}

/// One part of a composite write.
#[derive(Debug)]
pub enum Part {
    /// The part is this call.
    Write(Call),
    /// The part has nothing to write, and fails as unsupported without a
    /// call.
    Unsupported,
}

/// The parts of a composite write that are carried out together: each of
/// them in its turn, however those before it ended.
#[derive(Debug)]
pub struct Stage {
    pub parts: Vec<Part>,
    /// The failures of the parts are not reported.
    pub lenient: bool,
}

/// One step of an operation.
#[derive(Debug)]
pub enum Step<T> {
    /// The operation is over, with this answer.
    Done(Result<T, IpCamerasError>),
    /// The operation goes on with the answer to this call.
    Ask(Call),
    /// The operation is a composite write. Its stages are carried out in
    /// their order, each however those before it ended, and the operation
    /// answers with the first failure that a stage reports.
    Run(Vec<Stage>),
    /// The operation is handed to the ONVIF client, which reaches the camera
    /// with these parameters.
    Onvif(OnvifParams),
}

impl<T> Step<T> {
    /// The step ends the operation as unsupported.
    pub open spec fn is_unsupported(self) -> bool {
        self matches Step::Done(Err(e)) && e is NotAvialiableApi
    }

    /// The step ends the operation with `value`.
    pub open spec fn is_done_with(self, value: T) -> bool {
        self == Step::Done(Ok::<T, IpCamerasError>(value))
    }

    /// The step ends the operation, which is unsupported.
    pub fn unsupported() -> (step: Self)
        ensures
            step.is_unsupported(),
    {
        Step::Done(Err(IpCamerasError::NotAvialiableApi))
    }
}

impl Call {
    /// A call that reads the resource at `url`: a `GET` with no payload and
    /// no headers.
    pub open spec fn reads(&self, url: Seq<char>) -> bool {
        &&& self.url@ == url
        &&& self.payload is Empty
        &&& self.method == Method::GET
        &&& self.headers is None
    }

    /// A call that writes `payload` to the resource at `url` of a Hikvision
    /// camera: a `PUT` with no headers.
    pub open spec fn writes(&self, url: Seq<char>, payload: HikPayload) -> bool {
        &&& self.url@ == url
        &&& self.payload == Payload::Hik(payload)
        &&& self.method == Method::PUT
        &&& self.headers is None
    }

    /// The call that reads the resource at `url`.
    pub fn read(url: String) -> (call: Call)
        ensures
            call.reads(url@),
    {
        Call { url, payload: Payload::Empty, method: Method::GET, headers: None }
    }

    /// The call that writes `payload` to the resource at `url`.
    pub fn write(url: String, payload: HikPayload) -> (call: Call)
        ensures
            call.writes(url@, payload),
    {
        Call { url, payload: Payload::Hik(payload), method: Method::PUT, headers: None }
    }
}

/// The first failure among `outcomes`, in their order, if any failed.
pub open spec fn first_error(outcomes: Seq<Result<(), IpCamerasError>>) -> Option<IpCamerasError>
    decreases outcomes.len(),
{
    if outcomes.len() == 0 {
        None
    } else {
        match outcomes[0] {
            Err(e) => Some(e),
            Ok(_) => first_error(outcomes.drop_first()),
        }
    }
}

/// The answer of a composite operation whose parts ended as `outcomes`: the
/// first failure, however the later parts ended; success where none failed.
pub open spec fn settles_to(
    outcomes: Seq<Result<(), IpCamerasError>>,
    answer: Result<(), IpCamerasError>,
) -> bool {
    match first_error(outcomes) {
        Some(e) => answer == Err::<(), IpCamerasError>(e),
        None => answer is Ok,
    }
}

/// What a composite operation answers once all of its parts have run.
pub fn settle(outcomes: Vec<Result<(), IpCamerasError>>) -> (answer: Result<(), IpCamerasError>)
    ensures
        settles_to(outcomes@, answer),
{
    let mut outcomes = outcomes;
    let ghost all = outcomes@;
    let mut failure: Option<IpCamerasError> = None;
    while outcomes.len() > 0
        invariant
            first_error(all) == (match first_error(outcomes@) {
                Some(e) => Some(e),
                None => failure,
            }),
        decreases outcomes.len(),
    {
        let ghost before = outcomes@;
        let last = outcomes.pop();
        proof {
            lemma_first_error_last(before);
        }
        match last {
            Some(Err(e)) => {
                failure = Some(e);
            },
            _ => {},
        }
    }
    match failure {
        Some(e) => Err(e),
        None => Ok(()),
    }
}

impl Part {
    /// The part is the write of `payload` to `url`, where there is a
    /// payload; without one it is unsupported.
    pub open spec fn is_write_of(self, url: Seq<char>, payload: Option<HikPayload>) -> bool {
        match payload {
            Some(p) => self matches Part::Write(call) && call.writes(url, p),
            None => self is Unsupported,
        }
    }

    /// How a part without a call ends: as unsupported.
    pub fn refusal() -> (outcome: Result<(), IpCamerasError>)
        ensures
            outcome matches Err(e) && e is NotAvialiableApi,
    {
        Err(IpCamerasError::NotAvialiableApi)
    }
}

impl Stage {
    /// The answer of the stage whose parts ended as `outcomes`: none of
    /// their failures where the stage is lenient, else the first of them.
    pub open spec fn answers(&self, outcomes: Seq<Result<(), IpCamerasError>>, answer: Result<
        (),
        IpCamerasError,
    >) -> bool {
        if self.lenient {
            answer is Ok
        } else {
            settles_to(outcomes, answer)
        }
    }

    /// What the stage answers once all of its parts have run.
    pub fn answer(&self, outcomes: Vec<Result<(), IpCamerasError>>) -> (answer: Result<
        (),
        IpCamerasError,
    >)
        ensures
            self.answers(outcomes@, answer),
    {
        if self.lenient {
            Ok(())
        } else {
            settle(outcomes)
        }
    }
}

/// The first failure of a list is that of the list without its last
/// outcome, where that has one; else it is the last outcome's.
proof fn lemma_first_error_last(outcomes: Seq<Result<(), IpCamerasError>>)
    requires
        outcomes.len() > 0,
    ensures
        first_error(outcomes) == (match first_error(outcomes.drop_last()) {
            Some(e) => Some(e),
            None => match outcomes.last() {
                Err(e) => Some(e),
                Ok(_) => None,
            },
        }),
    decreases outcomes.len(),
{
    if outcomes.len() == 1 {
        assert(outcomes.drop_last() =~= Seq::empty());
        assert(outcomes.drop_first() =~= Seq::empty());
    } else {
        lemma_first_error_last(outcomes.drop_first());
        assert(outcomes.drop_first().drop_last() =~= outcomes.drop_last().drop_first());
        assert(outcomes.drop_first().last() == outcomes.last());
        assert(outcomes.drop_last()[0] == outcomes[0]);
    }
}

} // verus!

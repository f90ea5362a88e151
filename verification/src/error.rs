//! The failures that a camera operation can report.

use vstd::prelude::*;
use vstd::string::StringExecFns;

use crate::domain::CameraId;
use crate::text::{decimal, starts_with, to_decimal};

verus! {

#[verifier::external_type_specification]
#[verifier::external_body]
pub struct ExRegexError(regex::Error);

/// The kinds of input and output failure that the adapters raise themselves.
#[derive(Debug, Clone, Copy, PartialEq, Eq, Structural)]
pub enum ErrorKind {
    NotFound,
    InvalidInput,
    InvalidData,
    Other,
}

impl ErrorKind {
    /// The words in which the kind is reported.
    pub open spec fn spec_description(self) -> Seq<char> {
        match self {
            ErrorKind::NotFound => "entity not found"@,
            ErrorKind::InvalidInput => "invalid input parameter"@,
            ErrorKind::InvalidData => "invalid data"@,
            ErrorKind::Other => "other error"@,
        }
    }

    pub fn description(&self) -> (text: &'static str)
        ensures
            text@ == self.spec_description(),
    {
        match self {
            ErrorKind::NotFound => "entity not found",
            ErrorKind::InvalidInput => "invalid input parameter",
            ErrorKind::InvalidData => "invalid data",
            ErrorKind::Other => "other error",
        }
    }
}

/// A failure of a camera operation.
///
/// Failures that arise outside the adapters are carried by the text in
/// which their origin reported them.
#[derive(Debug)]
pub enum IpCamerasError {
    StreamError { message: String },
    Std { kind: ErrorKind },
    Utf8 { message: String },
    Sync,
    Digest { message: String },
    Reqwest { message: String },
    SerdeJson { message: String },
    Regex { source: regex::Error },
    SerdeUrl { message: String },
    SerdeXml { message: String },
    Onvif { message: String },
    Slot { message: String },
    NoOnvifConnection(CameraId),
    NoOnvifParams,
    NoOnvifVideoSource,
    NotSet,
    NotAvialiableApi,
    Spotlight,
    Fps,
}

/// `regex::Error` written by its `Display`: the words in which `regex`
/// reports why it rejected a pattern. Nothing is claimed of them.
#[verifier::external_body]
fn pattern_error_text(source: &regex::Error) -> (text: String) {
    source.to_string()
}

fn prefixed(prefix: &str, message: &str) -> (text: String)
    ensures
        text@ == prefix@ + message@,
{
    let mut text = String::from_str(prefix);
    text.append(message);
    text
}

fn plain(words: &str) -> (text: String)
    ensures
        text@ == words@ + Seq::<char>::empty(),
{
    let text = String::from_str(words);
    assert(text@ =~= words@ + Seq::<char>::empty());
    text
}

fn carried(message: &str) -> (text: String)
    ensures
        text@ == Seq::<char>::empty() + message@,
{
    let text = String::from_str(message);
    assert(text@ =~= Seq::<char>::empty() + message@);
    text
}

impl IpCamerasError {
    /// The failure of the given kind.
    pub fn from_kind(kind: ErrorKind) -> (error: Self)
        ensures
            error == (IpCamerasError::Std { kind }),
    {
        IpCamerasError::Std { kind }
    }

    /// The failure that wraps a rejected search pattern.
    pub fn from_regex(source: regex::Error) -> (error: Self)
        ensures
            error == (IpCamerasError::Regex { source }),
    {
        IpCamerasError::Regex { source }
    }

    /// The operation is one that the camera does not offer.
    pub open spec fn is_unsupported(self) -> bool {
        self is NotAvialiableApi
    }

    /// The words that introduce the report of the failure; the whole report
    /// for a failure that carries no text of its own.
    pub open spec fn spec_preamble(self) -> Seq<char> {
        match self {
            IpCamerasError::StreamError { .. } => Seq::empty(),
            IpCamerasError::Std { kind } => kind.spec_description(),
            IpCamerasError::Utf8 { .. } => Seq::empty(),
            IpCamerasError::Sync => "Error with std mutex or rwlock"@,
            IpCamerasError::Digest { .. } => "Digest auth error happened: "@,
            IpCamerasError::Reqwest { .. } => "Reqwest error happened: "@,
            IpCamerasError::SerdeJson { .. } => "Serde json error happened: "@,
            IpCamerasError::Regex { .. } => "Regex error happened: "@,
            IpCamerasError::SerdeUrl { .. } => "Serde url error happened: "@,
            IpCamerasError::SerdeXml { .. } => "Serde xml error happened: "@,
            IpCamerasError::Onvif { .. } => "ONVIF error: "@,
            IpCamerasError::Slot { .. } => "pulsar router slot error: "@,
            IpCamerasError::NoOnvifConnection(_) => "no ONVIF connection available for block: "@,
            IpCamerasError::NoOnvifParams => "no ONVIF parameters supplied"@,
            IpCamerasError::NoOnvifVideoSource => "no ONVIF video source available"@,
            IpCamerasError::NotSet => "params to connection is not set"@,
            IpCamerasError::NotAvialiableApi => "api is not supported"@,
            IpCamerasError::Spotlight => "error with setting|getting spotlight to camera"@,
            IpCamerasError::Fps => "error with setting|getting fps to camera"@,
        }
    }

    /// The text that the failure carries: the report of its origin, or the
    /// number of the camera; nothing for a failure that carries none. Of a
    /// rejected pattern the text is not known here.
    pub open spec fn spec_detail(self) -> Option<Seq<char>> {
        match self {
            IpCamerasError::StreamError { message } => Some(message@),
            IpCamerasError::Utf8 { message } => Some(message@),
            IpCamerasError::Digest { message } => Some(message@),
            IpCamerasError::Reqwest { message } => Some(message@),
            IpCamerasError::SerdeJson { message } => Some(message@),
            IpCamerasError::Regex { .. } => None,
            IpCamerasError::SerdeUrl { message } => Some(message@),
            IpCamerasError::SerdeXml { message } => Some(message@),
            IpCamerasError::Onvif { message } => Some(message@),
            IpCamerasError::Slot { message } => Some(message@),
            IpCamerasError::NoOnvifConnection(id) => Some(decimal(id as nat)),
            _ => Some(Seq::empty()),
        }
    }

    /// The report of the failure: its preamble, then its detail. Of a
    /// rejected pattern the preamble is followed by the words of `regex`.
    pub fn to_string(&self) -> (text: String)
        ensures
            match self.spec_detail() {
                Some(detail) => text@ == self.spec_preamble() + detail,
                None => starts_with(text@, self.spec_preamble()),
            },
    {
        match self {
            IpCamerasError::StreamError { message } => carried(message.as_str()),
            IpCamerasError::Std { kind } => plain(kind.description()),
            IpCamerasError::Utf8 { message } => carried(message.as_str()),
            IpCamerasError::Sync => plain("Error with std mutex or rwlock"),
            IpCamerasError::Digest { message } => prefixed(
                "Digest auth error happened: ",
                message.as_str(),
            ),
            IpCamerasError::Reqwest { message } => prefixed(
                "Reqwest error happened: ",
                message.as_str(),
            ),
            IpCamerasError::SerdeJson { message } => prefixed(
                "Serde json error happened: ",
                message.as_str(),
            ),
            IpCamerasError::Regex { source } => {
                let words = pattern_error_text(source);
                let text = prefixed("Regex error happened: ", words.as_str());
                assert(text@.subrange(0, "Regex error happened: "@.len() as int)
                    =~= "Regex error happened: "@);
                text
            },
            IpCamerasError::SerdeUrl { message } => prefixed(
                "Serde url error happened: ",
                message.as_str(),
            ),
            IpCamerasError::SerdeXml { message } => prefixed(
                "Serde xml error happened: ",
                message.as_str(),
            ),
            IpCamerasError::Onvif { message } => prefixed("ONVIF error: ", message.as_str()),
            IpCamerasError::Slot { message } => prefixed(
                "pulsar router slot error: ",
                message.as_str(),
            ),
            IpCamerasError::NoOnvifConnection(id) => {
                let number = to_decimal(*id as u64);
                prefixed("no ONVIF connection available for block: ", number.as_str())
            },
            IpCamerasError::NoOnvifParams => plain("no ONVIF parameters supplied"),
            IpCamerasError::NoOnvifVideoSource => plain("no ONVIF video source available"),
            IpCamerasError::NotSet => plain("params to connection is not set"),
            IpCamerasError::NotAvialiableApi => plain("api is not supported"),
            IpCamerasError::Spotlight => plain("error with setting|getting spotlight to camera"),
            IpCamerasError::Fps => plain("error with setting|getting fps to camera"),
        }
    }
}

/// A failure in the terms of the stream that owns the camera.
#[derive(Debug)]
pub enum StreamError {
    NotImplemented(u64),
    Device(String),
}

/// What a stream failure says: the code of an operation that is not
/// implemented, or the text of a device failure.
pub enum StreamErrorView {
    NotImplemented(u64),
    Device(Seq<char>),
}

impl View for StreamError {
    type V = StreamErrorView;

    open spec fn view(&self) -> StreamErrorView {
        match self {
            StreamError::NotImplemented(code) => StreamErrorView::NotImplemented(*code),
            StreamError::Device(text) => StreamErrorView::Device(text@),
        }
    }
}

impl StreamError {
    /// The failure of the stream that a failure of a camera amounts to: an
    /// unsupported operation is one that is not implemented, with code 0;
    /// any other failure is a failure of the device, with its report.
    pub fn from_camera(error: IpCamerasError) -> (failure: StreamError)
        ensures
            error is NotAvialiableApi ==> failure@ == StreamErrorView::NotImplemented(0),
            !(error is NotAvialiableApi) ==> (failure matches StreamError::Device(text)
                && match error.spec_detail() {
                Some(detail) => text@ == error.spec_preamble() + detail,
                None => starts_with(text@, error.spec_preamble()),
            }),
    {
        match error {
            IpCamerasError::NotAvialiableApi => StreamError::NotImplemented(0),
            _ => StreamError::Device(error.to_string()),
        }
    }
}

} // verus!

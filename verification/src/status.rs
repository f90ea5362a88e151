//! The envelope in which a Hikvision camera answers a write.

use vstd::prelude::*;
use vstd::string::StringExecFns;

verus! {

/// The status of an answer.
#[derive(Debug, Clone, Copy, PartialEq, Eq, Structural)]
pub enum StatusCode {
    OK,
    DeviceBusy,
    DeviceError,
    InvalidOperation,
    InvalidXMLFormat,
    InvalidXMLContent,
    BadXmlContent,
    RebootRequired,
    AdditionalError,
    Unknow,
}

/// What went wrong at the camera, by the code that it reports.
#[derive(Debug, Clone, Copy, PartialEq, Eq, Structural)]
pub enum ErrorCode {
    OK,
    RiskPassword,
    ArmProcess,

    NoMemory,
    ServiceUnavailiable,
    Upgrading,
    DeviceBusy,
    ReConnectIpc,
    TransferUpgradePackageFailed,
    StartUpgradeFailed,
    GetUpgradeProcessfailed,
    CertificateExist,

    DeviceError,
    BadFlash,
    _28181Uninitialized,
    SocketConnectError,
    RecieveError,
    DeletePictureError,
    PictureSizeExceedLimit,
    ClearCacheError,
    UpdateDatabaseError,
    SearchDatabaseError,
    WriteDatabaseError,
    DeleteDatabaseError,
    SearchDatabaseElementError,
    CloudAutoUpgradeException,
    HBPException,
    UDEPException,
    ElasticSearchException,
    KafkaException,
    HBaseException,
    SparkException,
    YarnException,
    CacheException,
    TrafficException,
    FaceException,
    SSDFileSystemIsError,
    InsufficientSSDCapacityForFPD,
    WifiException,
    StructException,
    CaptureTimeout,
    LowScore,

    Unknown,
}

/// The second code of an answer, which refines the first.
pub type SubStatusCode = StatusCode;

/// The envelope in which a camera answers a write.
#[derive(Debug, Clone, PartialEq)]
pub struct Response {
    pub request_url: String,
    pub status_code: u8,
    pub status_string: String,
    pub sub_status_string: Option<String>,
    pub id: Option<u32>,
    pub sub_status_code: SubStatusCode,
    pub error_code: Option<u64>,
    pub error_msg: Option<String>,
    pub additional_err: Option<AdditionalErr>,
}

#[derive(Debug, Clone, PartialEq)]
pub struct AdditionalErr {
    pub additional_error: AdditionalError,
}

#[derive(Debug, Clone, PartialEq)]
pub struct AdditionalError {
    pub status_list: StatusList,
}

#[derive(Debug, Clone, PartialEq)]
pub struct StatusList {
    pub status: Status,
}

/// One status of an answer that holds several.
#[derive(Debug, Clone, PartialEq)]
pub struct Status {
    pub id: Option<u32>,
    pub status_code: u8,
    pub status_string: String,
    pub sub_status_code: SubStatusCode,
}

/// The envelope reduced to what a report needs.
#[derive(Debug, Clone)]
pub struct SimpleResponse {
    pub request_url: String,
    pub status_code: StatusCode,
    pub status_string: String,
    pub sub_status_code: SubStatusCode,
}

impl StatusCode {
    /// The status that a numeric code of the envelope stands for.
    pub open spec fn spec_from_code(code: u8) -> StatusCode {
        if code == 0 || code == 1 {
            StatusCode::OK
        } else if code == 2 {
            StatusCode::DeviceBusy
        } else if code == 3 {
            StatusCode::DeviceError
        } else if code == 4 {
            StatusCode::InvalidOperation
        } else if code == 5 {
            StatusCode::InvalidXMLFormat
        } else if code == 6 {
            StatusCode::InvalidXMLContent
        } else if code == 7 {
            StatusCode::RebootRequired
        } else if code == 8 || code == 9 {
            StatusCode::AdditionalError
        } else {
            StatusCode::Unknow
        }
    }

}

impl From<u8> for StatusCode {
    fn from(code: u8) -> (status: StatusCode) {
        match code {
            0 | 1 => StatusCode::OK,
            2 => StatusCode::DeviceBusy,
            3 => StatusCode::DeviceError,
            4 => StatusCode::InvalidOperation,
            5 => StatusCode::InvalidXMLFormat,
            6 => StatusCode::InvalidXMLContent,
            7 => StatusCode::RebootRequired,
            8 => StatusCode::AdditionalError,
            9 => StatusCode::AdditionalError,
            _ => StatusCode::Unknow,
        }
    }
}

impl vstd::std_specs::convert::FromSpecImpl<u8> for StatusCode {
    open spec fn obeys_from_spec() -> bool {
        true
    }

    open spec fn from_spec(code: u8) -> StatusCode {
        StatusCode::spec_from_code(code)
    }
}

impl ErrorCode {
    /// The numeric code under which the device reports an error; the codes
    /// of `Unknown` are all those that stand for no other error.
    pub open spec fn spec_code(self) -> Option<u64> {
        match self {
            ErrorCode::OK => Some(0x1),
            ErrorCode::RiskPassword => Some(0x10000002),
            ErrorCode::ArmProcess => Some(0x10000005),
            ErrorCode::NoMemory => Some(0x20000001),
            ErrorCode::ServiceUnavailiable => Some(0x20000002),
            ErrorCode::Upgrading => Some(0x20000003),
            ErrorCode::DeviceBusy => Some(0x20000004),
            ErrorCode::ReConnectIpc => Some(0x20000005),
            ErrorCode::TransferUpgradePackageFailed => Some(0x20000006),
            ErrorCode::StartUpgradeFailed => Some(0x20000007),
            ErrorCode::GetUpgradeProcessfailed => Some(0x20000008),
            ErrorCode::CertificateExist => Some(0x2000000B),
            ErrorCode::DeviceError => Some(0x30000001),
            ErrorCode::BadFlash => Some(0x30000002),
            ErrorCode::_28181Uninitialized => Some(0x30000003),
            ErrorCode::SocketConnectError => Some(0x30000005),
            ErrorCode::RecieveError => Some(0x30000007),
            ErrorCode::DeletePictureError => Some(0x3000000A),
            ErrorCode::PictureSizeExceedLimit => Some(0x3000000C),
            ErrorCode::ClearCacheError => Some(0x3000000D),
            ErrorCode::UpdateDatabaseError => Some(0x3000000F),
            ErrorCode::SearchDatabaseError => Some(0x30000010),
            ErrorCode::WriteDatabaseError => Some(0x30000011),
            ErrorCode::DeleteDatabaseError => Some(0x30000012),
            ErrorCode::SearchDatabaseElementError => Some(0x30000013),
            ErrorCode::CloudAutoUpgradeException => Some(0x30000016),
            ErrorCode::HBPException => Some(0x30001000),
            ErrorCode::UDEPException => Some(0x30001001),
            ErrorCode::ElasticSearchException => Some(0x30001002),
            ErrorCode::KafkaException => Some(0x30001003),
            ErrorCode::HBaseException => Some(0x30001004),
            ErrorCode::SparkException => Some(0x30001005),
            ErrorCode::YarnException => Some(0x30001006),
            ErrorCode::CacheException => Some(0x30001007),
            ErrorCode::TrafficException => Some(0x30001008),
            ErrorCode::FaceException => Some(0x30001009),
            ErrorCode::SSDFileSystemIsError => Some(0x30001013),
            ErrorCode::InsufficientSSDCapacityForFPD => Some(0x30001014),
            ErrorCode::WifiException => Some(0x3000100A),
            ErrorCode::StructException => Some(0x3000100D),
            ErrorCode::CaptureTimeout => Some(0x30006000),
            ErrorCode::LowScore => Some(0x30006001),
            ErrorCode::Unknown => None,
        }
    }

    /// The error that a numeric code stands for: the one reported under
    /// that code, or `Unknown` where none is.
    pub open spec fn spec_from_code(code: u64) -> ErrorCode {
        if exists|error: ErrorCode| error.spec_code() == Some(code) {
            choose|error: ErrorCode| error.spec_code() == Some(code)
        } else {
            ErrorCode::Unknown
        }
    }
}

/// Every error but `Unknown` is the one that its own code stands for, and
/// `Unknown` is what every code stands for that is the code of no error.
pub proof fn lemma_error_code_round_trip(error: ErrorCode)
    ensures
        error.spec_code() matches Some(code) ==> ErrorCode::spec_from_code(code) == error,
        forall|code: u64|
            (forall|other: ErrorCode| other.spec_code() != Some(code))
                ==> #[trigger] ErrorCode::spec_from_code(code) == ErrorCode::Unknown,
{
    match error.spec_code() {
        Some(code) => {
            let chosen = choose|e: ErrorCode| e.spec_code() == Some(code);
            assert(chosen.spec_code() == Some(code));
        },
        None => {},
    }
}

impl From<u64> for ErrorCode {
    fn from(code: u64) -> (error: ErrorCode) {
        let error = 
match code {
            0x1 => ErrorCode::OK,
            0x10000002 => ErrorCode::RiskPassword,
            0x10000005 => ErrorCode::ArmProcess,
            0x20000001 => ErrorCode::NoMemory,
            0x20000002 => ErrorCode::ServiceUnavailiable,
            0x20000003 => ErrorCode::Upgrading,
            0x20000004 => ErrorCode::DeviceBusy,
            0x20000005 => ErrorCode::ReConnectIpc,
            0x20000006 => ErrorCode::TransferUpgradePackageFailed,
            0x20000007 => ErrorCode::StartUpgradeFailed,
            0x20000008 => ErrorCode::GetUpgradeProcessfailed,
            0x2000000B => ErrorCode::CertificateExist,
            0x30000001 => ErrorCode::DeviceError,
            0x30000002 => ErrorCode::BadFlash,
            0x30000003 => ErrorCode::_28181Uninitialized,
            0x30000005 => ErrorCode::SocketConnectError,
            0x30000007 => ErrorCode::RecieveError,
            0x3000000A => ErrorCode::DeletePictureError,
            0x3000000C => ErrorCode::PictureSizeExceedLimit,
            0x3000000D => ErrorCode::ClearCacheError,
            0x3000000F => ErrorCode::UpdateDatabaseError,
            0x30000010 => ErrorCode::SearchDatabaseError,
            0x30000011 => ErrorCode::WriteDatabaseError,
            0x30000012 => ErrorCode::DeleteDatabaseError,
            0x30000013 => ErrorCode::SearchDatabaseElementError,
            0x30000016 => ErrorCode::CloudAutoUpgradeException,
            0x30001000 => ErrorCode::HBPException,
            0x30001001 => ErrorCode::UDEPException,
            0x30001002 => ErrorCode::ElasticSearchException,
            0x30001003 => ErrorCode::KafkaException,
            0x30001004 => ErrorCode::HBaseException,
            0x30001005 => ErrorCode::SparkException,
            0x30001006 => ErrorCode::YarnException,
            0x30001007 => ErrorCode::CacheException,
            0x30001008 => ErrorCode::TrafficException,
            0x30001009 => ErrorCode::FaceException,
            0x30001013 => ErrorCode::SSDFileSystemIsError,
            0x30001014 => ErrorCode::InsufficientSSDCapacityForFPD,
            0x3000100A => ErrorCode::WifiException,
            0x3000100D => ErrorCode::StructException,
            0x30006000 => ErrorCode::CaptureTimeout,
            0x30006001 => ErrorCode::LowScore,
            _ => ErrorCode::Unknown,
        };
        assert(error.spec_code() matches Some(own) ==> own == code);
        assert(error is Unknown ==> forall|other: ErrorCode| other.spec_code() != Some(code));
        error
    }
}

impl vstd::std_specs::convert::FromSpecImpl<u64> for ErrorCode {
    open spec fn obeys_from_spec() -> bool {
        true
    }

    open spec fn from_spec(code: u64) -> ErrorCode {
        ErrorCode::spec_from_code(code)
    }
}

impl Response {
    /// The device reports that the write succeeded.
    pub open spec fn spec_is_ok(&self) -> bool {
        self.status_code == 0 || self.status_code == 1
    }

    #[verifier::when_used_as_spec(spec_is_ok)]
    pub fn is_ok(&self) -> (ok: bool)
        ensures
            ok == self.spec_is_ok(),
    {
        self.status_code == 0 || self.status_code == 1
    }
}

impl SimpleResponse {
    /// The envelope reduced to its address, its status and its two codes.
    pub open spec fn spec_from_response(r: Response) -> SimpleResponse {
        SimpleResponse {
            request_url: r.request_url,
            status_code: StatusCode::spec_from_code(r.status_code),
            status_string: r.status_string,
            sub_status_code: r.sub_status_code,
        }
    }
}

impl From<Response> for SimpleResponse {
    fn from(r: Response) -> (simple: SimpleResponse) {
        SimpleResponse {
            request_url: r.request_url,
            status_code: StatusCode::from(r.status_code),
            status_string: r.status_string,
            sub_status_code: r.sub_status_code,
        }
    }
}

impl vstd::std_specs::convert::FromSpecImpl<Response> for SimpleResponse {
    open spec fn obeys_from_spec() -> bool {
        true
    }

    open spec fn from_spec(r: Response) -> SimpleResponse {
        SimpleResponse::spec_from_response(r)
    }
}

impl StatusCode {
    /// The name of the status.
    pub open spec fn spec_name(self) -> Seq<char> {
        match self {
            StatusCode::OK => "OK"@,
            StatusCode::DeviceBusy => "DeviceBusy"@,
            StatusCode::DeviceError => "DeviceError"@,
            StatusCode::InvalidOperation => "InvalidOperation"@,
            StatusCode::InvalidXMLFormat => "InvalidXMLFormat"@,
            StatusCode::InvalidXMLContent => "InvalidXMLContent"@,
            StatusCode::BadXmlContent => "BadXmlContent"@,
            StatusCode::RebootRequired => "RebootRequired"@,
            StatusCode::AdditionalError => "AdditionalError"@,
            StatusCode::Unknow => "Unknow"@,
        }
    }

    pub fn name(self) -> (name: &'static str)
        ensures
            name@ == self.spec_name(),
    {
        match self {
            StatusCode::OK => "OK",
            StatusCode::DeviceBusy => "DeviceBusy",
            StatusCode::DeviceError => "DeviceError",
            StatusCode::InvalidOperation => "InvalidOperation",
            StatusCode::InvalidXMLFormat => "InvalidXMLFormat",
            StatusCode::InvalidXMLContent => "InvalidXMLContent",
            StatusCode::BadXmlContent => "BadXmlContent",
            StatusCode::RebootRequired => "RebootRequired",
            StatusCode::AdditionalError => "AdditionalError",
            StatusCode::Unknow => "Unknow",
        }
    }
}

impl SimpleResponse {
    /// The report of the answer: the address, then in brackets the name of
    /// the status, the words of the camera and the name of the second
    /// status.
    pub open spec fn spec_report(&self) -> Seq<char> {
        self.request_url@ + " -> ("@ + self.status_code.spec_name() + ":"@ + self.status_string@
            + ":"@ + self.sub_status_code.spec_name() + ")"@
    }

    pub fn to_string(&self) -> (report: String)
        ensures
            report@ == self.spec_report(),
    {
        let mut report = String::from_str(self.request_url.as_str());
        report.append(" -> (");
        report.append(self.status_code.name());
        report.append(":");
        report.append(self.status_string.as_str());
        report.append(":");
        report.append(self.sub_status_code.name());
        report.append(")");
        report
    }
}

} // verus!

//! The vendor's error payloads and the library's error taxonomy.

use vstd::prelude::*;
use vstd::string::StringExecFns;
use vstd::string::to_string_from_display_ensures;
use vstd::std_specs::convert::{FromSpec, FromSpecImpl};
use crate::text::{signed_decimal_string, signed_decimal_text};

verus! {

/// `serde_json::Error`, the cause of a body that does not decode. It is carried
/// through as it is; nothing is claimed of what it holds.
#[verifier::external_type_specification]
#[verifier::external_body]
pub struct ExSerdeJsonError(serde_json::Error);

/// `tungstenite::Error`, the cause of a stream that fails. It is carried through
/// as it is; nothing is claimed of what it holds.
#[verifier::external_type_specification]
#[verifier::external_body]
pub struct ExTungsteniteError(tungstenite::Error);

/// `ureq::Error`, the cause of a blocking exchange that fails. It is carried
/// through as it is; nothing is claimed of what it holds.
#[verifier::external_type_specification]
#[verifier::external_body]
pub struct ExUreqError(ureq::Error);

/// `reqwest::Error`, the cause of a non-blocking exchange that fails. It is
/// carried through as it is; nothing is claimed of what it holds.
#[verifier::external_type_specification]
#[verifier::external_body]
pub struct ExReqwestError(reqwest::Error);

/// `std::io::Error`, the cause of a body that cannot be read. It is carried
/// through as it is; nothing is claimed of what it holds.
#[verifier::external_type_specification]
#[verifier::external_body]
pub struct ExIoError(std::io::Error);

/// `std::sync::mpsc::RecvError`, the cause of a receive on a channel whose
/// sender is gone. It is carried through as it is; it holds nothing.
#[verifier::external_type_specification]
#[verifier::external_body]
pub struct ExRecvError(std::sync::mpsc::RecvError);

/// The error object inside an intraday error payload.
#[derive(Debug)]
pub struct ErrorDetail {
    pub code: i32,
    pub message: String,
}

impl Default for ErrorDetail {
    fn default() -> (e: ErrorDetail)
        ensures
            e.code == 0,
            e.message@ == Seq::<char>::empty(),
    {
        ErrorDetail { code: 0, message: String::new() }
    }
}

/// An error payload as the vendor sends it, in either of its two shapes.
#[derive(Debug)]
pub enum ErrorResponse {
    IntradayError { api_version: String, error: ErrorDetail },
    MarketdataError { status_code: i32, message: String },
}

impl ErrorResponse {
    /// The vendor's error code, wherever the payload's shape keeps it.
    pub open spec fn code(self) -> int {
        match self {
            ErrorResponse::IntradayError { api_version, error } => error.code as int,
            ErrorResponse::MarketdataError { status_code, message } => status_code as int,
        }
    }

    /// The vendor's message text.
    pub open spec fn message(self) -> Seq<char> {
        match self {
            ErrorResponse::IntradayError { api_version, error } => error.message@,
            ErrorResponse::MarketdataError { status_code, message } => message@,
        }
    }

    /// The payload as one line of text.
    pub open spec fn text(self) -> Seq<char> {
        match self {
            ErrorResponse::IntradayError { api_version, error } => "FugleAPI: { api_version:"@
                + api_version@ + ", code:"@ + signed_decimal_text(error.code as int) + ", msg:"@
                + error.message@ + " }"@,
            ErrorResponse::MarketdataError { status_code, message } => "FugleAPI: { code:"@
                + signed_decimal_text(status_code as int) + ", msg:"@ + message@ + " }"@,
        }
    }

    pub fn vendor_code(&self) -> (code: i32)
        ensures
            code as int == self.code(),
    {
        match self {
            ErrorResponse::IntradayError { api_version: _, error } => error.code,
            ErrorResponse::MarketdataError { status_code, message: _ } => *status_code,
        }
    }

    /// Renders the payload as one line of text.
    pub fn to_string(&self) -> (s: String)
        ensures
            s@ == self.text(),
    {
        match self {
            ErrorResponse::IntradayError { api_version, error } => {
                let mut s = String::from_str("FugleAPI: { api_version:");
                s.append(api_version.as_str());
                s.append(", code:");
                let code = signed_decimal_string(error.code as i64);
                s.append(code.as_str());
                s.append(", msg:");
                s.append(error.message.as_str());
                s.append(" }");
                s
            },
            ErrorResponse::MarketdataError { status_code, message } => {
                let mut s = String::from_str("FugleAPI: { code:");
                let code = signed_decimal_string(*status_code as i64);
                s.append(code.as_str());
                s.append(", msg:");
                s.append(message.as_str());
                s.append(" }");
                s
            },
        }
    }
}

/// Everything that a request or a subscription can fail with.
#[derive(Debug)]
pub enum FugleError {
    MpscSendError,
    MpscRecvError(std::sync::mpsc::RecvError),
    SerdeJson(serde_json::Error),
    Tungstenite(tungstenite::Error),
    Ureq(Box<ureq::Error>),
    Reqwest(reqwest::Error),
    StdIO(std::io::Error),
    General(ErrorResponse),
    Unauthorized,
    RateLimitExceeded,
    ResourceNotFound,
    Unknown(ErrorResponse),
}

/// The closed set of kinds that every failure falls into.
#[derive(Clone, Copy, Debug, PartialEq, Eq, Structural)]
pub enum ErrorKind {
    BadRequest,
    Unauthorized,
    RateLimited,
    NotFound,
    UnknownVendorError,
    TransportFailure,
    DecodeFailure,
    ChannelClosed,
}

/// The error that a vendor payload with the given code stands for: four
/// codes have a kind of their own, every other code is an unknown vendor
/// error that keeps the payload.
pub open spec fn classify_code(code: int, body: ErrorResponse) -> FugleError {
    if code == 400 {
        FugleError::General(body)
    } else if code == 401 {
        FugleError::Unauthorized
    } else if code == 403 {
        FugleError::RateLimitExceeded
    } else if code == 404 {
        FugleError::ResourceNotFound
    } else {
        FugleError::Unknown(body)
    }
}

/// The error for a reply whose status is not a success: by the status
/// where the error body could be decoded, the decoder's failure where not.
pub open spec fn classify_spec(
    status: u16,
    body: Result<ErrorResponse, serde_json::Error>,
) -> FugleError {
    match body {
        Ok(payload) => classify_code(status as int, payload),
        Err(cause) => FugleError::SerdeJson(cause),
    }
}

fn from_code(code: i32, body: ErrorResponse) -> (e: FugleError)
    ensures
        e == classify_code(code as int, body),
{
    if code == 400 {
        FugleError::General(body)
    } else if code == 401 {
        FugleError::Unauthorized
    } else if code == 403 {
        FugleError::RateLimitExceeded
    } else if code == 404 {
        FugleError::ResourceNotFound
    } else {
        FugleError::Unknown(body)
    }
}

/// Classifies a reply whose status is not a success.
pub fn classify(status: u16, body: Result<ErrorResponse, serde_json::Error>) -> (e: FugleError)
    ensures
        e == classify_spec(status, body),
{
    match body {
        Ok(payload) => from_code(status as i32, payload),
        Err(cause) => FugleError::SerdeJson(cause),
    }
}

impl FugleError {
    /// The kind that this error falls into.
    pub open spec fn kind_spec(self) -> ErrorKind {
        match self {
            FugleError::MpscSendError => ErrorKind::ChannelClosed,
            FugleError::MpscRecvError(_) => ErrorKind::ChannelClosed,
            FugleError::SerdeJson(_) => ErrorKind::DecodeFailure,
            FugleError::Tungstenite(_) => ErrorKind::TransportFailure,
            FugleError::Ureq(_) => ErrorKind::TransportFailure,
            FugleError::Reqwest(_) => ErrorKind::TransportFailure,
            FugleError::StdIO(_) => ErrorKind::TransportFailure,
            FugleError::General(_) => ErrorKind::BadRequest,
            FugleError::Unauthorized => ErrorKind::Unauthorized,
            FugleError::RateLimitExceeded => ErrorKind::RateLimited,
            FugleError::ResourceNotFound => ErrorKind::NotFound,
            FugleError::Unknown(_) => ErrorKind::UnknownVendorError,
        }
    }

    /// Whether `s` is this error as one line of text. Where the error
    /// carries a cause from elsewhere, the line ends with that cause as it
    /// displays itself.
    pub open spec fn renders(self, s: Seq<char>) -> bool {
        match self {
            FugleError::MpscSendError => s == "MPSC Send Error"@,
            FugleError::MpscRecvError(e) => exists|c: String|
                to_string_from_display_ensures::<std::sync::mpsc::RecvError>(&e, c) && s
                    == "MPSC Receive Error: "@ + c@,
            FugleError::SerdeJson(e) => exists|c: String|
                to_string_from_display_ensures::<serde_json::Error>(&e, c) && s
                    == "Serde_json Lib error: "@ + c@,
            FugleError::Tungstenite(e) => exists|c: String|
                to_string_from_display_ensures::<tungstenite::Error>(&e, c) && s
                    == "Tungstenite Lib error: "@ + c@,
            FugleError::Ureq(e) => exists|c: String|
                to_string_from_display_ensures::<ureq::Error>(&*e, c) && s == "Ureq Lib error: "@
                    + c@,
            FugleError::Reqwest(e) => exists|c: String|
                to_string_from_display_ensures::<reqwest::Error>(&e, c) && s
                    == "Reqwest Lib error: "@ + c@,
            FugleError::StdIO(e) => exists|c: String|
                to_string_from_display_ensures::<std::io::Error>(&e, c) && s
                    == "std io json Deserialize error: "@ + c@,
            FugleError::General(e) => s == "General purpose error: "@ + e.text(),
            FugleError::Unauthorized => s == "Unauthorized"@,
            FugleError::RateLimitExceeded => s == "Rate limit or quota exceeded"@,
            FugleError::ResourceNotFound => s == "Resource Not Found"@,
            FugleError::Unknown(e) => s == "Unknown error: "@ + e.text(),
        }
    }

    pub fn kind(&self) -> (k: ErrorKind)
        ensures
            k == self.kind_spec(),
    {
        match self {
            FugleError::MpscSendError => ErrorKind::ChannelClosed,
            FugleError::MpscRecvError(_) => ErrorKind::ChannelClosed,
            FugleError::SerdeJson(_) => ErrorKind::DecodeFailure,
            FugleError::Tungstenite(_) => ErrorKind::TransportFailure,
            FugleError::Ureq(_) => ErrorKind::TransportFailure,
            FugleError::Reqwest(_) => ErrorKind::TransportFailure,
            FugleError::StdIO(_) => ErrorKind::TransportFailure,
            FugleError::General(_) => ErrorKind::BadRequest,
            FugleError::Unauthorized => ErrorKind::Unauthorized,
            FugleError::RateLimitExceeded => ErrorKind::RateLimited,
            FugleError::ResourceNotFound => ErrorKind::NotFound,
            FugleError::Unknown(_) => ErrorKind::UnknownVendorError,
        }
    }

    /// Renders the error as one line of text.
    pub fn to_string(&self) -> (s: String)
        ensures
            self.renders(s@),
    {
        match self {
            FugleError::MpscSendError => String::from_str("MPSC Send Error"),
            FugleError::MpscRecvError(e) => {
                let cause = e.to_string();
                String::from_str("MPSC Receive Error: ").concat(cause.as_str())
            },
            FugleError::SerdeJson(e) => {
                let cause = e.to_string();
                String::from_str("Serde_json Lib error: ").concat(cause.as_str())
            },
            FugleError::Tungstenite(e) => {
                let cause = e.to_string();
                String::from_str("Tungstenite Lib error: ").concat(cause.as_str())
            },
            FugleError::Ureq(e) => {
                let inner: &ureq::Error = &**e;
                let cause = inner.to_string();
                String::from_str("Ureq Lib error: ").concat(cause.as_str())
            },
            FugleError::Reqwest(e) => {
                let cause = e.to_string();
                String::from_str("Reqwest Lib error: ").concat(cause.as_str())
            },
            FugleError::StdIO(e) => {
                let cause = e.to_string();
                String::from_str("std io json Deserialize error: ").concat(cause.as_str())
            },
            FugleError::General(e) => {
                let cause = e.to_string();
                String::from_str("General purpose error: ").concat(cause.as_str())
            },
            FugleError::Unauthorized => String::from_str("Unauthorized"),
            FugleError::RateLimitExceeded => String::from_str("Rate limit or quota exceeded"),
            FugleError::ResourceNotFound => String::from_str("Resource Not Found"),
            FugleError::Unknown(e) => {
                let cause = e.to_string();
                String::from_str("Unknown error: ").concat(cause.as_str())
            },
        }
    }
}

impl From<std::sync::mpsc::RecvError> for FugleError {
    fn from(err: std::sync::mpsc::RecvError) -> (e: FugleError) {
        FugleError::MpscRecvError(err)
    }
}

impl FromSpecImpl<std::sync::mpsc::RecvError> for FugleError {
    open spec fn obeys_from_spec() -> bool {
        true
    }

    open spec fn from_spec(err: std::sync::mpsc::RecvError) -> FugleError {
        FugleError::MpscRecvError(err)
    }
}

impl From<std::io::Error> for FugleError {
    fn from(err: std::io::Error) -> (e: FugleError) {
        FugleError::StdIO(err)
    }
}

impl FromSpecImpl<std::io::Error> for FugleError {
    open spec fn obeys_from_spec() -> bool {
        true
    }

    open spec fn from_spec(err: std::io::Error) -> FugleError {
        FugleError::StdIO(err)
    }
}

impl From<ureq::Error> for FugleError {
    fn from(err: ureq::Error) -> (e: FugleError) {
        FugleError::Ureq(Box::new(err))
    }
}

impl FromSpecImpl<ureq::Error> for FugleError {
    open spec fn obeys_from_spec() -> bool {
        true
    }

    open spec fn from_spec(err: ureq::Error) -> FugleError {
        FugleError::Ureq(Box::new(err))
    }
}

impl From<tungstenite::Error> for FugleError {
    fn from(err: tungstenite::Error) -> (e: FugleError) {
        FugleError::Tungstenite(err)
    }
}

impl FromSpecImpl<tungstenite::Error> for FugleError {
    open spec fn obeys_from_spec() -> bool {
        true
    }

    open spec fn from_spec(err: tungstenite::Error) -> FugleError {
        FugleError::Tungstenite(err)
    }
}

impl From<reqwest::Error> for FugleError {
    fn from(err: reqwest::Error) -> (e: FugleError) {
        FugleError::Reqwest(err)
    }
}

impl FromSpecImpl<reqwest::Error> for FugleError {
    open spec fn obeys_from_spec() -> bool {
        true
    }

    open spec fn from_spec(err: reqwest::Error) -> FugleError {
        FugleError::Reqwest(err)
    }
}

impl From<serde_json::Error> for FugleError {
    fn from(err: serde_json::Error) -> (e: FugleError) {
        FugleError::SerdeJson(err)
    }
}

impl FromSpecImpl<serde_json::Error> for FugleError {
    open spec fn obeys_from_spec() -> bool {
        true
    }

    open spec fn from_spec(err: serde_json::Error) -> FugleError {
        FugleError::SerdeJson(err)
    }
}

impl From<ErrorResponse> for FugleError {
    fn from(err: ErrorResponse) -> (e: FugleError) {
        let code = err.vendor_code();
        from_code(code, err)
    }
}

impl FromSpecImpl<ErrorResponse> for FugleError {
    open spec fn obeys_from_spec() -> bool {
        true
    }

    open spec fn from_spec(err: ErrorResponse) -> FugleError {
        classify_code(err.code(), err)
    }
}

/// The kind of a classified reply is fixed by its status alone: two decoded
/// error bodies under one status are of one kind, whatever their messages
/// say, and each of the four statuses 400, 401, 403 and 404 has its own kind.
pub proof fn lemma_status_fixes_kind(status: u16, first: ErrorResponse, second: ErrorResponse)
    ensures
        classify_spec(status, Ok(first)).kind_spec() == classify_spec(
            status,
            Ok(second),
        ).kind_spec(),
        status == 400 ==> classify_spec(status, Ok(first)).kind_spec() == ErrorKind::BadRequest,
        status == 401 ==> classify_spec(status, Ok(first)) == FugleError::Unauthorized,
        status == 403 ==> classify_spec(status, Ok(first)) == FugleError::RateLimitExceeded,
        status == 404 ==> classify_spec(status, Ok(first)) == FugleError::ResourceNotFound,
        status != 400 && status != 401 && status != 403 && status != 404 ==> classify_spec(
            status,
            Ok(first),
        ).kind_spec() == ErrorKind::UnknownVendorError,
{
}

/// Converting a vendor payload into an error goes by the payload's own code
/// in the same way, whatever its message says.
pub proof fn lemma_code_fixes_kind(first: ErrorResponse, second: ErrorResponse)
    requires
        first.code() == second.code(),
    ensures
        <FugleError as FromSpec<ErrorResponse>>::from_spec(first).kind_spec() == <FugleError as FromSpec<
            ErrorResponse,
        >>::from_spec(second).kind_spec(),
        first.code() == 400 ==> <FugleError as FromSpec<ErrorResponse>>::from_spec(first)
            == FugleError::General(first),
        first.code() == 401 ==> <FugleError as FromSpec<ErrorResponse>>::from_spec(first)
            == FugleError::Unauthorized,
        first.code() == 403 ==> <FugleError as FromSpec<ErrorResponse>>::from_spec(first)
            == FugleError::RateLimitExceeded,
        first.code() == 404 ==> <FugleError as FromSpec<ErrorResponse>>::from_spec(first)
            == FugleError::ResourceNotFound,
{
}


} // verus!

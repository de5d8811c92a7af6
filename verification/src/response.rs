//! Response-side vocabulary: the fixed error-code and hint-code literals, the
//! collect status tags, and their codecs. Decoding is strict: an unrecognized
//! literal is refused, never mapped to a default.
use vstd::prelude::*;

use crate::parse_spec;
use crate::text::str_eq;
use crate::tokens::is_hyphenated_uuid;
use crate::tokens::token_ok;
use crate::Error;
use crate::PersonalNumber;

verus! {

/// The fixed set of server-reported business error codes.
#[derive(Debug, Clone, Copy, PartialEq, Eq, Structural)]
pub enum ErrorCode {
    AlreadyInProgress,
    InvalidParameters,
    Canceled,
    Unauthorized,
    NotFound,
    RequestTimeout,
    UnsupportedMediaType,
    InternalError,
    Maintenance,
}

/// The wire literal for each error code.
pub open spec fn error_code_text(c: ErrorCode) -> Seq<char> {
    match c {
        ErrorCode::AlreadyInProgress => "alreadyInProgress"@,
        ErrorCode::InvalidParameters => "invalidParameters"@,
        ErrorCode::Canceled => "canceled"@,
        ErrorCode::Unauthorized => "unauthorized"@,
        ErrorCode::NotFound => "notFound"@,
        ErrorCode::RequestTimeout => "requestTimeout"@,
        ErrorCode::UnsupportedMediaType => "unsupportedMediaType"@,
        ErrorCode::InternalError => "internalError"@,
        ErrorCode::Maintenance => "maintenance"@,
    }
}

/// The error code a wire literal stands for, if any.
pub open spec fn error_code_of_text(s: Seq<char>) -> Option<ErrorCode> {
    if s == "alreadyInProgress"@ {
        Some(ErrorCode::AlreadyInProgress)
    } else if s == "invalidParameters"@ {
        Some(ErrorCode::InvalidParameters)
    } else if s == "canceled"@ {
        Some(ErrorCode::Canceled)
    } else if s == "unauthorized"@ {
        Some(ErrorCode::Unauthorized)
    } else if s == "notFound"@ {
        Some(ErrorCode::NotFound)
    } else if s == "requestTimeout"@ {
        Some(ErrorCode::RequestTimeout)
    } else if s == "unsupportedMediaType"@ {
        Some(ErrorCode::UnsupportedMediaType)
    } else if s == "internalError"@ {
        Some(ErrorCode::InternalError)
    } else if s == "maintenance"@ {
        Some(ErrorCode::Maintenance)
    } else {
        None
    }
}

impl ErrorCode {
    /// The exact wire literal for this code.
    pub fn encode(&self) -> (r: &'static str)
        ensures
            r@ == error_code_text(*self),
    {
        match self {
            ErrorCode::AlreadyInProgress => "alreadyInProgress",
            ErrorCode::InvalidParameters => "invalidParameters",
            ErrorCode::Canceled => "canceled",
            ErrorCode::Unauthorized => "unauthorized",
            ErrorCode::NotFound => "notFound",
            ErrorCode::RequestTimeout => "requestTimeout",
            ErrorCode::UnsupportedMediaType => "unsupportedMediaType",
            ErrorCode::InternalError => "internalError",
            ErrorCode::Maintenance => "maintenance",
        }
    }

    /// Decodes a wire literal; unrecognized text yields `None`.
    pub fn decode(s: &str) -> (r: Option<ErrorCode>)
        ensures
            r == error_code_of_text(s@),
    {
        if str_eq(s, "alreadyInProgress") {
            Some(ErrorCode::AlreadyInProgress)
        } else if str_eq(s, "invalidParameters") {
            Some(ErrorCode::InvalidParameters)
        } else if str_eq(s, "canceled") {
            Some(ErrorCode::Canceled)
        } else if str_eq(s, "unauthorized") {
            Some(ErrorCode::Unauthorized)
        } else if str_eq(s, "notFound") {
            Some(ErrorCode::NotFound)
        } else if str_eq(s, "requestTimeout") {
            Some(ErrorCode::RequestTimeout)
        } else if str_eq(s, "unsupportedMediaType") {
            Some(ErrorCode::UnsupportedMediaType)
        } else if str_eq(s, "internalError") {
            Some(ErrorCode::InternalError)
        } else if str_eq(s, "maintenance") {
            Some(ErrorCode::Maintenance)
        } else {
            None
        }
    }
}

/// Every fixed error-code literal decodes and re-encodes to the identical
/// literal, and decoding succeeds only on those exact literals.
pub proof fn lemma_error_code_round_trip()
    ensures
        forall|c: ErrorCode| #[trigger] error_code_of_text(error_code_text(c)) == Some(c),
        forall|s: Seq<char>, c: ErrorCode|
            error_code_of_text(s) == Some(c) ==> error_code_text(c) == s,
{
    reveal_strlit("alreadyInProgress");
    reveal_strlit("invalidParameters");
    reveal_strlit("canceled");
    reveal_strlit("unauthorized");
    reveal_strlit("notFound");
    reveal_strlit("requestTimeout");
    reveal_strlit("unsupportedMediaType");
    reveal_strlit("internalError");
    reveal_strlit("maintenance");
    assert("alreadyInProgress"@.len() == 17 && "alreadyInProgress"@[0] == 'a');
    assert("invalidParameters"@.len() == 17 && "invalidParameters"@[0] == 'i');
    assert("canceled"@.len() == 8 && "canceled"@[0] == 'c');
    assert("unauthorized"@.len() == 12 && "unauthorized"@[0] == 'u');
    assert("notFound"@.len() == 8 && "notFound"@[0] == 'n');
    assert("requestTimeout"@.len() == 14 && "requestTimeout"@[0] == 'r');
    assert("unsupportedMediaType"@.len() == 20 && "unsupportedMediaType"@[0] == 'u');
    assert("internalError"@.len() == 13 && "internalError"@[0] == 'i');
    assert("maintenance"@.len() == 11 && "maintenance"@[0] == 'm');
    assert forall|c: ErrorCode| #[trigger] error_code_of_text(error_code_text(c)) == Some(c) by {
        if c == ErrorCode::AlreadyInProgress {
            assert(error_code_of_text("alreadyInProgress"@) == Some(ErrorCode::AlreadyInProgress));
        } else if c == ErrorCode::InvalidParameters {
            assert(error_code_of_text("invalidParameters"@) == Some(ErrorCode::InvalidParameters));
        } else if c == ErrorCode::Canceled {
            assert(error_code_of_text("canceled"@) == Some(ErrorCode::Canceled));
        } else if c == ErrorCode::Unauthorized {
            assert(error_code_of_text("unauthorized"@) == Some(ErrorCode::Unauthorized));
        } else if c == ErrorCode::NotFound {
            assert(error_code_of_text("notFound"@) == Some(ErrorCode::NotFound));
        } else if c == ErrorCode::RequestTimeout {
            assert(error_code_of_text("requestTimeout"@) == Some(ErrorCode::RequestTimeout));
        } else if c == ErrorCode::UnsupportedMediaType {
            assert(error_code_of_text("unsupportedMediaType"@) == Some(ErrorCode::UnsupportedMediaType));
        } else if c == ErrorCode::InternalError {
            assert(error_code_of_text("internalError"@) == Some(ErrorCode::InternalError));
        } else {
            assert(error_code_of_text("maintenance"@) == Some(ErrorCode::Maintenance));
        }
    }
}

/// A server-reported business error: a structured code to branch on, and
/// diagnostic free text never meant for control flow.
#[derive(Debug, Clone)]
pub struct ClientError {
    pub error_code: ErrorCode,
    pub details: String,
}

/// The fixed set of hint codes explaining why an order is pending or failed.
#[derive(Debug, Clone, Copy, PartialEq, Eq, Structural)]
pub enum CollectHintCode {
    OutstandingTransaction,
    NoClient,
    Started,
    UserSign,
    ExpiredTransaction,
    CertificateErr,
    UserCancel,
    Canceled,
    StartFailed,
}

/// The wire literal for each hint code. Note the historical spelling
/// "cancelled" for the cancellation hint, unlike the error code "canceled".
pub open spec fn hint_code_text(c: CollectHintCode) -> Seq<char> {
    match c {
        CollectHintCode::OutstandingTransaction => "outstandingTransaction"@,
        CollectHintCode::NoClient => "noClient"@,
        CollectHintCode::Started => "started"@,
        CollectHintCode::UserSign => "userSign"@,
        CollectHintCode::ExpiredTransaction => "expiredTransaction"@,
        CollectHintCode::CertificateErr => "certificateErr"@,
        CollectHintCode::UserCancel => "userCancel"@,
        CollectHintCode::Canceled => "cancelled"@,
        CollectHintCode::StartFailed => "startFailed"@,
    }
}

/// The hint code a wire literal stands for, if any.
pub open spec fn hint_code_of_text(s: Seq<char>) -> Option<CollectHintCode> {
    if s == "outstandingTransaction"@ {
        Some(CollectHintCode::OutstandingTransaction)
    } else if s == "noClient"@ {
        Some(CollectHintCode::NoClient)
    } else if s == "started"@ {
        Some(CollectHintCode::Started)
    } else if s == "userSign"@ {
        Some(CollectHintCode::UserSign)
    } else if s == "expiredTransaction"@ {
        Some(CollectHintCode::ExpiredTransaction)
    } else if s == "certificateErr"@ {
        Some(CollectHintCode::CertificateErr)
    } else if s == "userCancel"@ {
        Some(CollectHintCode::UserCancel)
    } else if s == "cancelled"@ {
        Some(CollectHintCode::Canceled)
    } else if s == "startFailed"@ {
        Some(CollectHintCode::StartFailed)
    } else {
        None
    }
}

impl CollectHintCode {
    /// The exact wire literal for this hint code.
    pub fn encode(&self) -> (r: &'static str)
        ensures
            r@ == hint_code_text(*self),
    {
        match self {
            CollectHintCode::OutstandingTransaction => "outstandingTransaction",
            CollectHintCode::NoClient => "noClient",
            CollectHintCode::Started => "started",
            CollectHintCode::UserSign => "userSign",
            CollectHintCode::ExpiredTransaction => "expiredTransaction",
            CollectHintCode::CertificateErr => "certificateErr",
            CollectHintCode::UserCancel => "userCancel",
            CollectHintCode::Canceled => "cancelled",
            CollectHintCode::StartFailed => "startFailed",
        }
    }

    /// Decodes a wire literal; unrecognized text yields `None`.
    pub fn decode(s: &str) -> (r: Option<CollectHintCode>)
        ensures
            r == hint_code_of_text(s@),
    {
        if str_eq(s, "outstandingTransaction") {
            Some(CollectHintCode::OutstandingTransaction)
        } else if str_eq(s, "noClient") {
            Some(CollectHintCode::NoClient)
        } else if str_eq(s, "started") {
            Some(CollectHintCode::Started)
        } else if str_eq(s, "userSign") {
            Some(CollectHintCode::UserSign)
        } else if str_eq(s, "expiredTransaction") {
            Some(CollectHintCode::ExpiredTransaction)
        } else if str_eq(s, "certificateErr") {
            Some(CollectHintCode::CertificateErr)
        } else if str_eq(s, "userCancel") {
            Some(CollectHintCode::UserCancel)
        } else if str_eq(s, "cancelled") {
            Some(CollectHintCode::Canceled)
        } else if str_eq(s, "startFailed") {
            Some(CollectHintCode::StartFailed)
        } else {
            None
        }
    }
}

/// Every fixed hint-code literal decodes and re-encodes to the identical
/// literal, and decoding succeeds only on those exact literals.
pub proof fn lemma_hint_code_round_trip()
    ensures
        forall|c: CollectHintCode| #[trigger] hint_code_of_text(hint_code_text(c)) == Some(c),
        forall|s: Seq<char>, c: CollectHintCode|
            hint_code_of_text(s) == Some(c) ==> hint_code_text(c) == s,
{
    reveal_strlit("outstandingTransaction");
    reveal_strlit("noClient");
    reveal_strlit("started");
    reveal_strlit("userSign");
    reveal_strlit("expiredTransaction");
    reveal_strlit("certificateErr");
    reveal_strlit("userCancel");
    reveal_strlit("cancelled");
    reveal_strlit("startFailed");
    assert("outstandingTransaction"@.len() == 22 && "outstandingTransaction"@[0] == 'o');
    assert("noClient"@.len() == 8 && "noClient"@[0] == 'n');
    assert("started"@.len() == 7 && "started"@[0] == 's');
    assert("userSign"@.len() == 8 && "userSign"@[0] == 'u');
    assert("expiredTransaction"@.len() == 18 && "expiredTransaction"@[0] == 'e');
    assert("certificateErr"@.len() == 14 && "certificateErr"@[0] == 'c');
    assert("userCancel"@.len() == 10 && "userCancel"@[0] == 'u');
    assert("cancelled"@.len() == 9 && "cancelled"@[0] == 'c');
    assert("startFailed"@.len() == 11 && "startFailed"@[0] == 's');
    assert forall|c: CollectHintCode| #[trigger] hint_code_of_text(hint_code_text(c))
        == Some(c) by {
        if c == CollectHintCode::OutstandingTransaction {
            assert(hint_code_of_text("outstandingTransaction"@) == Some(CollectHintCode::OutstandingTransaction));
        } else if c == CollectHintCode::NoClient {
            assert(hint_code_of_text("noClient"@) == Some(CollectHintCode::NoClient));
        } else if c == CollectHintCode::Started {
            assert(hint_code_of_text("started"@) == Some(CollectHintCode::Started));
        } else if c == CollectHintCode::UserSign {
            assert(hint_code_of_text("userSign"@) == Some(CollectHintCode::UserSign));
        } else if c == CollectHintCode::ExpiredTransaction {
            assert(hint_code_of_text("expiredTransaction"@) == Some(CollectHintCode::ExpiredTransaction));
        } else if c == CollectHintCode::CertificateErr {
            assert(hint_code_of_text("certificateErr"@) == Some(CollectHintCode::CertificateErr));
        } else if c == CollectHintCode::UserCancel {
            assert(hint_code_of_text("userCancel"@) == Some(CollectHintCode::UserCancel));
        } else if c == CollectHintCode::Canceled {
            assert(hint_code_of_text("cancelled"@) == Some(CollectHintCode::Canceled));
        } else {
            assert(hint_code_of_text("startFailed"@) == Some(CollectHintCode::StartFailed));
        }
    }
}

/// The three client-observable states of an order.
#[derive(Debug, Clone, Copy, PartialEq, Eq, Structural)]
pub enum CollectStatus {
    Pending,
    Failed,
    Complete,
}

/// The wire literal for each collect status tag.
pub open spec fn status_text(c: CollectStatus) -> Seq<char> {
    match c {
        CollectStatus::Pending => "pending"@,
        CollectStatus::Failed => "failed"@,
        CollectStatus::Complete => "complete"@,
    }
}

/// The collect status a wire tag stands for, if any.
pub open spec fn status_of_text(s: Seq<char>) -> Option<CollectStatus> {
    if s == "pending"@ {
        Some(CollectStatus::Pending)
    } else if s == "failed"@ {
        Some(CollectStatus::Failed)
    } else if s == "complete"@ {
        Some(CollectStatus::Complete)
    } else {
        None
    }
}

impl CollectStatus {
    /// The exact wire literal for this status tag.
    pub fn encode(&self) -> (r: &'static str)
        ensures
            r@ == status_text(*self),
    {
        match self {
            CollectStatus::Pending => "pending",
            CollectStatus::Failed => "failed",
            CollectStatus::Complete => "complete",
        }
    }

    /// Decodes a wire tag; unrecognized text yields `None`.
    pub fn decode(s: &str) -> (r: Option<CollectStatus>)
        ensures
            r == status_of_text(s@),
    {
        if str_eq(s, "pending") {
            Some(CollectStatus::Pending)
        } else if str_eq(s, "failed") {
            Some(CollectStatus::Failed)
        } else if str_eq(s, "complete") {
            Some(CollectStatus::Complete)
        } else {
            None
        }
    }

    /// Whether this status ends the order's lifecycle: no transition leaves
    /// `Failed` or `Complete`.
    pub fn is_terminal(&self) -> (r: bool)
        ensures
            r <==> (*self == CollectStatus::Failed || *self == CollectStatus::Complete),
    {
        match self {
            CollectStatus::Pending => false,
            CollectStatus::Failed => true,
            CollectStatus::Complete => true,
        }
    }
}

/// Every fixed status literal decodes and re-encodes to the identical
/// literal, and decoding succeeds only on those exact literals.
pub proof fn lemma_status_round_trip()
    ensures
        forall|c: CollectStatus| #[trigger] status_of_text(status_text(c)) == Some(c),
        forall|s: Seq<char>, c: CollectStatus| status_of_text(s) == Some(c) ==> status_text(c) == s,
{
    reveal_strlit("pending");
    reveal_strlit("failed");
    reveal_strlit("complete");
    assert("pending"@.len() == 7);
    assert("failed"@.len() == 6);
    assert("complete"@.len() == 8);
    assert forall|c: CollectStatus| #[trigger] status_of_text(status_text(c)) == Some(c) by {
        if c == CollectStatus::Pending {
            assert(status_of_text("pending"@) == Some(CollectStatus::Pending));
        } else if c == CollectStatus::Failed {
            assert(status_of_text("failed"@) == Some(CollectStatus::Failed));
        } else {
            assert(status_of_text("complete"@) == Some(CollectStatus::Complete));
        }
    }
}


/// A successfully started order: the capability handle to collect or cancel
/// it, and the tokens that launch or display the client app. Each token is
/// an opaque, UUID-shaped string minted by the server.
#[derive(Debug, Clone)]
pub struct OrderResponse {
    pub order_ref: String,
    pub auto_start_token: String,
    pub qr_start_token: String,
    pub qr_start_secret: String,
}

/// Assembles an order response from its decoded fields, checking that every
/// token is UUID-shaped; a misshapen token is an unexpected response shape,
/// not a business error.
pub fn decode_order_fields(
    order_ref: &str,
    auto_start_token: &str,
    qr_start_token: &str,
    qr_start_secret: &str,
) -> (r: Result<OrderResponse, Error>)
    ensures
        r is Ok <==> is_hyphenated_uuid(order_ref@) && is_hyphenated_uuid(auto_start_token@)
            && is_hyphenated_uuid(qr_start_token@) && is_hyphenated_uuid(qr_start_secret@),
        r matches Ok(o) ==> (o.order_ref@ == order_ref@ && o.auto_start_token@
            == auto_start_token@ && o.qr_start_token@ == qr_start_token@ && o.qr_start_secret@
            == qr_start_secret@),
        r matches Err(e) ==> (e is UnexpectedResponse),
{
    if token_ok(order_ref) && token_ok(auto_start_token) && token_ok(qr_start_token) && token_ok(
        qr_start_secret,
    ) {
        Ok(
            OrderResponse {
                order_ref: order_ref.to_owned(),
                auto_start_token: auto_start_token.to_owned(),
                qr_start_token: qr_start_token.to_owned(),
                qr_start_secret: qr_start_secret.to_owned(),
            },
        )
    } else {
        Err(Error::UnexpectedResponse("order response token is not UUID-shaped"))
    }
}

/// The verified end-user identity a completed order reports.
#[derive(Debug, Clone)]
pub struct User {
    pub personal_number: PersonalNumber,
    pub name: String,
    pub given_name: String,
    pub surname: String,
}

/// The device the end user completed the order on.
#[derive(Debug, Clone)]
pub struct Device {
    pub ip_address: String,
}

/// The validity window of the end user's certificate.
#[derive(Debug, Clone)]
pub struct Cert {
    pub not_before: String,
    pub not_after: String,
}

/// Everything a completed order carries: identity, device, certificate
/// window, and the signature and OCSP blobs, which the client does not
/// interpret further.
#[derive(Debug, Clone)]
pub struct CompletionData {
    pub user: User,
    pub device: Device,
    pub cert: Cert,
    pub signature: String,
    pub ocsp_response: String,
}

/// One poll's outcome, discriminated by the status tag. The order
/// reference is echoed verbatim when the server sends it, and is not
/// required: status and hint code alone describe a pending or failed
/// order, status and completion data a completed one.
#[derive(Debug, Clone)]
pub enum CollectResponse {
    Pending { hint_code: CollectHintCode, order_ref: Option<String> },
    Failed { hint_code: CollectHintCode },
    Complete { completion_data: CompletionData, order_ref: Option<String> },
}

impl CollectResponse {
    /// The status tag this outcome carries.
    pub fn status(&self) -> (r: CollectStatus)
        ensures
            (r == CollectStatus::Pending <==> self is Pending),
            (r == CollectStatus::Failed <==> self is Failed),
            (r == CollectStatus::Complete <==> self is Complete),
    {
        match self {
            CollectResponse::Pending { .. } => CollectStatus::Pending,
            CollectResponse::Failed { .. } => CollectStatus::Failed,
            CollectResponse::Complete { .. } => CollectStatus::Complete,
        }
    }

    /// Whether this outcome ends the order's lifecycle: nothing follows
    /// `Failed` or `Complete` but a repeat of the same outcome, or a
    /// not-found error once the server forgets the order.
    pub fn is_terminal(&self) -> (r: bool)
        ensures
            r <==> !(self is Pending),
    {
        match self {
            CollectResponse::Pending { .. } => false,
            CollectResponse::Failed { .. } => true,
            CollectResponse::Complete { .. } => true,
        }
    }
}

/// The decoded body of an empty cancel response.
#[derive(Debug, Clone)]
pub struct CancelResponse {}

/// The raw members of a completionData object, as the embedding
/// application's JSON layer hands them over, all plain text.
#[derive(Debug, Clone)]
pub struct CompletionFields {
    pub personal_number: String,
    pub name: String,
    pub given_name: String,
    pub surname: String,
    pub ip_address: String,
    pub not_before: String,
    pub not_after: String,
    pub signature: String,
    pub ocsp_response: String,
}

/// The raw members of a collect response body: the status tag and whichever
/// other members the body carried.
#[derive(Debug, Clone)]
pub struct CollectFields {
    pub status: String,
    pub hint_code: Option<String>,
    pub order_ref: Option<String>,
    pub completion: Option<CompletionFields>,
}

/// Decodes a collect body from its raw members. The status tag alone picks
/// the variant; an unrecognized tag, a missing or unrecognized member, or a
/// malformed personal number is a hard decode error, never a default.
pub fn decode_collect(f: &CollectFields) -> (r: Result<CollectResponse, Error>)
    ensures
        status_of_text(f.status@) is None ==> (r matches Err(e) && e is UnexpectedResponse),
        status_of_text(f.status@) == Some(CollectStatus::Pending) ==> ({
            if f.hint_code is Some && hint_code_of_text(f.hint_code.unwrap()@) is Some {
                (r matches Ok(c) && c matches CollectResponse::Pending { hint_code, order_ref }
                    && Some(hint_code) == hint_code_of_text(f.hint_code.unwrap()@) && (
                f.order_ref is Some ==> order_ref is Some && order_ref.unwrap()@
                    == f.order_ref.unwrap()@) && (f.order_ref is None ==> order_ref is None))
            } else {
                (r matches Err(e) && e is UnexpectedResponse)
            }
        }),
        status_of_text(f.status@) == Some(CollectStatus::Failed) ==> ({
            if f.hint_code is Some && hint_code_of_text(f.hint_code.unwrap()@) is Some {
                (r matches Ok(c) && c matches CollectResponse::Failed { hint_code } && Some(
                    hint_code,
                ) == hint_code_of_text(f.hint_code.unwrap()@))
            } else {
                (r matches Err(e) && e is UnexpectedResponse)
            }
        }),
        status_of_text(f.status@) == Some(CollectStatus::Complete) ==> ({
            if f.completion is Some && parse_spec(f.completion.unwrap().personal_number@) is Some {
                (r matches Ok(c) && c matches CollectResponse::Complete {
                    completion_data,
                    order_ref,
                } && Some(completion_data.user.personal_number) == parse_spec(
                    f.completion.unwrap().personal_number@,
                ) && completion_data.user.name@ == f.completion.unwrap().name@
                    && completion_data.user.given_name@ == f.completion.unwrap().given_name@
                    && completion_data.user.surname@ == f.completion.unwrap().surname@
                    && completion_data.device.ip_address@ == f.completion.unwrap().ip_address@
                    && completion_data.cert.not_before@ == f.completion.unwrap().not_before@
                    && completion_data.cert.not_after@ == f.completion.unwrap().not_after@
                    && completion_data.signature@ == f.completion.unwrap().signature@
                    && completion_data.ocsp_response@ == f.completion.unwrap().ocsp_response@
                    && (f.order_ref is Some ==> order_ref is Some && order_ref.unwrap()@
                    == f.order_ref.unwrap()@) && (f.order_ref is None ==> order_ref is None))
            } else {
                (r matches Err(e) && e is UnexpectedResponse)
            }
        }),
{
    let st = match CollectStatus::decode(f.status.as_str()) {
        Some(st) => st,
        None => {
            return Err(Error::UnexpectedResponse("unrecognized collect status"));
        },
    };
    match st {
        CollectStatus::Pending => {
            let h = match &f.hint_code {
                Some(h) => h,
                None => {
                    return Err(Error::UnexpectedResponse("pending collect without hint code"));
                },
            };
            let hc = match CollectHintCode::decode(h.as_str()) {
                Some(hc) => hc,
                None => {
                    return Err(Error::UnexpectedResponse("unrecognized hint code"));
                },
            };
            let or = match &f.order_ref {
                Some(o) => Some(o.clone()),
                None => None,
            };
            Ok(CollectResponse::Pending { hint_code: hc, order_ref: or })
        },
        CollectStatus::Failed => {
            let h = match &f.hint_code {
                Some(h) => h,
                None => {
                    return Err(Error::UnexpectedResponse("failed collect without hint code"));
                },
            };
            let hc = match CollectHintCode::decode(h.as_str()) {
                Some(hc) => hc,
                None => {
                    return Err(Error::UnexpectedResponse("unrecognized hint code"));
                },
            };
            Ok(CollectResponse::Failed { hint_code: hc })
        },
        CollectStatus::Complete => {
            let c = match &f.completion {
                Some(c) => c,
                None => {
                    return Err(
                        Error::UnexpectedResponse("complete collect without completion data"),
                    );
                },
            };
            let pn = match PersonalNumber::parse(c.personal_number.as_str()) {
                Ok(p) => p,
                Err(_) => {
                    return Err(
                        Error::UnexpectedResponse("completion carries a malformed personal number"),
                    );
                },
            };
            let or = match &f.order_ref {
                Some(o) => Some(o.clone()),
                None => None,
            };
            Ok(
                CollectResponse::Complete {
                    completion_data: CompletionData {
                        user: User {
                            personal_number: pn,
                            name: c.name.clone(),
                            given_name: c.given_name.clone(),
                            surname: c.surname.clone(),
                        },
                        device: Device { ip_address: c.ip_address.clone() },
                        cert: Cert {
                            not_before: c.not_before.clone(),
                            not_after: c.not_after.clone(),
                        },
                        signature: c.signature.clone(),
                        ocsp_response: c.ocsp_response.clone(),
                    },
                    order_ref: or,
                },
            )
        },
    }
}

/// Classifies the body of a non-success response: once a body arrived, a
/// recognized errorCode is the server's business error — never a transport
/// failure — and anything else is an unexpected response shape.
pub fn decode_error_body(error_code: &str, details: String) -> (r: Error)
    ensures
        match error_code_of_text(error_code@) {
            Some(c) => (r matches Error::ClientError(ce) && ce.error_code == c && ce.details@
                == details@),
            None => r is UnexpectedResponse,
        },
{
    match ErrorCode::decode(error_code) {
        Some(c) => Error::ClientError(ClientError { error_code: c, details }),
        None => Error::UnexpectedResponse("unrecognized error code in failure body"),
    }
}

} // verus!

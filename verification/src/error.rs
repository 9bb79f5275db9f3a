//! The one error type of the pipeline.

use vstd::prelude::*;
use vstd::string::*;
use crate::backblaze::BlazeError;

verus! {

#[verifier::external_type_specification]
#[verifier::external_body]
pub struct ExJsonError(serde_json::Error);

#[verifier::external_type_specification]
#[verifier::external_body]
pub struct ExIoError(std::io::Error);

#[verifier::external_type_specification]
#[verifier::external_body]
pub struct ExHttpError(reqwest::Error);

#[verifier::external_type_specification]
#[verifier::external_body]
#[verifier::reject_recursive_types(T)]
pub struct ExPoisoned<T>(std::sync::PoisonError<T>);

/// Why a step of the pipeline failed.
#[derive(Debug)]
pub enum TransferError {
    /// A failure described in words, such as the text of a refused request.
    Text(String),
    /// A structured failure reported by the destination.
    Blaze(BlazeError),
    /// A document could not be encoded or decoded.
    Json(serde_json::Error),
    /// A local file could not be opened, read or written.
    Io(std::io::Error),
    /// A request did not get through.
    Request(reqwest::Error),
    /// A shared resource was left locked by a holder that failed.
    PoisonError,
    /// The source refused or failed a request.
    RusotoError,
}

pub type TransferResult<T> = std::result::Result<T, TransferError>;

impl From<std::io::Error> for TransferError {
    fn from(error: std::io::Error) -> (out: Self) {
        TransferError::Io(error)
    }
}

impl vstd::std_specs::convert::FromSpecImpl<std::io::Error> for TransferError {
    open spec fn obeys_from_spec() -> bool {
        true
    }

    open spec fn from_spec(v: std::io::Error) -> Self {
        TransferError::Io(v)
    }
}

impl From<BlazeError> for TransferError {
    fn from(error: BlazeError) -> (out: Self) {
        TransferError::Blaze(error)
    }
}

impl vstd::std_specs::convert::FromSpecImpl<BlazeError> for TransferError {
    open spec fn obeys_from_spec() -> bool {
        true
    }

    open spec fn from_spec(v: BlazeError) -> Self {
        TransferError::Blaze(v)
    }
}

impl From<reqwest::Error> for TransferError {
    fn from(error: reqwest::Error) -> (out: Self) {
        TransferError::Request(error)
    }
}

impl vstd::std_specs::convert::FromSpecImpl<reqwest::Error> for TransferError {
    open spec fn obeys_from_spec() -> bool {
        true
    }

    open spec fn from_spec(v: reqwest::Error) -> Self {
        TransferError::Request(v)
    }
}

impl From<serde_json::Error> for TransferError {
    fn from(error: serde_json::Error) -> (out: Self) {
        TransferError::Json(error)
    }
}

impl vstd::std_specs::convert::FromSpecImpl<serde_json::Error> for TransferError {
    open spec fn obeys_from_spec() -> bool {
        true
    }

    open spec fn from_spec(v: serde_json::Error) -> Self {
        TransferError::Json(v)
    }
}

/// A failure described in the words of `error`. What comes out is stated on
/// `from` itself: no string can be named by its characters where only a value
/// may stand, so the conversion is given no such value.
impl<'a> From<&'a str> for TransferError {
    fn from(error: &'a str) -> (out: Self)
        ensures
            out matches TransferError::Text(text) && text@ == error@,
    {
        TransferError::Text(String::from_str(error))
    }
}

impl<'a> vstd::std_specs::convert::FromSpecImpl<&'a str> for TransferError {
    open spec fn obeys_from_spec() -> bool {
        false
    }

    open spec fn from_spec(v: &'a str) -> Self {
        TransferError::Text(arbitrary())
    }
}

/// Whatever became of the lock, the failure is that of a lock left by a
/// holder that failed.
impl<Guard> From<std::sync::LockResult<Guard>> for TransferError {
    fn from(_error: std::sync::LockResult<Guard>) -> (out: Self) {
        TransferError::PoisonError
    }
}

impl<Guard> vstd::std_specs::convert::FromSpecImpl<std::sync::LockResult<Guard>> for TransferError {
    open spec fn obeys_from_spec() -> bool {
        true
    }

    open spec fn from_spec(v: std::sync::LockResult<Guard>) -> Self {
        TransferError::PoisonError
    }
}

impl From<String> for TransferError {
    fn from(error: String) -> (out: Self) {
        TransferError::Text(error)
    }
}

impl vstd::std_specs::convert::FromSpecImpl<String> for TransferError {
    open spec fn obeys_from_spec() -> bool {
        true
    }

    open spec fn from_spec(v: String) -> Self {
        TransferError::Text(v)
    }
}

/// `text` as the debug format of a string writes it: in double quotes, with
/// escapes where that format uses them.
pub uninterp spec fn debug_quoted(text: Seq<char>) -> Seq<char>;

/// The digits of `n` in decimal, the highest first and none of them a
/// leading zero; zero is the one digit `0`.
pub open spec fn digits_text(n: nat) -> Seq<char>
    decreases n,
{
    let last = seq!['0', '1', '2', '3', '4', '5', '6', '7', '8', '9'][(n % 10) as int];
    if n < 10 {
        seq![last]
    } else {
        digits_text(n / 10).push(last)
    }
}

/// The number `n` in decimal digits, with a minus sign before them where it
/// is below zero.
pub open spec fn decimal_text(n: int) -> Seq<char> {
    if n < 0 {
        seq!['-'] + digits_text((-n) as nat)
    } else {
        digits_text(n as nat)
    }
}

/// The debug format of `str`, through `format`. Trusted: that the text
/// depends on the characters of `text` alone.
#[verifier::external_body]
fn quoted(text: &str) -> (out: String)
    ensures
        out@ == debug_quoted(text@),
{
    format!("{:?}", text)
}

/// `i64::to_string`. Trusted: that the text is the number in decimal, as
/// `decimal_text` spells it out.
#[verifier::external_body]
fn decimal(n: i64) -> (out: String)
    ensures
        out@ == decimal_text(n as int),
{
    n.to_string()
}

/// The debug format of a `serde_json::Error`, through `format`. Nothing is
/// claimed of the text.
#[verifier::external_body]
fn json_error_text(e: &serde_json::Error) -> (out: String) {
    format!("{:?}", e)
}

/// The debug format of a `std::io::Error`, through `format`. Nothing is
/// claimed of the text.
#[verifier::external_body]
fn io_error_text(e: &std::io::Error) -> (out: String) {
    format!("{:?}", e)
}

/// The debug format of a `reqwest::Error`, through `format`. Nothing is
/// claimed of the text.
#[verifier::external_body]
fn http_error_text(e: &reqwest::Error) -> (out: String) {
    format!("{:?}", e)
}

/// A structured failure as it is shown: the name of the record and its three
/// fields, the status in decimal and the two texts in quotes.
pub open spec fn blaze_error_text(e: BlazeError) -> Seq<char> {
    "BlazeError { status: "@ + decimal_text(e.status as int) + ", code: "@ + debug_quoted(e.code@)
        + ", message: "@ + debug_quoted(e.message@) + " }"@
}

/// The words that a failure's description begins with, by its kind. The two
/// kinds that carry nothing are described by these words alone.
pub open spec fn label(e: TransferError) -> Seq<char> {
    match e {
        TransferError::Blaze(_) => "Blaze Error: "@,
        TransferError::Text(_) => "Custom Error: "@,
        TransferError::Json(_) => "JSON Error: "@,
        TransferError::Io(_) => "IO Error: "@,
        TransferError::Request(_) => "Request Error: "@,
        TransferError::PoisonError => "Posion Error"@,
        TransferError::RusotoError => "Rusoto Error"@,
    }
}

/// A structured failure as it is shown.
pub fn blaze_error_message(e: &BlazeError) -> (out: String)
    ensures
        out@ == blaze_error_text(*e),
{
    let mut out = String::from_str("BlazeError { status: ");
    out.append(decimal(e.status).as_str());
    out.append(", code: ");
    out.append(quoted(e.code.as_str()).as_str());
    out.append(", message: ");
    out.append(quoted(e.message.as_str()).as_str());
    out.append(" }");
    out
}

impl TransferError {
    /// Describes the failure in one line: the words for its kind, then what
    /// it carries. A text is shown in quotes and a structured failure field by
    /// field; what a failure of the encoder, of a file or of a request is
    /// shown as is left to the crate that it comes from.
    pub fn message(&self) -> (out: String)
        ensures
            out@.len() >= label(*self).len(),
            out@.subrange(0, label(*self).len() as int) == label(*self),
            match *self {
                TransferError::Blaze(e) => out@ == label(*self) + blaze_error_text(e),
                TransferError::Text(text) => out@ == label(*self) + debug_quoted(text@),
                TransferError::PoisonError | TransferError::RusotoError => out@ == label(*self),
                _ => true,
            },
    {
        match self {
            TransferError::Blaze(e) => {
                let mut out = String::from_str("Blaze Error: ");
                out.append(blaze_error_message(e).as_str());
                assert(out@.subrange(0, label(*self).len() as int) =~= label(*self));
                out
            },
            TransferError::Text(text) => {
                let mut out = String::from_str("Custom Error: ");
                out.append(quoted(text.as_str()).as_str());
                assert(out@.subrange(0, label(*self).len() as int) =~= label(*self));
                out
            },
            TransferError::Json(e) => {
                let mut out = String::from_str("JSON Error: ");
                out.append(json_error_text(e).as_str());
                assert(out@.subrange(0, label(*self).len() as int) =~= label(*self));
                out
            },
            TransferError::Io(e) => {
                let mut out = String::from_str("IO Error: ");
                out.append(io_error_text(e).as_str());
                assert(out@.subrange(0, label(*self).len() as int) =~= label(*self));
                out
            },
            TransferError::Request(e) => {
                let mut out = String::from_str("Request Error: ");
                out.append(http_error_text(e).as_str());
                assert(out@.subrange(0, label(*self).len() as int) =~= label(*self));
                out
            },
            TransferError::PoisonError => {
                let out = String::from_str("Posion Error");
                assert(out@.subrange(0, label(*self).len() as int) =~= label(*self));
                out
            },
            TransferError::RusotoError => {
                let out = String::from_str("Rusoto Error");
                assert(out@.subrange(0, label(*self).len() as int) =~= label(*self));
                out
            },
        }
    }

    /// True of the failures that a second upload may cure: a structured
    /// failure of the destination whose status says that the authorization
    /// has expired (401) or that the service is unavailable (503).
    pub open spec fn spec_is_retryable(&self) -> bool {
        match self {
            TransferError::Blaze(e) => e.status == 401 || e.status == 503,
            _ => false,
        }
    }

    /// Whether a second upload may cure this failure.
    #[verifier::when_used_as_spec(spec_is_retryable)]
    pub fn is_retryable(&self) -> (out: bool)
        ensures
            out == self.spec_is_retryable(),
    {
        match self {
            TransferError::Blaze(e) => e.status == 401 || e.status == 503,
            _ => false,
        }
    }
}

} // verus!

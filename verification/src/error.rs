//! The ways in which an operation can fail.

use vstd::prelude::*;
use vstd::string::*;

use reqwest::Error as RequestFailure;
use std::io::Error as ReadFailure;

verus! {

/// `reqwest::Error`: a failure to send a request or to decode a reply. It is
/// carried through unread.
#[verifier::external_type_specification]
#[verifier::external_body]
pub struct ExRequestFailure(RequestFailure);

/// `std::io::Error`: a failure to read a local file. It is carried through
/// unread.
#[verifier::external_type_specification]
#[verifier::external_body]
pub struct ExReadFailure(ReadFailure);

/// Why an operation did not yield a result. The three kinds exclude each
/// other, and each is final: nothing is retried.
#[derive(Debug)]
pub enum Error {
    /// The service answered with a status outside 200..=299. `status` is the
    /// three digits of the code, a space, and the reason phrase.
    APIError { status: String },
    /// The request could not be sent, or the reply could not be decoded.
    RequestError(RequestFailure),
    /// A local file could not be read.
    FileIOError(ReadFailure),
}

/// A message followed by a detail: the two with a colon and a space between
/// them.
pub open spec fn detailed_text(message: Seq<char>, detail: Seq<char>) -> Seq<char> {
    message + ": "@ + detail
}

/// Joins a message and the detail that explains it.
pub fn detailed(message: &str, detail: &str) -> (line: String)
    ensures
        line@ == detailed_text(message@, detail@),
{
    let mut line = String::from_str(message);
    line.append(": ");
    line.append(detail);
    line
}

impl Error {
    /// What `message` returns, as a sequence of characters.
    pub open spec fn message_text(self) -> Seq<char> {
        match self {
            Error::APIError { status } => "GitHub responded with a HTTP status of "@ + status@,
            Error::RequestError(_) => "Network and parsing request failed"@,
            Error::FileIOError(_) => "File I/O error occurred"@,
        }
    }

    /// One line that names the kind of failure; for a refusal by the service
    /// it ends in the status.
    pub fn message(&self) -> (text: String)
        ensures
            text@ == self.message_text(),
    {
        match self {
            Error::APIError { status } => {
                String::from_str("GitHub responded with a HTTP status of ").concat(status.as_str())
            },
            Error::RequestError(_) => String::from_str("Network and parsing request failed"),
            Error::FileIOError(_) => String::from_str("File I/O error occurred"),
        }
    }

    /// The failure for the user: its kind and its detail. For a refusal by
    /// the service that is the message, which ends in the status. For the
    /// other two kinds it is the message, then what the cause says of
    /// itself.
    pub fn report(&self) -> (line: String)
        ensures
            self is APIError ==> line@ == self.message_text(),
            !(self is APIError) ==> exists|detail: Seq<char>|
                line@ == detailed_text(self.message_text(), detail),
    {
        let message = self.message();
        match self {
            Error::APIError { .. } => message,
            Error::RequestError(cause) => {
                let detail = cause.to_string();
                detailed(message.as_str(), detail.as_str())
            },
            Error::FileIOError(cause) => {
                let detail = cause.to_string();
                detailed(message.as_str(), detail.as_str())
            },
        }
    }
}

impl From<RequestFailure> for Error {
    fn from(cause: RequestFailure) -> (e: Error) {
        Error::RequestError(cause)
    }
}

impl vstd::std_specs::convert::FromSpecImpl<RequestFailure> for Error {
    open spec fn obeys_from_spec() -> bool {
        true
    }

    open spec fn from_spec(cause: RequestFailure) -> Error {
        Error::RequestError(cause)
    }
}

impl From<ReadFailure> for Error {
    fn from(cause: ReadFailure) -> (e: Error) {
        Error::FileIOError(cause)
    }
}

impl vstd::std_specs::convert::FromSpecImpl<ReadFailure> for Error {
    open spec fn obeys_from_spec() -> bool {
        true
    }

    open spec fn from_spec(cause: ReadFailure) -> Error {
        Error::FileIOError(cause)
    }
}

} // verus!

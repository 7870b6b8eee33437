//! Errors raised by network nodes.

use vstd::prelude::*;

verus! {

/// `std::io::Error`, carried through the library as an opaque value.
#[verifier::external_type_specification]
#[verifier::external_body]
pub struct ExIoError(std::io::Error);

/// Calls `<std::io::Error as ToString>::to_string`. The text depends on the
/// operating system's error descriptions, so the contract states nothing of it.
#[verifier::external_body]
fn io_error_text(e: &std::io::Error) -> (r: String) {
    e.to_string()
}

/// Internal errors used by the network nodes.
#[derive(Debug)]
pub enum NetworkError {
    Common(String),
    Listen(std::io::Error),
    Connection(String),
    SerializeError(String),
    DeserializeError(String),
    IoError(std::io::Error),
}

impl NetworkError {
    /// The error is a failure to connect to a remote peer.
    pub open spec fn is_connection_error(&self) -> bool {
        self is Connection
    }

    /// Whether the error is a failure to connect to a remote peer.
    pub fn is_connection(&self) -> (r: bool)
        ensures
            r == self.is_connection_error(),
            r == (self is Connection),
    {
        match self {
            NetworkError::Connection(_) => true,
            _ => false,
        }
    }

    /// `text` is the human readable description of the error. For `Listen`
    /// it ends in the operating system's description of the underlying I/O
    /// error, which is left open.
    pub open spec fn describes(&self, text: Seq<char>) -> bool {
        match self {
            NetworkError::Common(s) => text == s@,
            NetworkError::Listen(_) => exists|t: Seq<char>|
                text == "An error occurred while trying to listen: "@ + t,
            NetworkError::Connection(_) => text == "An error occurred when trying to connect."@,
            NetworkError::SerializeError(s) => text == "Failed to serialize data: "@ + s@,
            NetworkError::DeserializeError(s) => text == "Failed to deserialize data: "@ + s@,
            NetworkError::IoError(_) => text == "Failed to read/write file(s)"@,
        }
    }

    /// The human readable description of the error.
    pub fn message(&self) -> (r: String)
        ensures
            self.describes(r@),
    {
        match self {
            NetworkError::Common(s) => s.clone(),
            NetworkError::Listen(e) => {
                let mut r = String::new();
                r.append("An error occurred while trying to listen: ");
                let t = io_error_text(e);
                r.append(t.as_str());
                assert(r@ == "An error occurred while trying to listen: "@ + t@);
                r
            },
            NetworkError::Connection(_) => {
                let mut r = String::new();
                r.append("An error occurred when trying to connect.");
                r
            },
            NetworkError::SerializeError(s) => {
                let mut r = String::new();
                r.append("Failed to serialize data: ");
                r.append(s.as_str());
                r
            },
            NetworkError::DeserializeError(s) => {
                let mut r = String::new();
                r.append("Failed to deserialize data: ");
                r.append(s.as_str());
                r
            },
            NetworkError::IoError(_) => {
                let mut r = String::new();
                r.append("Failed to read/write file(s)");
                r
            },
        }
    }
}

/// Among the errors, exactly a failure to connect is a connection error:
/// common, listen, serialize, deserialize and I/O errors are not.
pub proof fn lemma_connection_error_is_connect_failure(e: NetworkError)
    ensures
        e.is_connection_error() <==> (e is Connection),
        e is Common ==> !e.is_connection_error(),
        e is Listen ==> !e.is_connection_error(),
        e is SerializeError ==> !e.is_connection_error(),
        e is DeserializeError ==> !e.is_connection_error(),
        e is IoError ==> !e.is_connection_error(),
{
}

} // verus!

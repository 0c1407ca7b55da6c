//! The errors a request can end in, and the plain values they carry.

use crate::text::{push_signed_decimal, signed_decimal};
use vstd::prelude::*;
use vstd::std_specs::convert::FromSpecImpl;
use vstd::string::StringExecFns;
use vstd::utf8::{decode_utf8, valid_utf8};

verus! {

/// How a finished process reported its end: its exit code, or `None` where
/// it ended without one (on Unix, when a signal ended it).
#[derive(Clone, Copy, Debug, PartialEq, Eq)]
pub struct ExitStatus {
    /// The exit code, if the process exited with one.
    pub code: Option<i32>,
}

impl ExitStatus {
    /// Whether the process reported success: it exited with code zero.
    pub open spec fn is_success(self) -> bool {
        self.code == Some(0i32)
    }

    /// Whether the process exited with exactly this code.
    pub open spec fn has_code(self, code: i32) -> bool {
        self.code == Some(code)
    }

    /// Whether the process reported success.
    pub fn success(&self) -> (b: bool)
        ensures
            b == self.is_success(),
    {
        self.exited_with(0)
    }

    /// Whether the process exited with exactly this code.
    pub fn exited_with(&self, code: i32) -> (b: bool)
        ensures
            b == self.has_code(code),
    {
        match self.code {
            Some(c) => c == code,
            None => false,
        }
    }
}

/// The kinds of I/O failure that the library tells apart.
#[derive(Clone, Copy, Debug, PartialEq, Eq)]
pub enum IoErrorKind {
    /// The executable was not found on the search path.
    NotFound,
    /// The request took longer than its timeout allowed.
    TimedOut,
    /// Any other failure of the operating system.
    Other,
}

/// An I/O failure: its kind and a description for people.
#[derive(Clone, Debug, PartialEq, Eq)]
pub struct IoError {
    /// What kind of failure this is.
    pub kind: IoErrorKind,
    /// A description of the failure.
    pub detail: String,
}

/// What an [`IoError`] is to the contracts.
pub struct IoErrorView {
    pub kind: IoErrorKind,
    pub detail: Seq<char>,
}

impl View for IoError {
    type V = IoErrorView;

    open spec fn view(&self) -> IoErrorView {
        IoErrorView { kind: self.kind, detail: self.detail@ }
    }
}

/// The failure that stands for a request that ran out of time.
pub open spec fn timed_out_view() -> IoErrorView {
    IoErrorView { kind: IoErrorKind::TimedOut, detail: "timed out"@ }
}

impl IoError {
    /// The failure that stands for a request that ran out of time.
    pub fn timed_out() -> (e: IoError)
        ensures
            e@ == timed_out_view(),
    {
        IoError { kind: IoErrorKind::TimedOut, detail: String::from_str("timed out") }
    }

    /// Whether this failure says that the executable does not exist.
    pub fn is_not_found(&self) -> (b: bool)
        ensures
            b == (self@.kind is NotFound),
    {
        match self.kind {
            IoErrorKind::NotFound => true,
            _ => false,
        }
    }

    /// Whether this failure says that the request ran out of time.
    pub fn is_timed_out(&self) -> (b: bool)
        ensures
            b == (self@.kind is TimedOut),
    {
        match self.kind {
            IoErrorKind::TimedOut => true,
            _ => false,
        }
    }
}

/// One captured output stream of a backend that failed.
#[derive(Clone, Debug, PartialEq, Eq, PartialOrd, Ord, Hash)]
pub struct CommandFailedOutput(pub Vec<u8>);

impl View for CommandFailedOutput {
    type V = Seq<u8>;

    open spec fn view(&self) -> Seq<u8> {
        self.0@
    }
}

/// The text that `String::from_utf8_lossy` makes of `bytes`: the text
/// that the bytes encode, with the replacement character in place of every
/// part that is not well-formed UTF-8.
pub uninterp spec fn utf8_lossy(bytes: Seq<u8>) -> Seq<char>;

/// `String::from_utf8_lossy` reads bytes as UTF-8 and never fails. What
/// is well-formed comes out as the text that it encodes; what is not is
/// replaced as `utf8_lossy` says.
#[verifier::external_body]
fn from_utf8_lossy(bytes: &[u8]) -> (text: String)
    ensures
        text@ == utf8_lossy(bytes@),
        valid_utf8(bytes@) ==> text@ == decode_utf8(bytes@),
{
    String::from_utf8_lossy(bytes).into_owned()
}

impl CommandFailedOutput {
    /// The captured bytes.
    pub fn into_bytes(self) -> (bytes: Vec<u8>)
        ensures
            bytes@ == self@,
    {
        self.0
    }

    /// The captured bytes as text, for people to read.
    pub fn to_string(&self) -> (text: String)
        ensures
            text@ == utf8_lossy(self@),
            valid_utf8(self@) ==> text@ == decode_utf8(self@),
    {
        from_utf8_lossy(self.0.as_slice())
    }
}

impl From<CommandFailedOutput> for Vec<u8> {
    fn from(out: CommandFailedOutput) -> (bytes: Vec<u8>) {
        out.0
    }
}

impl FromSpecImpl<CommandFailedOutput> for Vec<u8> {
    open spec fn obeys_from_spec() -> bool {
        true
    }

    open spec fn from_spec(out: CommandFailedOutput) -> Vec<u8> {
        out.0
    }
}

/// Why a request did not produce a response.
#[derive(Debug)]
pub enum Error {
    /// No supported HTTP client is installed on this system.
    SystemHTTPClientNotFound,
    /// Starting the client failed, or the client reported that the request
    /// ran out of time. Apart from timeouts the library makes no sense of
    /// what a client reports.
    IoError(IoError),
    /// The URL does not begin with the `http` or `https` scheme.
    InvalidUrlScheme,
    /// The client exited unsuccessfully for a reason other than a timeout.
    CommandFailed {
        /// How the client process ended.
        status: ExitStatus,
        /// Everything the client wrote to its standard output.
        stdout: CommandFailedOutput,
        /// Everything the client wrote to its standard error.
        stderr: CommandFailedOutput,
    },
}

/// What an [`Error`] is to the contracts.
pub enum ErrorView {
    SystemHTTPClientNotFound,
    IoError(IoErrorView),
    InvalidUrlScheme,
    CommandFailed { status: ExitStatus, stdout: Seq<u8>, stderr: Seq<u8> },
}

impl View for Error {
    type V = ErrorView;

    open spec fn view(&self) -> ErrorView {
        match *self {
            Error::SystemHTTPClientNotFound => ErrorView::SystemHTTPClientNotFound,
            Error::IoError(e) => ErrorView::IoError(e@),
            Error::InvalidUrlScheme => ErrorView::InvalidUrlScheme,
            Error::CommandFailed { status, stdout, stderr } => ErrorView::CommandFailed {
                status,
                stdout: stdout@,
                stderr: stderr@,
            },
        }
    }
}

impl ErrorView {
    /// The message that describes the error to people.
    pub open spec fn message(self) -> Seq<char> {
        match self {
            ErrorView::SystemHTTPClientNotFound => {
                "This system does not have an HTTP client installed"@
            },
            ErrorView::IoError(e) => "I/O error: "@ + e.detail,
            ErrorView::InvalidUrlScheme => "URL must have http or https scheme"@,
            ErrorView::CommandFailed { status, .. } => match status.code {
                Some(code) => "Process exited with code "@ + signed_decimal(code as int),
                None => "Process exited without a code"@,
            },
        }
    }
}

impl Error {
    /// Whether this error reports a request that ran out of time.
    pub fn is_timed_out(&self) -> (b: bool)
        ensures
            b == (self@ matches ErrorView::IoError(e) && e.kind is TimedOut),
    {
        match self {
            Error::IoError(e) => e.is_timed_out(),
            _ => false,
        }
    }

    /// The message that describes the error to people.
    pub fn to_string(&self) -> (message: String)
        ensures
            message@ == self@.message(),
    {
        match self {
            Error::SystemHTTPClientNotFound => String::from_str(
                "This system does not have an HTTP client installed",
            ),
            Error::IoError(e) => {
                let mut message = String::from_str("I/O error: ");
                message.append(e.detail.as_str());
                message
            },
            Error::InvalidUrlScheme => String::from_str("URL must have http or https scheme"),
            Error::CommandFailed { status, .. } => match status.code {
                Some(code) => {
                    let mut message = String::from_str("Process exited with code ");
                    push_signed_decimal(&mut message, code);
                    message
                },
                None => String::from_str("Process exited without a code"),
            },
        }
    }
}

} // verus!

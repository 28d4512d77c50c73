//! The errors that the operations of this library return.

use vstd::prelude::*;

use crate::ftp_status;
use crate::response::FtpResponse;

verus! {

/// Enum containing all FTP errors the library uses
#[derive(Debug, Clone)]
pub enum FtpError {
    /// Invalid response received from the FTP server
    InvalidResponseError(FtpResponse),
    /// Invalid format of response
    InvalidResponseFormatError,
    /// Error connecting to the FTP server
    ConnectionError,
    /// Invalid request for the given status code
    InvalidTypeError,
    /// Issues connecting to the datastream (Passive)
    DatastreamConnectionError,
    /// Syntax error (general)
    SyntaxError(String),
    /// Syntax error (parameters)
    SyntaxErrorParameters(String),
    /// Command unimplemented
    CommandUnimplemented(String),
    /// Service unavailable
    ServiceUnavailable,
    /// Not logged in
    NotLoggedIn,
    /// File is unavailable (No permission, nonexistant)
    FileUnavailable,
    /// Account is required for the action
    AccountRequired,
    /// Invalid file name
    InvalidFileName,
    /// Bad sequence of commands given
    BadCommandSequence,
    /// Server not ready (Sent ready-in)
    ServiceNotReady,
    /// Action aborted by the server
    ActionAborted,
    /// Insufficient storage space
    InsufficientStorage,
}

/// What an error says, with its texts as character sequences.
pub enum FtpErrorView {
    InvalidResponseError(u32, Seq<char>),
    InvalidResponseFormatError,
    ConnectionError,
    InvalidTypeError,
    DatastreamConnectionError,
    SyntaxError(Seq<char>),
    SyntaxErrorParameters(Seq<char>),
    CommandUnimplemented(Seq<char>),
    ServiceUnavailable,
    NotLoggedIn,
    FileUnavailable,
    AccountRequired,
    InvalidFileName,
    BadCommandSequence,
    ServiceNotReady,
    ActionAborted,
    InsufficientStorage,
}

impl View for FtpError {
    type V = FtpErrorView;

    open spec fn view(&self) -> FtpErrorView {
        match self {
            FtpError::InvalidResponseError(r) => FtpErrorView::InvalidResponseError(
                r.status,
                r.content@,
            ),
            FtpError::InvalidResponseFormatError => FtpErrorView::InvalidResponseFormatError,
            FtpError::ConnectionError => FtpErrorView::ConnectionError,
            FtpError::InvalidTypeError => FtpErrorView::InvalidTypeError,
            FtpError::DatastreamConnectionError => FtpErrorView::DatastreamConnectionError,
            FtpError::SyntaxError(c) => FtpErrorView::SyntaxError(c@),
            FtpError::SyntaxErrorParameters(c) => FtpErrorView::SyntaxErrorParameters(c@),
            FtpError::CommandUnimplemented(c) => FtpErrorView::CommandUnimplemented(c@),
            FtpError::ServiceUnavailable => FtpErrorView::ServiceUnavailable,
            FtpError::NotLoggedIn => FtpErrorView::NotLoggedIn,
            FtpError::FileUnavailable => FtpErrorView::FileUnavailable,
            FtpError::AccountRequired => FtpErrorView::AccountRequired,
            FtpError::InvalidFileName => FtpErrorView::InvalidFileName,
            FtpError::BadCommandSequence => FtpErrorView::BadCommandSequence,
            FtpError::ServiceNotReady => FtpErrorView::ServiceNotReady,
            FtpError::ActionAborted => FtpErrorView::ActionAborted,
            FtpError::InsufficientStorage => FtpErrorView::InsufficientStorage,
        }
    }
}

/// Whether `code` is one of the codes that `status_error` gives a named
/// error for.
pub open spec fn is_named_failure(code: u32) -> bool {
    code == ftp_status::NOT_LOGGED_IN || code == ftp_status::ACCOUNT_REQUIRED_LOGIN || code == ftp_status::ACCOUNT_REQUIRED_STORING
        || code == ftp_status::ACTION_NOT_TAKEN || code == ftp_status::FILE_ACTION_NOT_TAKEN || code
        == ftp_status::INSUFFICIENT_STORAGE || code == ftp_status::INSUFFICIENT_ALLOCATED_STORAGE || code
        == ftp_status::FILE_NAME_INVALID || code == ftp_status::DATA_CANNOT_CONNECT || code == ftp_status::DATA_CLOSED_ABORTING
        || code == ftp_status::ACTION_ABORTED_UNKOWN_PAGE || code == ftp_status::ACTION_ABORTED_PROCESSING || code
        == ftp_status::SYNTAX_ERROR || code == ftp_status::SYNTAX_ERROR_ARGUMENTS || code == ftp_status::BAD_COMMAND_SEQUENCE
        || code == ftp_status::COMMAND_NOT_IMPLEMENTED || code == ftp_status::COMMAND_NOT_IMPLEMENTED_UNNECESARY || code
        == ftp_status::SERVICE_NOT_AVAILABLE
}

/// The error that a reply with `status` and `content` stands for, after the
/// command whose text is `command`.
pub open spec fn status_error(status: u32, content: Seq<char>, command: Seq<char>) -> FtpErrorView {
    if status == ftp_status::NOT_LOGGED_IN {
        FtpErrorView::NotLoggedIn
    } else if status == ftp_status::ACCOUNT_REQUIRED_LOGIN || status == ftp_status::ACCOUNT_REQUIRED_STORING {
        FtpErrorView::AccountRequired
    } else if status == ftp_status::ACTION_NOT_TAKEN || status == ftp_status::FILE_ACTION_NOT_TAKEN {
        FtpErrorView::FileUnavailable
    } else if status == ftp_status::INSUFFICIENT_STORAGE || status == ftp_status::INSUFFICIENT_ALLOCATED_STORAGE {
        FtpErrorView::InsufficientStorage
    } else if status == ftp_status::FILE_NAME_INVALID {
        FtpErrorView::InvalidFileName
    } else if status == ftp_status::DATA_CANNOT_CONNECT {
        FtpErrorView::DatastreamConnectionError
    } else if status == ftp_status::DATA_CLOSED_ABORTING || status == ftp_status::ACTION_ABORTED_UNKOWN_PAGE || status
        == ftp_status::ACTION_ABORTED_PROCESSING {
        FtpErrorView::ActionAborted
    } else if status == ftp_status::SYNTAX_ERROR {
        FtpErrorView::SyntaxError(command)
    } else if status == ftp_status::SYNTAX_ERROR_ARGUMENTS {
        FtpErrorView::SyntaxErrorParameters(command)
    } else if status == ftp_status::BAD_COMMAND_SEQUENCE {
        FtpErrorView::BadCommandSequence
    } else if status == ftp_status::COMMAND_NOT_IMPLEMENTED || status == ftp_status::COMMAND_NOT_IMPLEMENTED_UNNECESARY {
        FtpErrorView::CommandUnimplemented(command)
    } else if status == ftp_status::SERVICE_NOT_AVAILABLE {
        FtpErrorView::ServiceUnavailable
    } else {
        FtpErrorView::InvalidResponseError(status, content)
    }
}

/// The character of the decimal digit `d`.
pub open spec fn digit_char(d: nat) -> char {
    if d == 0 {
        '0'
    } else if d == 1 {
        '1'
    } else if d == 2 {
        '2'
    } else if d == 3 {
        '3'
    } else if d == 4 {
        '4'
    } else if d == 5 {
        '5'
    } else if d == 6 {
        '6'
    } else if d == 7 {
        '7'
    } else if d == 8 {
        '8'
    } else {
        '9'
    }
}

/// `n` written in decimal, without leading zeros.
pub open spec fn decimal_text(n: nat) -> Seq<char>
    decreases n,
{
    if n < 10 {
        seq![digit_char(n)]
    } else {
        decimal_text(n / 10).push(digit_char(n % 10))
    }
}

/// What the `Debug` format of a string writes for `s`: the text in double
/// quotes, with quotes, backslashes and control characters escaped.
pub uninterp spec fn debug_quoted(s: Seq<char>) -> Seq<char>;

/// Relies on `<str as Debug>::fmt`, through `format!("{:?}")`.
#[verifier::external_body]
fn quote_debug(s: &str) -> (r: String)
    ensures
        r@ == debug_quoted(s@),
{
    format!("{:?}", s)
}

/// The character of the decimal digit `d`, as text.
fn digit_text(d: u32) -> (r: &'static str)
    requires
        d < 10,
    ensures
        r@ == seq![digit_char(d as nat)],
{
    proof {
        reveal_strlit("0");
        reveal_strlit("1");
        reveal_strlit("2");
        reveal_strlit("3");
        reveal_strlit("4");
        reveal_strlit("5");
        reveal_strlit("6");
        reveal_strlit("7");
        reveal_strlit("8");
        reveal_strlit("9");
    }
    if d == 0 {
        "0"
    } else if d == 1 {
        "1"
    } else if d == 2 {
        "2"
    } else if d == 3 {
        "3"
    } else if d == 4 {
        "4"
    } else if d == 5 {
        "5"
    } else if d == 6 {
        "6"
    } else if d == 7 {
        "7"
    } else if d == 8 {
        "8"
    } else {
        "9"
    }
}

/// `n` written in decimal.
fn decimal(n: u32) -> (r: String)
    ensures
        r@ == decimal_text(n as nat),
    decreases n,
{
    if n < 10 {
        String::from_str(digit_text(n))
    } else {
        let mut out = decimal(n / 10);
        out.append(digit_text(n % 10));
        out
    }
}

/// The `Debug` text of a reply with `status` and `content`.
pub open spec fn reply_debug_text(status: u32, content: Seq<char>) -> Seq<char> {
    "FtpResponse { status: "@ + decimal_text(status as nat) + ", content: "@ + debug_quoted(
        content,
    ) + " }"@
}

/// The human readable message of an error.
pub open spec fn error_message(e: FtpErrorView) -> Seq<char> {
    match e {
        FtpErrorView::InvalidResponseError(status, content) => "Invalid response recieved: "@
            + reply_debug_text(status, content),
        FtpErrorView::InvalidResponseFormatError => "Invalid format of response"@,
        FtpErrorView::ConnectionError => "Error connecting to FTP server"@,
        FtpErrorView::InvalidTypeError => "An invalid request was made by the client"@,
        FtpErrorView::DatastreamConnectionError => "Error connecting to the FTP datastream"@,
        FtpErrorView::SyntaxError(c) => "Invalid syntax in command: "@ + debug_quoted(c),
        FtpErrorView::SyntaxErrorParameters(c) => "Invalid syntax in command parameters: "@
            + debug_quoted(c),
        FtpErrorView::CommandUnimplemented(c) => "Command is not implemented: "@ + debug_quoted(c),
        FtpErrorView::ServiceUnavailable => "Service is unavailable at the moment"@,
        FtpErrorView::NotLoggedIn => "User is not authenticated with the server"@,
        FtpErrorView::FileUnavailable => "The requested file was unavailable"@,
        FtpErrorView::AccountRequired => "The requested action requires an account"@,
        FtpErrorView::InvalidFileName => "The file name provided has an invalid name"@,
        FtpErrorView::BadCommandSequence => "Bad command sequence"@,
        FtpErrorView::ServiceNotReady => "Service not ready"@,
        FtpErrorView::ActionAborted => "Action aborted by FTP server"@,
        FtpErrorView::InsufficientStorage => "Insufficient storage on server"@,
    }
}

fn with_debug_text(prefix: &str, s: &String) -> (r: String)
    ensures
        r@ == prefix@ + debug_quoted(s@),
{
    let mut out = String::from_str(prefix);
    let quoted = quote_debug(s.as_str());
    out.append(quoted.as_str());
    out
}

impl FtpError {
    /// Converts FtpError to a human readable error message.
    pub fn as_string(&self) -> (r: String)
        ensures
            r@ == error_message(self@),
    {
        match self {
            FtpError::InvalidResponseError(v) => {
                let mut out = String::from_str("Invalid response recieved: ");
                out.append("FtpResponse { status: ");
                let status = decimal(v.status);
                out.append(status.as_str());
                out.append(", content: ");
                let content = quote_debug(v.content.as_str());
                out.append(content.as_str());
                out.append(" }");
                out
            },
            FtpError::InvalidResponseFormatError => String::from_str("Invalid format of response"),
            FtpError::ConnectionError => String::from_str("Error connecting to FTP server"),
            FtpError::InvalidTypeError => String::from_str(
                "An invalid request was made by the client",
            ),
            FtpError::DatastreamConnectionError => String::from_str(
                "Error connecting to the FTP datastream",
            ),
            FtpError::SyntaxError(v) => with_debug_text("Invalid syntax in command: ", v),
            FtpError::SyntaxErrorParameters(v) => with_debug_text(
                "Invalid syntax in command parameters: ",
                v,
            ),
            FtpError::CommandUnimplemented(v) => with_debug_text("Command is not implemented: ", v),
            FtpError::ServiceUnavailable => String::from_str("Service is unavailable at the moment"),
            FtpError::NotLoggedIn => String::from_str("User is not authenticated with the server"),
            FtpError::FileUnavailable => String::from_str("The requested file was unavailable"),
            FtpError::AccountRequired => String::from_str(
                "The requested action requires an account",
            ),
            FtpError::InvalidFileName => String::from_str(
                "The file name provided has an invalid name",
            ),
            FtpError::BadCommandSequence => String::from_str("Bad command sequence"),
            FtpError::ServiceNotReady => String::from_str("Service not ready"),
            FtpError::ActionAborted => String::from_str("Action aborted by FTP server"),
            FtpError::InsufficientStorage => String::from_str("Insufficient storage on server"),
        }
    }
    /// Converts a status code into the respected error.
    pub fn from_status_code(response: FtpResponse, command: String) -> (r: FtpError)
        ensures
            r@ == status_error(response.status, response.content@, command@),
            r is InvalidResponseError <==> !is_named_failure(response.status),
    {
        let status = response.status;
        if status == ftp_status::NOT_LOGGED_IN {
            FtpError::NotLoggedIn
        } else if status == ftp_status::ACCOUNT_REQUIRED_LOGIN || status == ftp_status::ACCOUNT_REQUIRED_STORING {
            FtpError::AccountRequired
        } else if status == ftp_status::ACTION_NOT_TAKEN || status == ftp_status::FILE_ACTION_NOT_TAKEN {
            FtpError::FileUnavailable
        } else if status == ftp_status::INSUFFICIENT_STORAGE || status == ftp_status::INSUFFICIENT_ALLOCATED_STORAGE {
            FtpError::InsufficientStorage
        } else if status == ftp_status::FILE_NAME_INVALID {
            FtpError::InvalidFileName
        } else if status == ftp_status::DATA_CANNOT_CONNECT {
            FtpError::DatastreamConnectionError
        } else if status == ftp_status::DATA_CLOSED_ABORTING || status == ftp_status::ACTION_ABORTED_UNKOWN_PAGE || status
            == ftp_status::ACTION_ABORTED_PROCESSING {
            FtpError::ActionAborted
        } else if status == ftp_status::SYNTAX_ERROR {
            FtpError::SyntaxError(command)
        } else if status == ftp_status::SYNTAX_ERROR_ARGUMENTS {
            FtpError::SyntaxErrorParameters(command)
        } else if status == ftp_status::BAD_COMMAND_SEQUENCE {
            FtpError::BadCommandSequence
        } else if status == ftp_status::COMMAND_NOT_IMPLEMENTED || status == ftp_status::COMMAND_NOT_IMPLEMENTED_UNNECESARY {
            FtpError::CommandUnimplemented(command)
        } else if status == ftp_status::SERVICE_NOT_AVAILABLE {
            FtpError::ServiceUnavailable
        } else {
            FtpError::InvalidResponseError(response)
        }
    }
}

} // verus!

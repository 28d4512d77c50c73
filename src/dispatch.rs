//! What each reply means for the command it answers: per-command tables of
//! success and failure codes, and the decisions of the operations that take
//! more than one exchange.

use vstd::prelude::*;

use crate::command::{CommandKind, FtpCommand, command_line};
use crate::error::{FtpError, FtpErrorView, status_error};
use crate::decoder::{decoded, lemma_single_line_decodes};
use crate::ftp_status;
use crate::response::{
    FtpResponse,
    PassiveEndpoint,
    code_of,
    digit_value,
    is_digit,
    passive_endpoint,
};
use crate::text::{find_char, find_char_from, lemma_find_char};

verus! {

/// Whether `code` answers a command of kind `k` with success.
pub open spec fn is_success_code(k: CommandKind, code: u32) -> bool {
    match k {
        CommandKind::User => code == ftp_status::PASSWORD_NEEDED || code == ftp_status::LOGGED_IN,
        CommandKind::Pass => code == ftp_status::LOGGED_IN,
        CommandKind::Quit => code == ftp_status::SERVER_CLOSING_CONTROL,
        CommandKind::Cwd | CommandKind::Cdup | CommandKind::Rmd | CommandKind::Rnto => code
            == ftp_status::FILE_ACTION_COMPLETE,
        CommandKind::Pwd | CommandKind::Mkd => code == ftp_status::DIRECTORY_CREATED,
        CommandKind::Dele => code == ftp_status::COMMAND_OKAY || code
            == ftp_status::FILE_ACTION_COMPLETE,
        CommandKind::Rnfr => code == ftp_status::FILE_ACTION_COMPLETE || code
            == ftp_status::FILE_NEED_INFORMATION,
        CommandKind::Retr | CommandKind::Stor | CommandKind::List | CommandKind::Nlst => code
            == ftp_status::FILE_OPENING_DATA || code == ftp_status::DATA_TRANSFER_STARTING,
        CommandKind::Pasv => code == ftp_status::ENTERING_PASSIVE,
    }
}

/// The failures that most commands can meet: syntax, an unimplemented
/// command, an unavailable service, a session that is not logged in.
pub open spec fn is_common_failure(code: u32) -> bool {
    code == ftp_status::SYNTAX_ERROR || code == ftp_status::SYNTAX_ERROR_ARGUMENTS || code
        == ftp_status::COMMAND_NOT_IMPLEMENTED || code == ftp_status::SERVICE_NOT_AVAILABLE || code
        == ftp_status::NOT_LOGGED_IN
}

/// Whether `code` is a failure that a command of kind `k` names.
pub open spec fn is_failure_code(k: CommandKind, code: u32) -> bool {
    match k {
        CommandKind::User => code == ftp_status::NOT_LOGGED_IN || code
            == ftp_status::ACCOUNT_REQUIRED_LOGIN || code == ftp_status::SYNTAX_ERROR || code
            == ftp_status::SYNTAX_ERROR_ARGUMENTS || code == ftp_status::SERVICE_NOT_AVAILABLE,
        CommandKind::Pass => code == ftp_status::COMMAND_NOT_IMPLEMENTED_UNNECESARY || code
            == ftp_status::NOT_LOGGED_IN || code == ftp_status::SYNTAX_ERROR || code
            == ftp_status::SYNTAX_ERROR_ARGUMENTS || code == ftp_status::BAD_COMMAND_SEQUENCE
            || code == ftp_status::SERVICE_NOT_AVAILABLE || code
            == ftp_status::ACCOUNT_REQUIRED_LOGIN,
        CommandKind::Cwd | CommandKind::Cdup | CommandKind::Pwd | CommandKind::Mkd
        | CommandKind::Rmd => code == ftp_status::ACTION_NOT_TAKEN || is_common_failure(code),
        CommandKind::Dele | CommandKind::Rnfr => code == ftp_status::FILE_ACTION_NOT_TAKEN || code
            == ftp_status::ACTION_NOT_TAKEN || is_common_failure(code),
        CommandKind::Rnto => code == ftp_status::ACCOUNT_REQUIRED_STORING || code
            == ftp_status::FILE_NAME_INVALID || code == ftp_status::BAD_COMMAND_SEQUENCE
            || is_common_failure(code),
        CommandKind::Pasv => is_common_failure(code),
        CommandKind::Quit | CommandKind::Retr | CommandKind::Stor | CommandKind::List
        | CommandKind::Nlst => false,
    }
}

/// What a reply with `status` and `content` means for the command of kind `k`
/// whose wire text is `command`: success, the failure its code names, or an
/// unexpected reply.
pub open spec fn reply_outcome(k: CommandKind, command: Seq<char>, status: u32, content: Seq<char>) -> Result<
    (),
    FtpErrorView,
> {
    if is_success_code(k, status) {
        Ok(())
    } else if is_failure_code(k, status) {
        Err(status_error(status, content, command))
    } else {
        Err(FtpErrorView::InvalidResponseError(status, content))
    }
}

/// The outcome `r` with its error seen through its view.
pub open spec fn unit_view(r: Result<(), FtpError>) -> Result<(), FtpErrorView> {
    match r {
        Ok(()) => Ok(()),
        Err(e) => Err(e@),
    }
}

/// Whether `code` answers a command of kind `k` with success.
pub fn is_success(k: CommandKind, code: u32) -> (r: bool)
    ensures
        r == is_success_code(k, code),
{
    match k {
        CommandKind::User => code == ftp_status::PASSWORD_NEEDED || code == ftp_status::LOGGED_IN,
        CommandKind::Pass => code == ftp_status::LOGGED_IN,
        CommandKind::Quit => code == ftp_status::SERVER_CLOSING_CONTROL,
        CommandKind::Cwd | CommandKind::Cdup | CommandKind::Rmd | CommandKind::Rnto => code
            == ftp_status::FILE_ACTION_COMPLETE,
        CommandKind::Pwd | CommandKind::Mkd => code == ftp_status::DIRECTORY_CREATED,
        CommandKind::Dele => code == ftp_status::COMMAND_OKAY || code
            == ftp_status::FILE_ACTION_COMPLETE,
        CommandKind::Rnfr => code == ftp_status::FILE_ACTION_COMPLETE || code
            == ftp_status::FILE_NEED_INFORMATION,
        CommandKind::Retr | CommandKind::Stor | CommandKind::List | CommandKind::Nlst => code
            == ftp_status::FILE_OPENING_DATA || code == ftp_status::DATA_TRANSFER_STARTING,
        CommandKind::Pasv => code == ftp_status::ENTERING_PASSIVE,
    }
}

fn is_common(code: u32) -> (r: bool)
    ensures
        r == is_common_failure(code),
{
    code == ftp_status::SYNTAX_ERROR || code == ftp_status::SYNTAX_ERROR_ARGUMENTS || code
        == ftp_status::COMMAND_NOT_IMPLEMENTED || code == ftp_status::SERVICE_NOT_AVAILABLE || code
        == ftp_status::NOT_LOGGED_IN
}

/// Whether `code` is a failure that a command of kind `k` names.
pub fn is_failure(k: CommandKind, code: u32) -> (r: bool)
    ensures
        r == is_failure_code(k, code),
{
    match k {
        CommandKind::User => code == ftp_status::NOT_LOGGED_IN || code
            == ftp_status::ACCOUNT_REQUIRED_LOGIN || code == ftp_status::SYNTAX_ERROR || code
            == ftp_status::SYNTAX_ERROR_ARGUMENTS || code == ftp_status::SERVICE_NOT_AVAILABLE,
        CommandKind::Pass => code == ftp_status::COMMAND_NOT_IMPLEMENTED_UNNECESARY || code
            == ftp_status::NOT_LOGGED_IN || code == ftp_status::SYNTAX_ERROR || code
            == ftp_status::SYNTAX_ERROR_ARGUMENTS || code == ftp_status::BAD_COMMAND_SEQUENCE
            || code == ftp_status::SERVICE_NOT_AVAILABLE || code
            == ftp_status::ACCOUNT_REQUIRED_LOGIN,
        CommandKind::Cwd | CommandKind::Cdup | CommandKind::Pwd | CommandKind::Mkd
        | CommandKind::Rmd => code == ftp_status::ACTION_NOT_TAKEN || is_common(code),
        CommandKind::Dele | CommandKind::Rnfr => code == ftp_status::FILE_ACTION_NOT_TAKEN || code
            == ftp_status::ACTION_NOT_TAKEN || is_common(code),
        CommandKind::Rnto => code == ftp_status::ACCOUNT_REQUIRED_STORING || code
            == ftp_status::FILE_NAME_INVALID || code == ftp_status::BAD_COMMAND_SEQUENCE
            || is_common(code),
        CommandKind::Pasv => is_common(code),
        CommandKind::Quit | CommandKind::Retr | CommandKind::Stor | CommandKind::List
        | CommandKind::Nlst => false,
    }
}

/// Maps the reply to `command` onto that command's outcome.
pub fn check_reply(command: &FtpCommand, reply: &FtpResponse) -> (r: Result<(), FtpError>)
    ensures
        unit_view(r) == reply_outcome(
            command.kind_of(),
            command.wire_text(),
            reply.status,
            reply.content@,
        ),
{
    let k = command.kind();
    if is_success(k, reply.status) {
        Ok(())
    } else if is_failure(k, reply.status) {
        let copy = FtpResponse { status: reply.status, content: reply.content.clone() };
        Err(FtpError::from_status_code(copy, command.encode()))
    } else {
        Err(reply.as_unexpected())
    }
}

/// What the client does next in an operation that takes more than one
/// exchange.
#[derive(Debug)]
pub enum Step {
    /// Send this command and read its reply
    Send(FtpCommand),
    /// Read one more reply without sending anything
    AwaitReply,
    /// The operation is over, with this outcome
    Finish(Result<(), FtpError>),
}

/// The text of an optional password, empty when there is none.
pub open spec fn password_text(password: Option<&str>) -> Seq<char> {
    match password {
        Some(p) => p@,
        None => Seq::empty(),
    }
}

/// Decides on the server's greeting: ready, a notice that it will be ready
/// later (then one more reply must say ready), or anything else, which ends
/// the connection attempt. `notice_seen` says whether the notice came already.
pub fn greeting_step(reply: &FtpResponse, notice_seen: bool) -> (r: Step)
    ensures
        reply.status == ftp_status::SERVICE_READY ==> r matches Step::Finish(Ok(())),
        reply.status == ftp_status::READY_IN && !notice_seen ==> r is AwaitReply,
        reply.status != ftp_status::SERVICE_READY && (reply.status != ftp_status::READY_IN
            || notice_seen) ==> (r matches Step::Finish(Err(e)) && e@
            == FtpErrorView::InvalidResponseError(reply.status, reply.content@)),
{
    if reply.status == ftp_status::SERVICE_READY {
        Step::Finish(Ok(()))
    } else if reply.status == ftp_status::READY_IN && !notice_seen {
        Step::AwaitReply
    } else {
        Step::Finish(Err(reply.as_unexpected()))
    }
}

/// Decides on the reply to `USER username`: a request for the password sends
/// `PASS` with `password` (empty if there is none); any other reply ends the
/// login with the outcome the `USER` table gives it.
pub fn login_step(reply: &FtpResponse, username: &str, password: Option<&str>) -> (r: Step)
    ensures
        reply.status == ftp_status::PASSWORD_NEEDED ==> (r matches Step::Send(FtpCommand::Pass(p))
            && p@ == password_text(password)),
        reply.status != ftp_status::PASSWORD_NEEDED ==> (r matches Step::Finish(res) && unit_view(
            res,
        ) == reply_outcome(
            CommandKind::User,
            command_line(CommandKind::User, Some(username@)),
            reply.status,
            reply.content@,
        )),
{
    if reply.status == ftp_status::PASSWORD_NEEDED {
        let p = match password {
            Some(p) => String::from_str(p),
            None => String::new(),
        };
        Step::Send(FtpCommand::Pass(p))
    } else {
        let user = FtpCommand::User(String::from_str(username));
        Step::Finish(check_reply(&user, reply))
    }
}

/// Decides on the reply to `RNFR source`: only "action complete" or "need
/// more information" go on to `RNTO target`; any other reply ends the rename
/// with the outcome the `RNFR` table gives it, and `RNTO` is never sent.
pub fn rename_step(reply: &FtpResponse, source: &str, target: &str) -> (r: Step)
    ensures
        is_success_code(CommandKind::Rnfr, reply.status) ==> (r matches Step::Send(
            FtpCommand::Rnto(t),
        ) && t@ == target@),
        !is_success_code(CommandKind::Rnfr, reply.status) ==> !(r is Send),
        !is_success_code(CommandKind::Rnfr, reply.status) ==> (r matches Step::Finish(res)
            && unit_view(res) == reply_outcome(
            CommandKind::Rnfr,
            command_line(CommandKind::Rnfr, Some(source@)),
            reply.status,
            reply.content@,
        )),
{
    if is_success(CommandKind::Rnfr, reply.status) {
        Step::Send(FtpCommand::Rnto(String::from_str(target)))
    } else {
        let rnfr = FtpCommand::Rnfr(String::from_str(source));
        Step::Finish(check_reply(&rnfr, reply))
    }
}

/// The text between the first two `"` of `s`, if it holds two.
pub open spec fn quoted_path(s: Seq<char>) -> Option<Seq<char>> {
    let i = find_char(s, '"', 0);
    let j = find_char(s, '"', i + 1);
    if j < s.len() {
        Some(s.subrange(i + 1, j))
    } else {
        None
    }
}

/// The outcome of an exchange that yields a value, with its error seen
/// through its view.
pub open spec fn error_view<T>(r: Result<T, FtpError>) -> Option<FtpErrorView> {
    match r {
        Ok(_) => None,
        Err(e) => Some(e@),
    }
}

/// The working directory that the reply to `PWD` reports: the text between
/// its first two `"`.
pub fn pwd_result(reply: &FtpResponse) -> (r: Result<String, FtpError>)
    ensures
        reply.status == ftp_status::DIRECTORY_CREATED ==> match quoted_path(reply.content@) {
            Some(p) => r matches Ok(path) && path@ == p,
            None => r matches Err(FtpError::InvalidResponseFormatError),
        },
        reply.status != ftp_status::DIRECTORY_CREATED ==> r is Err && Err::<(), FtpErrorView>(error_view(r)->0)
            == reply_outcome(CommandKind::Pwd, command_line(CommandKind::Pwd, None), reply.status, reply.content@),
{
    if reply.status == ftp_status::DIRECTORY_CREATED {
        let s = reply.content.as_str();
        let n = s.unicode_len();
        let i = find_char_from(s, '"', 0);
        proof {
            lemma_find_char(s@, '"', 0);
        }
        if i >= n {
            return Err(FtpError::InvalidResponseFormatError);
        }
        let j = find_char_from(s, '"', i + 1);
        proof {
            lemma_find_char(s@, '"', i + 1);
        }
        if j >= n {
            return Err(FtpError::InvalidResponseFormatError);
        }
        Ok(String::from_str(s.substring_char(i + 1, j)))
    } else {
        let pwd = FtpCommand::Pwd;
        match check_reply(&pwd, reply) {
            Ok(()) => Err(reply.as_unexpected()),
            Err(e) => Err(e),
        }
    }
}

/// The data-connection endpoint that the reply to `PASV` advertises.
pub fn pasv_result(reply: &FtpResponse) -> (r: Result<PassiveEndpoint, FtpError>)
    ensures
        reply.status == ftp_status::ENTERING_PASSIVE ==> match passive_endpoint(reply.content@) {
            Some(e) => r matches Ok(ep) && ep@ == e,
            None => (r matches Err(FtpError::InvalidResponseError(e)) && e.status == reply.status
                && e.content@ == reply.content@),
        },
        reply.status != ftp_status::ENTERING_PASSIVE ==> r is Err && Err::<(), FtpErrorView>(error_view(r)->0)
            == reply_outcome(CommandKind::Pasv, command_line(CommandKind::Pasv, None), reply.status, reply.content@),
{
    if reply.status == ftp_status::ENTERING_PASSIVE {
        reply.parse_pasv_addr()
    } else {
        let pasv = FtpCommand::Pasv;
        match check_reply(&pasv, reply) {
            Ok(()) => Err(reply.as_unexpected()),
            Err(e) => Err(e),
        }
    }
}

/// Whether `code` confirms that a transfer on the data connection finished.
pub open spec fn is_transfer_complete_code(code: u32) -> bool {
    code == ftp_status::DATA_CLOSING || code == ftp_status::FILE_ACTION_COMPLETE
}

/// Maps the reply that closes a transfer: "closing data connection" or
/// "action complete" confirm it, anything else is unexpected.
pub fn transfer_complete(reply: &FtpResponse) -> (r: Result<(), FtpError>)
    ensures
        is_transfer_complete_code(reply.status) ==> r is Ok,
        !is_transfer_complete_code(reply.status) ==> (r matches Err(e) && e@
            == FtpErrorView::InvalidResponseError(reply.status, reply.content@)),
{
    if reply.status == ftp_status::DATA_CLOSING || reply.status == ftp_status::FILE_ACTION_COMPLETE {
        Ok(())
    } else {
        Err(reply.as_unexpected())
    }
}

/// Sending a command and decoding a one-line reply to it gives the outcome
/// that the command's table assigns to the reply's code: success for one of
/// its success codes, the failure that the code names for one of its failure
/// codes, and an unexpected reply, which carries the reply, for any other.
pub proof fn lemma_command_reply_round_trip(command: FtpCommand, digits: Seq<char>, text: Seq<char>)
    requires
        digits.len() == 3,
        forall|i: int| 0 <= i < 3 ==> is_digit(#[trigger] digits[i]),
    ensures
        ({
            let line = digits + " "@ + text;
            let code = code_of(digits) as u32;
            let k = command.kind_of();
            &&& decoded(seq![line]) == Ok::<Option<(nat, Seq<char>)>, ()>(
                Some((code_of(digits), line)),
            )
            &&& is_success_code(k, code) ==> reply_outcome(k, command.wire_text(), code, line)
                == Ok::<(), FtpErrorView>(())
            &&& is_failure_code(k, code) ==> reply_outcome(k, command.wire_text(), code, line)
                == Err::<(), FtpErrorView>(status_error(code, line, command.wire_text()))
            &&& !is_success_code(k, code) && !is_failure_code(k, code) ==> reply_outcome(
                k,
                command.wire_text(),
                code,
                line,
            ) == Err::<(), FtpErrorView>(FtpErrorView::InvalidResponseError(code, line))
        }),
{
    lemma_single_line_decodes(digits, text);
    assert(code_of(digits) <= 999) by {
        assert(digit_value(digits[0]) <= 9 && digit_value(digits[1]) <= 9 && digit_value(digits[2])
            <= 9);
    }
}

} // verus!

//! The commands a client sends on the control connection, and their wire text.

use vstd::prelude::*;

verus! {

/// The kinds of command this client sends, without their arguments.
#[derive(Debug, Clone, Copy, PartialEq, Eq, Structural)]
pub enum CommandKind {
    User,
    Pass,
    Quit,
    Cwd,
    Cdup,
    Pwd,
    Mkd,
    Rmd,
    Dele,
    Rnfr,
    Rnto,
    Retr,
    Stor,
    List,
    Nlst,
    Pasv,
}

/// One command of the control connection, with its argument.
#[derive(Debug, Clone)]
pub enum FtpCommand {
    /// Sends the user name
    User(String),
    /// Sends the password
    Pass(String),
    /// Ends the session
    Quit,
    /// Changes the working directory
    Cwd(String),
    /// Changes to the parent directory
    Cdup,
    /// Asks for the working directory
    Pwd,
    /// Creates a directory
    Mkd(String),
    /// Removes a directory
    Rmd(String),
    /// Deletes a file
    Dele(String),
    /// Names the file to rename
    Rnfr(String),
    /// Names the new name of the file
    Rnto(String),
    /// Retrieves a file
    Retr(String),
    /// Stores a file
    Stor(String),
    /// Lists the working directory
    List,
    /// Lists the names in the working directory
    Nlst,
    /// Asks the server to wait for a data connection
    Pasv,
}

/// The word that starts a command of kind `k`.
pub open spec fn verb(k: CommandKind) -> Seq<char> {
    match k {
        CommandKind::User => "USER"@,
        CommandKind::Pass => "PASS"@,
        CommandKind::Quit => "QUIT"@,
        CommandKind::Cwd => "CWD"@,
        CommandKind::Cdup => "CDUP"@,
        CommandKind::Pwd => "PWD"@,
        CommandKind::Mkd => "MKD"@,
        CommandKind::Rmd => "RMD"@,
        CommandKind::Dele => "DELE"@,
        CommandKind::Rnfr => "RNFR"@,
        CommandKind::Rnto => "RNTO"@,
        CommandKind::Retr => "RETR"@,
        CommandKind::Stor => "STOR"@,
        CommandKind::List => "LIST"@,
        CommandKind::Nlst => "NLST"@,
        CommandKind::Pasv => "PASV"@,
    }
}

/// The wire text of a command of kind `k` with argument `arg`: the verb, a
/// space and the argument if there is one, then CRLF.
pub open spec fn command_line(k: CommandKind, arg: Option<Seq<char>>) -> Seq<char> {
    match arg {
        Some(a) => verb(k) + " "@ + a + "\r\n"@,
        None => verb(k) + "\r\n"@,
    }
}

impl FtpCommand {
    /// The kind of this command.
    pub open spec fn kind_of(&self) -> CommandKind {
        match self {
            FtpCommand::User(_) => CommandKind::User,
            FtpCommand::Pass(_) => CommandKind::Pass,
            FtpCommand::Quit => CommandKind::Quit,
            FtpCommand::Cwd(_) => CommandKind::Cwd,
            FtpCommand::Cdup => CommandKind::Cdup,
            FtpCommand::Pwd => CommandKind::Pwd,
            FtpCommand::Mkd(_) => CommandKind::Mkd,
            FtpCommand::Rmd(_) => CommandKind::Rmd,
            FtpCommand::Dele(_) => CommandKind::Dele,
            FtpCommand::Rnfr(_) => CommandKind::Rnfr,
            FtpCommand::Rnto(_) => CommandKind::Rnto,
            FtpCommand::Retr(_) => CommandKind::Retr,
            FtpCommand::Stor(_) => CommandKind::Stor,
            FtpCommand::List => CommandKind::List,
            FtpCommand::Nlst => CommandKind::Nlst,
            FtpCommand::Pasv => CommandKind::Pasv,
        }
    }

    /// The argument of this command, if it takes one.
    pub open spec fn argument(&self) -> Option<Seq<char>> {
        match self {
            FtpCommand::User(a) => Some(a@),
            FtpCommand::Pass(a) => Some(a@),
            FtpCommand::Cwd(a) => Some(a@),
            FtpCommand::Mkd(a) => Some(a@),
            FtpCommand::Rmd(a) => Some(a@),
            FtpCommand::Dele(a) => Some(a@),
            FtpCommand::Rnfr(a) => Some(a@),
            FtpCommand::Rnto(a) => Some(a@),
            FtpCommand::Retr(a) => Some(a@),
            FtpCommand::Stor(a) => Some(a@),
            _ => None,
        }
    }

    /// The wire text of this command.
    pub open spec fn wire_text(&self) -> Seq<char> {
        command_line(self.kind_of(), self.argument())
    }

    /// The kind of this command.
    pub fn kind(&self) -> (r: CommandKind)
        ensures
            r == self.kind_of(),
    {
        match self {
            FtpCommand::User(_) => CommandKind::User,
            FtpCommand::Pass(_) => CommandKind::Pass,
            FtpCommand::Quit => CommandKind::Quit,
            FtpCommand::Cwd(_) => CommandKind::Cwd,
            FtpCommand::Cdup => CommandKind::Cdup,
            FtpCommand::Pwd => CommandKind::Pwd,
            FtpCommand::Mkd(_) => CommandKind::Mkd,
            FtpCommand::Rmd(_) => CommandKind::Rmd,
            FtpCommand::Dele(_) => CommandKind::Dele,
            FtpCommand::Rnfr(_) => CommandKind::Rnfr,
            FtpCommand::Rnto(_) => CommandKind::Rnto,
            FtpCommand::Retr(_) => CommandKind::Retr,
            FtpCommand::Stor(_) => CommandKind::Stor,
            FtpCommand::List => CommandKind::List,
            FtpCommand::Nlst => CommandKind::Nlst,
            FtpCommand::Pasv => CommandKind::Pasv,
        }
    }

    fn verb_text(&self) -> (r: &'static str)
        ensures
            r@ == verb(self.kind_of()),
    {
        match self {
            FtpCommand::User(_) => "USER",
            FtpCommand::Pass(_) => "PASS",
            FtpCommand::Quit => "QUIT",
            FtpCommand::Cwd(_) => "CWD",
            FtpCommand::Cdup => "CDUP",
            FtpCommand::Pwd => "PWD",
            FtpCommand::Mkd(_) => "MKD",
            FtpCommand::Rmd(_) => "RMD",
            FtpCommand::Dele(_) => "DELE",
            FtpCommand::Rnfr(_) => "RNFR",
            FtpCommand::Rnto(_) => "RNTO",
            FtpCommand::Retr(_) => "RETR",
            FtpCommand::Stor(_) => "STOR",
            FtpCommand::List => "LIST",
            FtpCommand::Nlst => "NLST",
            FtpCommand::Pasv => "PASV",
        }
    }

    fn argument_text(&self) -> (r: Option<&String>)
        ensures
            match r {
                Some(a) => self.argument() == Some(a@),
                None => self.argument() is None,
            },
    {
        match self {
            FtpCommand::User(a) => Some(a),
            FtpCommand::Pass(a) => Some(a),
            FtpCommand::Cwd(a) => Some(a),
            FtpCommand::Mkd(a) => Some(a),
            FtpCommand::Rmd(a) => Some(a),
            FtpCommand::Dele(a) => Some(a),
            FtpCommand::Rnfr(a) => Some(a),
            FtpCommand::Rnto(a) => Some(a),
            FtpCommand::Retr(a) => Some(a),
            FtpCommand::Stor(a) => Some(a),
            _ => None,
        }
    }

    /// Encodes the command as it goes on the wire, CRLF included.
    pub fn encode(&self) -> (r: String)
        ensures
            r@ == self.wire_text(),
    {
        let mut out = String::from_str(self.verb_text());
        match self.argument_text() {
            Some(a) => {
                out.append(" ");
                out.append(a.as_str());
            },
            None => {},
        }
        out.append("\r\n");
        out
    }
}

} // verus!

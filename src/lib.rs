//! A client-side engine for the FTP control connection: command encoding,
//! reply decoding, per-command status dispatch and passive-address parsing.

pub mod command;
pub mod decoder;
pub mod dispatch;
pub mod error;
pub mod filestructure;
pub mod ftp_status;
pub mod response;
pub mod text;

pub use command::{CommandKind, FtpCommand};
pub use error::FtpError;
pub use response::{FtpResponse, PassiveEndpoint};

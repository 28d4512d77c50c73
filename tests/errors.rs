use ftp_lib::filestructure::{listing_lines, DirectoryItem, DirectoryItemType};
use ftp_lib::{FtpError, FtpResponse};

fn response(status: u32, content: &str) -> FtpResponse {
    FtpResponse { status, content: content.to_string() }
}

#[test]
fn status_codes_map_to_errors() {
    let cmd = "STOR f\r\n".to_string();
    let e = |s: u32| FtpError::from_status_code(response(s, "x"), cmd.clone());
    assert!(matches!(e(530), FtpError::NotLoggedIn));
    assert!(matches!(e(332), FtpError::AccountRequired));
    assert!(matches!(e(532), FtpError::AccountRequired));
    assert!(matches!(e(450), FtpError::FileUnavailable));
    assert!(matches!(e(550), FtpError::FileUnavailable));
    assert!(matches!(e(452), FtpError::InsufficientStorage));
    assert!(matches!(e(552), FtpError::InsufficientStorage));
    assert!(matches!(e(553), FtpError::InvalidFileName));
    assert!(matches!(e(425), FtpError::DatastreamConnectionError));
    assert!(matches!(e(426), FtpError::ActionAborted));
    assert!(matches!(e(451), FtpError::ActionAborted));
    assert!(matches!(e(551), FtpError::ActionAborted));
    assert!(matches!(e(500), FtpError::SyntaxError(c) if c == "STOR f\r\n"));
    assert!(matches!(e(501), FtpError::SyntaxErrorParameters(c) if c == "STOR f\r\n"));
    assert!(matches!(e(503), FtpError::BadCommandSequence));
    assert!(matches!(e(502), FtpError::CommandUnimplemented(_)));
    assert!(matches!(e(202), FtpError::CommandUnimplemented(_)));
    assert!(matches!(e(421), FtpError::ServiceUnavailable));
    assert!(matches!(e(299), FtpError::InvalidResponseError(r) if r.status == 299 && r.content == "x"));
}

#[test]
fn error_messages() {
    assert_eq!(FtpError::NotLoggedIn.as_string(), "User is not authenticated with the server");
    assert_eq!(FtpError::InvalidResponseFormatError.as_string(), "Invalid format of response");
    assert_eq!(
        FtpError::SyntaxError("CWD x\r\n".to_string()).as_string(),
        "Invalid syntax in command: \"CWD x\\r\\n\""
    );
    assert_eq!(
        FtpError::CommandUnimplemented("PASS \"q\"".to_string()).as_string(),
        "Command is not implemented: \"PASS \\\"q\\\"\""
    );
}

#[test]
fn unexpected_reply_message_shows_the_reply() {
    let r = response(299, "299 odd \"reply\"");
    let expected = format!("Invalid response recieved: {:?}", r.clone());
    assert_eq!(FtpError::InvalidResponseError(r).as_string(), expected);
    assert_eq!(
        FtpError::InvalidResponseError(response(1000, "a")).as_string(),
        "Invalid response recieved: FtpResponse { status: 1000, content: \"a\" }"
    );
}

#[test]
fn listing_line_for_directory() {
    let item =
        DirectoryItem::parse_line("drwxr-xr-x    2 ftp      ftp          4096 Jan 05 12:30 docs")
            .unwrap();
    assert_eq!(item.item_type(), DirectoryItemType::Directory);
    assert_eq!(item.name(), "docs");
}

#[test]
fn listing_line_for_file_and_link() {
    let item: DirectoryItem =
        "-rw-r--r--    1 ftp      ftp            10 Feb  3  2020 my notes.txt".parse().unwrap();
    assert_eq!(item.item_type(), DirectoryItemType::File);
    assert_eq!(item.name(), "my notes.txt");
    let item = DirectoryItem::parse_line("lrwxrwxrwx 1 a b 7 Mar 10 09:15 link -> target").unwrap();
    assert_eq!(item.item_type(), DirectoryItemType::Link);
    assert_eq!(item.name(), "link -> target");
}

#[test]
fn listing_line_errors() {
    assert_eq!(DirectoryItem::parse_line("").unwrap_err(), "Unknown type");
    assert_eq!(
        DirectoryItem::parse_line("total 12").unwrap_err(),
        "Unknown type"
    );
    assert_eq!(
        DirectoryItem::parse_line("-rw-r--r-- 1 a b 10 no date here").unwrap_err(),
        "No name found"
    );
}

#[test]
fn listing_payload_lines() {
    assert_eq!(listing_lines("a.txt\r\nb.txt\r\n"), vec!["a.txt", "b.txt"]);
    assert_eq!(listing_lines("a\nb"), vec!["a", "b"]);
    assert_eq!(listing_lines("a\r\n\r\nb\r\n\r\n\r\n"), vec!["a", "", "b"]);
    assert!(listing_lines("").is_empty());
    assert!(listing_lines("\r\n\n").is_empty());
}

use ftp_lib::decoder::{decode_reply, strip_line_ending};
use ftp_lib::{FtpError, FtpResponse};

fn lines(ls: &[&str]) -> Vec<String> {
    ls.iter().map(|l| l.to_string()).collect()
}

#[test]
fn single_line_reply_keeps_code_and_text() {
    let r = decode_reply(&lines(&["220 Service ready"])).unwrap().unwrap();
    assert_eq!(r.status, 220);
    assert_eq!(r.content, "220 Service ready");
}

#[test]
fn single_line_reply_ignores_following_lines() {
    let r = decode_reply(&lines(&["250 done", "226 later"])).unwrap().unwrap();
    assert_eq!(r.status, 250);
    assert_eq!(r.content, "250 done");
}

#[test]
fn single_line_reply_with_empty_text() {
    let r = decode_reply(&lines(&["200 "])).unwrap().unwrap();
    assert_eq!(r.status, 200);
    assert_eq!(r.content, "200 ");
}

#[test]
fn multi_line_reply_joins_all_lines() {
    let r = decode_reply(&lines(&["230-Welcome", "  hello there", "230-still going", "230 last"]))
        .unwrap()
        .unwrap();
    assert_eq!(r.status, 230);
    assert_eq!(r.content, "230-Welcome  hello there230-still going230 last");
}

#[test]
fn multi_line_reply_closes_on_its_own_code_only() {
    let r = decode_reply(&lines(&["211-Status", "220 other code", "211 end"])).unwrap().unwrap();
    assert_eq!(r.status, 211);
    assert_eq!(r.content, "211-Status220 other code211 end");
}

#[test]
fn multi_line_reply_incomplete() {
    assert!(matches!(decode_reply(&lines(&["230-Welcome", "more"])), Ok(None)));
}

#[test]
fn no_lines_yet() {
    assert!(matches!(decode_reply(&Vec::new()), Ok(None)));
}

#[test]
fn short_first_line_is_malformed() {
    assert!(matches!(
        decode_reply(&lines(&["22"])),
        Err(FtpError::InvalidResponseFormatError)
    ));
}

#[test]
fn non_digit_code_is_malformed() {
    assert!(matches!(
        decode_reply(&lines(&["2x0 ready"])),
        Err(FtpError::InvalidResponseFormatError)
    ));
    assert!(matches!(
        decode_reply(&lines(&["220_ready"])),
        Err(FtpError::InvalidResponseFormatError)
    ));
}

#[test]
fn decoding_twice_gives_the_same_reply() {
    let input = lines(&["257-first", "body", "257 end"]);
    let a = decode_reply(&input).unwrap().unwrap();
    let b = decode_reply(&input).unwrap().unwrap();
    assert_eq!(a.status, b.status);
    assert_eq!(a.content, b.content);
}

#[test]
fn strips_crlf_and_lf() {
    assert_eq!(strip_line_ending("220 ok\r\n"), "220 ok");
    assert_eq!(strip_line_ending("220 ok\n"), "220 ok");
    assert_eq!(strip_line_ending("220 ok"), "220 ok");
    assert_eq!(strip_line_ending(""), "");
}

#[test]
fn from_line_parses_a_single_line() {
    let r = FtpResponse::from_line("331 Password required").unwrap();
    assert_eq!(r.status, 331);
    assert_eq!(r.content, "331 Password required");
    assert!(matches!(
        FtpResponse::from_line("331-more"),
        Err(FtpError::InvalidResponseFormatError)
    ));
}

#[test]
fn passive_endpoint_is_parsed() {
    let r = FtpResponse {
        status: 227,
        content: "227 Entering passive (127,0,0,1,250,29)".to_string(),
    };
    let ep = r.parse_pasv_addr().unwrap();
    assert_eq!(ep.octets, [127, 0, 0, 1]);
    assert_eq!(ep.port, 64029);
}

#[test]
fn passive_endpoint_accepts_plus_sign() {
    let r = FtpResponse {
        status: 227,
        content: "227 Entering Passive Mode (10,+0,0,2,0,21).".to_string(),
    };
    let ep = r.parse_pasv_addr().unwrap();
    assert_eq!(ep.octets, [10, 0, 0, 2]);
    assert_eq!(ep.port, 21);
}

#[test]
fn passive_endpoint_needs_passive_code() {
    let r = FtpResponse {
        status: 200,
        content: "200 Entering passive (127,0,0,1,250,29)".to_string(),
    };
    assert!(matches!(r.parse_pasv_addr(), Err(FtpError::InvalidTypeError)));
}

#[test]
fn passive_endpoint_malformed_payloads() {
    for content in [
        "227 Entering passive 127,0,0,1,250,29",
        "227 Entering passive )127,0,0,1,250,29(",
        "227 Entering passive (127,0,0,1,250)",
        "227 Entering passive (127,0,0,1,250,29,1)",
        "227 Entering passive (256,0,0,1,250,29)",
        "227 Entering passive (127,0,0,1,256,0)",
        "227 Entering passive (127,0,0, 1,250,29)",
        "227 Entering passive (127,0,,1,250,29)",
    ] {
        let r = FtpResponse { status: 227, content: content.to_string() };
        assert!(
            matches!(
                r.parse_pasv_addr(),
                Err(FtpError::InvalidResponseError(e)) if e.status == 227 && e.content == content
            ),
            "{}",
            content
        );
    }
}

#[test]
fn response_from_str() {
    let r: FtpResponse = "226 Transfer complete".parse().unwrap();
    assert_eq!(r.status, 226);
    assert_eq!(r.content, "226 Transfer complete");
    assert!(matches!(
        "22".parse::<FtpResponse>(),
        Err(FtpError::InvalidResponseFormatError)
    ));
}

#[test]
fn multi_line_reply_of_two_lines() {
    let r = decode_reply(&lines(&["230-first", "230 last"])).unwrap().unwrap();
    assert_eq!(r.status, 230);
    assert_eq!(r.content, "230-first230 last");
}

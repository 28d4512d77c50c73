use ftp_lib::decoder::decode_reply;
use ftp_lib::dispatch::{
    check_reply, greeting_step, login_step, pasv_result, pwd_result, rename_step,
    transfer_complete, Step,
};
use ftp_lib::{FtpCommand, FtpError, FtpResponse};

fn reply(line: &str) -> FtpResponse {
    decode_reply(&vec![line.to_string()]).unwrap().unwrap()
}

#[test]
fn commands_encode_with_crlf() {
    assert_eq!(FtpCommand::User("bob".to_string()).encode(), "USER bob\r\n");
    assert_eq!(FtpCommand::Pass("pw".to_string()).encode(), "PASS pw\r\n");
    assert_eq!(FtpCommand::Pwd.encode(), "PWD\r\n");
    assert_eq!(FtpCommand::Cdup.encode(), "CDUP\r\n");
    assert_eq!(FtpCommand::Rnfr("a.txt".to_string()).encode(), "RNFR a.txt\r\n");
    assert_eq!(FtpCommand::Nlst.encode(), "NLST\r\n");
    assert_eq!(FtpCommand::Pasv.encode(), "PASV\r\n");
}

#[test]
fn pwd_returns_quoted_path() {
    let r = pwd_result(&reply("257 \"/home/test\" is current directory")).unwrap();
    assert_eq!(r, "/home/test");
}

#[test]
fn pwd_without_quotes_is_malformed() {
    assert!(matches!(
        pwd_result(&reply("257 No quotes here")),
        Err(FtpError::InvalidResponseFormatError)
    ));
    assert!(matches!(
        pwd_result(&reply("257 \"/unterminated")),
        Err(FtpError::InvalidResponseFormatError)
    ));
}

#[test]
fn pwd_failure_codes() {
    assert!(matches!(pwd_result(&reply("550 no")), Err(FtpError::FileUnavailable)));
    assert!(matches!(pwd_result(&reply("530 login")), Err(FtpError::NotLoggedIn)));
    assert!(matches!(
        pwd_result(&reply("500 what")),
        Err(FtpError::SyntaxError(c)) if c == "PWD\r\n"
    ));
    assert!(matches!(
        pwd_result(&reply("250 odd")),
        Err(FtpError::InvalidResponseError(r)) if r.status == 250 && r.content == "250 odd"
    ));
}

#[test]
fn rename_stops_after_rejected_source() {
    let step = rename_step(&reply("550 No such file"), "a.txt", "b.txt");
    assert!(matches!(step, Step::Finish(Err(FtpError::FileUnavailable))));
    let step = rename_step(&reply("450 busy"), "a.txt", "b.txt");
    assert!(matches!(step, Step::Finish(Err(FtpError::FileUnavailable))));
    let step = rename_step(&reply("501 bad"), "a.txt", "b.txt");
    assert!(matches!(step, Step::Finish(Err(FtpError::SyntaxErrorParameters(c))) if c == "RNFR a.txt\r\n"));
}

#[test]
fn rename_goes_on_after_accepted_source() {
    for line in ["350 Ready for destination", "250 ok"] {
        let step = rename_step(&reply(line), "a.txt", "b.txt");
        assert!(matches!(step, Step::Send(FtpCommand::Rnto(t)) if t == "b.txt"));
    }
}

#[test]
fn rename_target_outcomes() {
    let rnto = FtpCommand::Rnto("b.txt".to_string());
    assert!(check_reply(&rnto, &reply("250 renamed")).is_ok());
    assert!(matches!(check_reply(&rnto, &reply("553 bad name")), Err(FtpError::InvalidFileName)));
    assert!(matches!(check_reply(&rnto, &reply("532 account")), Err(FtpError::AccountRequired)));
    assert!(matches!(check_reply(&rnto, &reply("503 sequence")), Err(FtpError::BadCommandSequence)));
}

#[test]
fn login_sends_password_when_asked() {
    let step = login_step(&reply("331 Password required"), "bob", Some("secret"));
    assert!(matches!(step, Step::Send(FtpCommand::Pass(p)) if p == "secret"));
    let step = login_step(&reply("331 Password required"), "bob", None);
    assert!(matches!(step, Step::Send(FtpCommand::Pass(p)) if p.is_empty()));
}

#[test]
fn login_outcomes_on_user() {
    assert!(matches!(login_step(&reply("230 in"), "bob", None), Step::Finish(Ok(()))));
    assert!(matches!(
        login_step(&reply("530 no"), "bob", None),
        Step::Finish(Err(FtpError::NotLoggedIn))
    ));
    assert!(matches!(
        login_step(&reply("332 account"), "bob", None),
        Step::Finish(Err(FtpError::AccountRequired))
    ));
    assert!(matches!(
        login_step(&reply("500 what"), "bob", None),
        Step::Finish(Err(FtpError::SyntaxError(c))) if c == "USER bob\r\n"
    ));
    assert!(matches!(
        login_step(&reply("421 closing"), "bob", None),
        Step::Finish(Err(FtpError::ServiceUnavailable))
    ));
    assert!(matches!(
        login_step(&reply("502 nope"), "bob", None),
        Step::Finish(Err(FtpError::InvalidResponseError(r))) if r.status == 502
    ));
}

#[test]
fn password_outcomes() {
    let pass = FtpCommand::Pass("pw".to_string());
    assert!(check_reply(&pass, &reply("230 in")).is_ok());
    assert!(matches!(
        check_reply(&pass, &reply("202 superfluous")),
        Err(FtpError::CommandUnimplemented(c)) if c == "PASS pw\r\n"
    ));
    assert!(matches!(check_reply(&pass, &reply("530 wrong")), Err(FtpError::NotLoggedIn)));
}

#[test]
fn greeting_outcomes() {
    assert!(matches!(greeting_step(&reply("220 ready"), false), Step::Finish(Ok(()))));
    assert!(matches!(greeting_step(&reply("120 in 5 minutes"), false), Step::AwaitReply));
    assert!(matches!(
        greeting_step(&reply("120 in 5 minutes"), true),
        Step::Finish(Err(FtpError::InvalidResponseError(r))) if r.status == 120
    ));
    assert!(matches!(
        greeting_step(&reply("421 busy"), false),
        Step::Finish(Err(FtpError::InvalidResponseError(r))) if r.content == "421 busy"
    ));
}

#[test]
fn directory_commands() {
    let cwd = FtpCommand::Cwd("x".to_string());
    assert!(check_reply(&cwd, &reply("250 ok")).is_ok());
    assert!(matches!(
        check_reply(&cwd, &reply("502 no")),
        Err(FtpError::CommandUnimplemented(c)) if c == "CWD x\r\n"
    ));
    let mkd = FtpCommand::Mkd("x".to_string());
    assert!(check_reply(&mkd, &reply("257 \"/x\" created")).is_ok());
    assert!(matches!(check_reply(&mkd, &reply("250 odd")), Err(FtpError::InvalidResponseError(_))));
    let dele = FtpCommand::Dele("f".to_string());
    assert!(check_reply(&dele, &reply("200 ok")).is_ok());
    assert!(check_reply(&dele, &reply("250 ok")).is_ok());
    assert!(matches!(check_reply(&dele, &reply("450 busy")), Err(FtpError::FileUnavailable)));
}

#[test]
fn transfer_replies() {
    let retr = FtpCommand::Retr("f".to_string());
    assert!(check_reply(&retr, &reply("150 opening")).is_ok());
    assert!(check_reply(&retr, &reply("125 already open")).is_ok());
    assert!(matches!(
        check_reply(&retr, &reply("550 missing")),
        Err(FtpError::InvalidResponseError(r)) if r.status == 550
    ));
    assert!(transfer_complete(&reply("226 done")).is_ok());
    assert!(transfer_complete(&reply("250 done")).is_ok());
    assert!(matches!(
        transfer_complete(&reply("451 aborted")),
        Err(FtpError::InvalidResponseError(r)) if r.status == 451
    ));
}

#[test]
fn pasv_outcomes() {
    let ep = pasv_result(&reply("227 Entering Passive Mode (192,168,1,2,4,1)")).unwrap();
    assert_eq!(ep.octets, [192, 168, 1, 2]);
    assert_eq!(ep.port, 1025);
    assert!(matches!(pasv_result(&reply("530 login")), Err(FtpError::NotLoggedIn)));
    assert!(matches!(
        pasv_result(&reply("227 Entering Passive Mode (1,2,3,4,300,1)")),
        Err(FtpError::InvalidResponseError(r)) if r.status == 227
            && r.content == "227 Entering Passive Mode (1,2,3,4,300,1)"
    ));
    assert!(matches!(
        pasv_result(&reply("200 ok")),
        Err(FtpError::InvalidResponseError(r)) if r.status == 200
    ));
}

#[test]
fn end_to_end_session() {
    // connect
    assert!(matches!(greeting_step(&reply("220 ready"), false), Step::Finish(Ok(()))));
    // login
    let step = login_step(&reply("331 need password"), "anonymous", Some("me@example.org"));
    let pass = match step {
        Step::Send(c) => c,
        _ => panic!("expected PASS"),
    };
    assert_eq!(pass.encode(), "PASS me@example.org\r\n");
    assert!(check_reply(&pass, &reply("230 logged in")).is_ok());
    // MKD x
    let mkd = FtpCommand::Mkd("x".to_string());
    assert_eq!(mkd.encode(), "MKD x\r\n");
    assert!(check_reply(&mkd, &reply("257 \"/x\" created")).is_ok());
    // CWD x
    let cwd = FtpCommand::Cwd("x".to_string());
    assert_eq!(cwd.encode(), "CWD x\r\n");
    assert!(check_reply(&cwd, &reply("250 ok")).is_ok());
    // PWD
    assert_eq!(FtpCommand::Pwd.encode(), "PWD\r\n");
    assert_eq!(pwd_result(&reply("257 \"/x\" is cwd")).unwrap(), "/x");
    // CDUP
    assert!(check_reply(&FtpCommand::Cdup, &reply("250 ok")).is_ok());
    // RMD x
    let rmd = FtpCommand::Rmd("x".to_string());
    assert_eq!(rmd.encode(), "RMD x\r\n");
    assert!(check_reply(&rmd, &reply("250 ok")).is_ok());
}

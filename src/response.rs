//! One logical reply of the server: its status code and its text.

use vstd::prelude::*;

use crate::error::{FtpError, FtpErrorView};
use crate::ftp_status;
use crate::text::{
    find_char,
    find_char_from,
    lemma_find_char,
    parse_unsigned,
    split_chars,
    split_on,
    unsigned_value,
};

verus! {

/// Whether `c` is an ASCII decimal digit.
pub open spec fn is_digit(c: char) -> bool {
    '0' <= c && c <= '9'
}

/// The value of the ASCII decimal digit `c`.
pub open spec fn digit_value(c: char) -> nat {
    (c as nat - '0' as nat) as nat
}

/// Whether `s` begins with three ASCII digits.
pub open spec fn has_code_prefix(s: Seq<char>) -> bool {
    s.len() >= 3 && is_digit(s[0]) && is_digit(s[1]) && is_digit(s[2])
}

/// The status code written by the first three characters of `s`.
pub open spec fn code_of(s: Seq<char>) -> nat {
    100 * digit_value(s[0]) + 10 * digit_value(s[1]) + digit_value(s[2])
}

/// Whether `s` is a complete single-line reply: a three-digit code, a space,
/// then any text.
pub open spec fn is_single_line_reply(s: Seq<char>) -> bool {
    s.len() >= 4 && has_code_prefix(s) && s[3] == ' '
}

/// The address and port that a passive-mode reply advertises for the next
/// data connection.
#[derive(Debug, Clone, Copy, PartialEq, Eq)]
pub struct PassiveEndpoint {
    /// The four octets of the IPv4 address, in order
    pub octets: [u8; 4],
    /// The port
    pub port: u16,
}

impl View for PassiveEndpoint {
    type V = (Seq<u8>, u16);

    open spec fn view(&self) -> (Seq<u8>, u16) {
        (self.octets@, self.port)
    }
}

/// The comma-separated fields between the first `(` and the first `)` of
/// `content`, if both are there in that order.
pub open spec fn passive_fields(content: Seq<char>) -> Option<Seq<Seq<char>>> {
    let open = find_char(content, '(', 0);
    let close = find_char(content, ')', 0);
    if open < close && close < content.len() {
        Some(split_on(content.subrange(open + 1, close), ','))
    } else {
        None
    }
}

/// Whether the field `f` writes an unsigned number of at most `max`.
pub open spec fn number_at_most(f: Seq<char>, max: nat) -> bool {
    unsigned_value(f) is Some && unsigned_value(f)->0 <= max
}

/// The endpoint that a passive-mode reply with text `content` advertises:
/// six fields, four octets and the two bytes of the port, high one first.
pub open spec fn passive_endpoint(content: Seq<char>) -> Option<(Seq<u8>, u16)> {
    match passive_fields(content) {
        Some(fs) => {
            if fs.len() == 6 && number_at_most(fs[0], 255) && number_at_most(fs[1], 255)
                && number_at_most(fs[2], 255) && number_at_most(fs[3], 255) && number_at_most(
                fs[4],
                65535,
            ) && number_at_most(fs[5], 65535) && unsigned_value(fs[4])->0 * 256 + unsigned_value(
                fs[5],
            )->0 <= 65535 {
                Some(
                    (
                        seq![
                            unsigned_value(fs[0])->0 as u8,
                            unsigned_value(fs[1])->0 as u8,
                            unsigned_value(fs[2])->0 as u8,
                            unsigned_value(fs[3])->0 as u8,
                        ],
                        (unsigned_value(fs[4])->0 * 256 + unsigned_value(fs[5])->0) as u16,
                    ),
                )
            } else {
                None
            }
        },
        None => None,
    }
}

/// Data structure that contains a response from the FTP server.
#[derive(Debug, Clone)]
pub struct FtpResponse {
    /// The status code received (see `ftp_status` for the known ones)
    pub status: u32,
    /// The text of the reply, status code included
    pub content: String,
}

/// The digit at position `i` of `s`, if there is one.
pub(crate) fn digit_at(s: &str, i: usize) -> (r: Option<u32>)
    requires
        i < s@.len(),
    ensures
        r is Some <==> is_digit(s@[i as int]),
        r matches Some(d) ==> d as nat == digit_value(s@[i as int]),
{
    let c = s.get_char(i);
    if '0' <= c && c <= '9' {
        Some((c as u32) - ('0' as u32))
    } else {
        None
    }
}

/// The status code that starts `s`, if its first three characters are digits.
pub(crate) fn read_code(s: &str) -> (r: Option<u32>)
    requires
        s@.len() >= 3,
    ensures
        r is Some <==> has_code_prefix(s@),
        r matches Some(c) ==> c as nat == code_of(s@),
{
    match (digit_at(s, 0), digit_at(s, 1), digit_at(s, 2)) {
        (Some(a), Some(b), Some(c)) => Some(100 * a + 10 * b + c),
        _ => None,
    }
}

impl FtpResponse {
    /// This reply, as the error for an unexpected reply that carries it.
    pub(crate) fn as_unexpected(&self) -> (r: FtpError)
        ensures
            r matches FtpError::InvalidResponseError(e) && e.status == self.status && e.content@
                == self.content@,
            r@ == FtpErrorView::InvalidResponseError(self.status, self.content@),
    {
        FtpError::InvalidResponseError(FtpResponse { status: self.status, content: self.content.clone() })
    }

    /// Parses the ip and port from the PASV command's result.
    pub fn parse_pasv_addr(&self) -> (r: Result<PassiveEndpoint, FtpError>)
        ensures
            self.status != ftp_status::ENTERING_PASSIVE ==> r matches Err(
                FtpError::InvalidTypeError,
            ),
            self.status == ftp_status::ENTERING_PASSIVE ==> match passive_endpoint(self.content@) {
                Some(e) => r matches Ok(ep) && ep@ == e,
                None => (r matches Err(FtpError::InvalidResponseError(e)) && e.status
                    == self.status && e.content@ == self.content@),
            },
    {
        if self.status != ftp_status::ENTERING_PASSIVE {
            return Err(FtpError::InvalidTypeError);
        }
        let s = self.content.as_str();
        let n = s.unicode_len();
        let open = find_char_from(s, '(', 0);
        let close = find_char_from(s, ')', 0);
        proof {
            lemma_find_char(s@, '(', 0);
            lemma_find_char(s@, ')', 0);
        }
        if !(open < close && close < n) {
            return Err(self.as_unexpected());
        }
        let fields = split_chars(s.substring_char(open + 1, close), ',');
        assert(fields@.len() == split_on(s@.subrange(open + 1, close as int), ',').len());
        if fields.len() != 6 {
            return Err(self.as_unexpected());
        }
        assert(forall|k: int| 0 <= k < 6 ==> fields@[k]@ == passive_fields(s@)->0[k]);
        let a = match parse_unsigned(&fields[0], 255) {
            Some(v) => v,
            None => return Err(self.as_unexpected()),
        };
        let b = match parse_unsigned(&fields[1], 255) {
            Some(v) => v,
            None => return Err(self.as_unexpected()),
        };
        let c = match parse_unsigned(&fields[2], 255) {
            Some(v) => v,
            None => return Err(self.as_unexpected()),
        };
        let d = match parse_unsigned(&fields[3], 255) {
            Some(v) => v,
            None => return Err(self.as_unexpected()),
        };
        let high = match parse_unsigned(&fields[4], 65535) {
            Some(v) => v,
            None => return Err(self.as_unexpected()),
        };
        let low = match parse_unsigned(&fields[5], 65535) {
            Some(v) => v,
            None => return Err(self.as_unexpected()),
        };
        let port = high * 256 + low;
        if port > 65535 {
            return Err(self.as_unexpected());
        }
        let ep = PassiveEndpoint { octets: [a as u8, b as u8, c as u8, d as u8], port: port as u16 };
        let ghost (expected_octets, expected_port) = passive_endpoint(s@)->0;
        assert(ep.octets@ =~= expected_octets);
        Ok(ep)
    }

    /// Parses one complete single-line reply, `"<3 digits> <text>"`; the text
    /// is kept as it is, status code included.
    pub fn from_line(s: &str) -> (r: Result<FtpResponse, FtpError>)
        ensures
            is_single_line_reply(s@) ==> (r matches Ok(reply) && reply.status as nat == code_of(
                s@,
            ) && reply.content@ == s@),
            !is_single_line_reply(s@) ==> r matches Err(FtpError::InvalidResponseFormatError),
    {
        let n = s.unicode_len();
        if n < 4 || s.get_char(3) != ' ' {
            return Err(FtpError::InvalidResponseFormatError);
        }
        match read_code(s) {
            Some(status) => Ok(FtpResponse { status, content: String::from_str(s) }),
            None => Err(FtpError::InvalidResponseFormatError),
        }
    }
}

impl std::str::FromStr for FtpResponse {
    type Err = FtpError;

    fn from_str(s: &str) -> (r: Result<FtpResponse, FtpError>)
        ensures
            is_single_line_reply(s@) ==> (r matches Ok(reply) && reply.status as nat == code_of(
                s@,
            ) && reply.content@ == s@),
            !is_single_line_reply(s@) ==> r matches Err(FtpError::InvalidResponseFormatError),
    {
        FtpResponse::from_line(s)
    }
}

} // verus!

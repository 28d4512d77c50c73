//! Assembling one logical reply out of the physical lines the server sends.

use vstd::prelude::*;

use crate::error::FtpError;
use crate::response::{
    FtpResponse,
    code_of,
    has_code_prefix,
    is_digit,
    is_single_line_reply,
    read_code,
};

verus! {

/// The texts of a sequence of lines.
pub open spec fn line_views(lines: Seq<String>) -> Seq<Seq<char>> {
    lines.map_values(|l: String| l@)
}

/// Whether `s` opens a multi-line reply: a three-digit code and a hyphen.
pub open spec fn is_reply_opener(s: Seq<char>) -> bool {
    s.len() >= 4 && has_code_prefix(s) && s[3] == '-'
}

/// Whether `line` closes the multi-line reply that `opener` opened: it starts
/// with the opener's code followed by a space.
pub open spec fn closes_reply(line: Seq<char>, opener: Seq<char>) -> bool {
    line.len() >= 4 && opener.len() >= 3 && line[0] == opener[0] && line[1] == opener[1]
        && line[2] == opener[2] && line[3] == ' '
}

/// The index of the first line at or after `i` that closes the reply opened
/// by `lines[0]`, or `lines.len()` if none does.
pub open spec fn closing_index(lines: Seq<Seq<char>>, i: int) -> int
    decreases lines.len() - i,
{
    if i < 0 || i >= lines.len() {
        lines.len() as int
    } else if closes_reply(lines[i], lines[0]) {
        i
    } else {
        closing_index(lines, i + 1)
    }
}

/// The lines of `ls` appended in order.
pub open spec fn join_lines(ls: Seq<Seq<char>>) -> Seq<char>
    decreases ls.len(),
{
    if ls.len() == 0 {
        Seq::empty()
    } else if ls.len() == 1 {
        ls[0]
    } else {
        join_lines(ls.drop_last()) + ls.last()
    }
}

/// `line` without its line delimiter (`"\r\n"` or `"\n"`), if it ends in one.
pub open spec fn strip_ending(line: Seq<char>) -> Seq<char> {
    if line.len() >= 2 && line[line.len() - 2] == '\r' && line[line.len() - 1] == '\n' {
        line.subrange(0, line.len() - 2)
    } else if line.len() >= 1 && line[line.len() - 1] == '\n' {
        line.subrange(0, line.len() - 1)
    } else {
        line
    }
}

/// What the lines `ls` decode to: `Ok(None)` while no reply is complete, the
/// code and text of the reply, or `Err(())` for a malformed first line.
pub open spec fn decoded(ls: Seq<Seq<char>>) -> Result<Option<(nat, Seq<char>)>, ()> {
    if ls.len() == 0 {
        Ok(None)
    } else if is_single_line_reply(ls[0]) {
        Ok(Some((code_of(ls[0]), ls[0])))
    } else if is_reply_opener(ls[0]) {
        if closing_index(ls, 1) < ls.len() {
            Ok(Some((code_of(ls[0]), join_lines(ls.take(closing_index(ls, 1) + 1)))))
        } else {
            Ok(None)
        }
    } else {
        Err(())
    }
}

/// Whether `r` is the outcome `d`, a malformed first line being reported as
/// `InvalidResponseFormatError`.
pub open spec fn decodes_to(
    r: Result<Option<FtpResponse>, FtpError>,
    d: Result<Option<(nat, Seq<char>)>, ()>,
) -> bool {
    match (r, d) {
        (Ok(None), Ok(None)) => true,
        (Ok(Some(reply)), Ok(Some((code, text)))) => reply.status as nat == code
            && reply.content@ == text,
        (Err(FtpError::InvalidResponseFormatError), Err(())) => true,
        _ => false,
    }
}

/// Removes the line delimiter that a physical line was read with.
pub fn strip_line_ending(line: &str) -> (r: String)
    ensures
        r@ == strip_ending(line@),
{
    let n = line.unicode_len();
    if n >= 2 && line.get_char(n - 2) == '\r' && line.get_char(n - 1) == '\n' {
        String::from_str(line.substring_char(0, n - 2))
    } else if n >= 1 && line.get_char(n - 1) == '\n' {
        String::from_str(line.substring_char(0, n - 1))
    } else {
        String::from_str(line)
    }
}

fn closes_line(line: &str, opener: &str) -> (r: bool)
    requires
        opener@.len() >= 3,
    ensures
        r == closes_reply(line@, opener@),
{
    line.unicode_len() >= 4 && line.get_char(0) == opener.get_char(0) && line.get_char(1)
        == opener.get_char(1) && line.get_char(2) == opener.get_char(2) && line.get_char(3) == ' '
}

proof fn lemma_closing_index_bounds(lines: Seq<Seq<char>>, i: int)
    requires
        0 <= i <= lines.len(),
    ensures
        i <= closing_index(lines, i) <= lines.len(),
        closing_index(lines, i) < lines.len() ==> closes_reply(
            lines[closing_index(lines, i)],
            lines[0],
        ),
        forall|j: int| i <= j < closing_index(lines, i) ==> !closes_reply(lines[j], lines[0]),
    decreases lines.len() - i,
{
    if i < lines.len() && !closes_reply(lines[i], lines[0]) {
        lemma_closing_index_bounds(lines, i + 1);
    }
}

/// Decodes the reply that `lines` begin with; each line is one physical line
/// of the control connection without its delimiter.
///
/// A first line `"<code> <text>"` is a whole reply. A first line
/// `"<code>-<text>"` opens a reply that runs up to the first later line
/// starting with `"<code> "`; its text is all of those lines appended in
/// order. `Ok(None)` means that the lines seen so far hold no complete reply
/// yet. Any other first line is malformed.
pub fn decode_reply(lines: &Vec<String>) -> (r: Result<Option<FtpResponse>, FtpError>)
    ensures
        decodes_to(r, decoded(line_views(lines@))),
{
    let ghost ls = line_views(lines@);
    if lines.len() == 0 {
        return Ok(None);
    }
    let first = lines[0].as_str();
    assert(first@ == ls[0]);
    if first.unicode_len() < 4 {
        return Err(FtpError::InvalidResponseFormatError);
    }
    let code = match read_code(first) {
        Some(c) => c,
        None => return Err(FtpError::InvalidResponseFormatError),
    };
    let marker = first.get_char(3);
    if marker == ' ' {
        return Ok(Some(FtpResponse { status: code, content: lines[0].clone() }));
    }
    if marker != '-' {
        return Err(FtpError::InvalidResponseFormatError);
    }
    let mut text = lines[0].clone();
    let mut i: usize = 1;
    proof {
        assert(ls.take(1).drop_last() =~= Seq::<Seq<char>>::empty());
        assert(join_lines(ls.take(1)) == ls[0]);
        lemma_closing_index_bounds(ls, 1);
    }
    while i < lines.len()
        invariant
            ls == line_views(lines@),
            first@ == ls[0],
            is_reply_opener(ls[0]),
            code as nat == code_of(ls[0]),
            1 <= i <= lines.len(),
            text@ == join_lines(ls.take(i as int)),
            closing_index(ls, 1) == closing_index(ls, i as int),
        decreases lines.len() - i,
    {
        let line = lines[i].as_str();
        assert(line@ == ls[i as int]);
        text.append(line);
        proof {
            assert(ls.take(i + 1).drop_last() =~= ls.take(i as int));
            assert(ls.take(i + 1).last() == ls[i as int]);
        }
        if closes_line(line, first) {
            assert(closing_index(ls, i as int) == i);
            return Ok(Some(FtpResponse { status: code, content: text }));
        }
        assert(closing_index(ls, i as int) == closing_index(ls, i + 1));
        i = i + 1;
    }
    assert(closing_index(ls, i as int) == ls.len());
    Ok(None)
}

proof fn lemma_closing_index_at(lines: Seq<Seq<char>>, i: int, k: int)
    requires
        0 <= i <= k < lines.len(),
        closes_reply(lines[k], lines[0]),
        forall|j: int| i <= j < k ==> !closes_reply(#[trigger] lines[j], lines[0]),
    ensures
        closing_index(lines, i) == k,
    decreases k - i,
{
    if i < k {
        lemma_closing_index_at(lines, i + 1, k);
    }
}

/// A single-line reply, three digits, a space and any text, decodes to the
/// code those digits write and to the line itself, unmodified.
pub proof fn lemma_single_line_decodes(digits: Seq<char>, text: Seq<char>)
    requires
        digits.len() == 3,
        forall|i: int| 0 <= i < 3 ==> is_digit(#[trigger] digits[i]),
    ensures
        decoded(seq![digits + " "@ + text]) == Ok::<Option<(nat, Seq<char>)>, ()>(
            Some((code_of(digits), digits + " "@ + text)),
        ),
{
    let line = digits + " "@ + text;
    assert(line[0] == digits[0] && line[1] == digits[1] && line[2] == digits[2]);
    assert(" "@ =~= seq![' ']) by {
        reveal_strlit(" ");
    }
    assert(line[3] == ' ');
    assert(is_digit(digits[0]) && is_digit(digits[1]) && is_digit(digits[2]));
    assert(is_single_line_reply(line));
}

/// A multi-line reply, `"<code>-<first>"`, then any lines that do not start
/// with `"<code> "`, then `"<code> <last>"`, decodes to that code and to all
/// of its lines appended in order.
pub proof fn lemma_multi_line_decodes(
    digits: Seq<char>,
    first: Seq<char>,
    interior: Seq<Seq<char>>,
    last: Seq<char>,
)
    requires
        digits.len() == 3,
        forall|i: int| 0 <= i < 3 ==> is_digit(#[trigger] digits[i]),
        forall|i: int|
            0 <= i < interior.len() ==> !closes_reply(
                #[trigger] interior[i],
                digits + "-"@ + first,
            ),
    ensures
        ({
            let lines = seq![digits + "-"@ + first] + interior + seq![digits + " "@ + last];
            decoded(lines) == Ok::<Option<(nat, Seq<char>)>, ()>(
                Some((code_of(digits), join_lines(lines))),
            )
        }),
{
    let opener = digits + "-"@ + first;
    let closer = digits + " "@ + last;
    let lines = seq![opener] + interior + seq![closer];
    assert("-"@ =~= seq!['-']) by {
        reveal_strlit("-");
    }
    assert(" "@ =~= seq![' ']) by {
        reveal_strlit(" ");
    }
    assert(opener[0] == digits[0] && opener[1] == digits[1] && opener[2] == digits[2]);
    assert(closer[0] == digits[0] && closer[1] == digits[1] && closer[2] == digits[2]);
    assert(opener[3] == '-' && closer[3] == ' ');
    assert(is_digit(digits[0]) && is_digit(digits[1]) && is_digit(digits[2]));
    assert(lines[0] == opener);
    let k = interior.len() as int + 1;
    assert(lines[k] == closer);
    assert forall|j: int| 1 <= j < k implies !closes_reply(#[trigger] lines[j], lines[0]) by {
        assert(lines[j] == interior[j - 1]);
    }
    lemma_closing_index_at(lines, 1, k);
    assert(lines.take(k + 1) =~= lines);
}

/// Decoding the same lines twice gives the same outcome: the same error, or
/// replies with the same code and the same text.
pub proof fn lemma_decode_deterministic(
    lines: Seq<Seq<char>>,
    first: Result<Option<FtpResponse>, FtpError>,
    second: Result<Option<FtpResponse>, FtpError>,
)
    requires
        decodes_to(first, decoded(lines)),
        decodes_to(second, decoded(lines)),
    ensures
        first is Ok <==> second is Ok,
        first matches Ok(None) <==> second matches Ok(None),
        first matches Ok(Some(a)) ==> (second matches Ok(Some(b)) && a.status == b.status
            && a.content@ == b.content@),
{
}

} // verus!

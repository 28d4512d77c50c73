//! Entries of a directory listing, read from the long listing format that
//! `LIST` returns.

use vstd::prelude::*;

use crate::text::{find_char, find_char_from, lemma_find_char};

verus! {

/// The kind of a listed entry.
#[derive(Debug, Clone, Copy, PartialEq, Eq, Structural)]
pub enum DirectoryItemType {
    Link,
    File,
    Directory,
}

/// One entry of a directory listing.
#[derive(Debug)]
pub struct DirectoryItem {
    name: String,
    item_type: DirectoryItemType,
}

impl View for DirectoryItem {
    type V = (Seq<char>, DirectoryItemType);

    /// The name and the kind of the entry.
    closed spec fn view(&self) -> (Seq<char>, DirectoryItemType) {
        (self.name@, self.item_type)
    }
}

/// The date and name columns of a long listing line: a month, a day, a year
/// or a time of day, then the name.
pub const LISTING_PATTERN: &'static str = r"[A-z]{3}[ ]{1,}[0-9]{1,2}[ ]{1,}([0-9]{4}|[0-9]{2}:[0-9]{2})[ ]{1,}(.{1,})";

/// The text that group `group` of the regular expression `pattern` captures
/// in its leftmost-first match in `line`; `None` where the pattern does not
/// compile, does not match, or the group takes no part in the match.
pub uninterp spec fn regex_capture(pattern: Seq<char>, line: Seq<char>, group: nat) -> Option<
    Seq<char>,
>;

/// Relies on `regex::Regex::new`, `regex::Regex::captures` and
/// `regex::Captures::get`: compiles `pattern` and returns what group `group`
/// captured in the first match in `line`.
#[verifier::external_body]
fn capture_group(pattern: &str, line: &str, group: usize) -> (r: Option<String>)
    ensures
        match r {
            Some(n) => regex_capture(pattern@, line@, group as nat) == Some(n@),
            None => regex_capture(pattern@, line@, group as nat) is None,
        },
{
    let re = regex::Regex::new(pattern).ok()?;
    re.captures(line).and_then(|c| c.get(group)).map(|m| m.as_str().to_string())
}

/// The name that a long listing line gives after its date column: what the
/// second group of `LISTING_PATTERN` captures.
pub open spec fn listing_name(line: Seq<char>) -> Option<Seq<char>> {
    regex_capture(LISTING_PATTERN@, line, 2)
}

/// The kind that the first character of a long listing line stands for.
pub open spec fn item_type_of(c: char) -> Option<DirectoryItemType> {
    if c == 'd' {
        Some(DirectoryItemType::Directory)
    } else if c == '-' {
        Some(DirectoryItemType::File)
    } else if c == 'l' {
        Some(DirectoryItemType::Link)
    } else {
        None
    }
}

/// The kind of entry that `line` describes, read from its first character.
pub open spec fn line_item_type(line: Seq<char>) -> Option<DirectoryItemType> {
    if line.len() == 0 {
        None
    } else {
        item_type_of(line[0])
    }
}

impl DirectoryItem {
    /// Reads one line of a long directory listing: its first character gives
    /// the kind, and the text after the date column gives the name.
    pub fn parse_line(s: &str) -> (r: Result<DirectoryItem, String>)
        ensures
            line_item_type(s@) is None ==> (r matches Err(m) && m@ == "Unknown type"@),
            line_item_type(s@) is Some && listing_name(s@) is None ==> (r matches Err(m) && m@
                == "No name found"@),
            line_item_type(s@) is Some && listing_name(s@) is Some ==> (r matches Ok(item)
                && item@ == (listing_name(s@)->0, line_item_type(s@)->0)),
    {
        if s.unicode_len() == 0 {
            return Err(String::from_str("Unknown type"));
        }
        let c = s.get_char(0);
        let item_type = if c == 'd' {
            DirectoryItemType::Directory
        } else if c == '-' {
            DirectoryItemType::File
        } else if c == 'l' {
            DirectoryItemType::Link
        } else {
            return Err(String::from_str("Unknown type"));
        };
        match capture_group(LISTING_PATTERN, s, 2) {
            Some(name) => Ok(DirectoryItem { name, item_type }),
            None => Err(String::from_str("No name found")),
        }
    }

    /// The name of the entry.
    pub fn name(&self) -> (r: &String)
        ensures
            r@ == self@.0,
    {
        &self.name
    }

    /// The kind of the entry.
    pub fn item_type(&self) -> (r: DirectoryItemType)
        ensures
            r == self@.1,
    {
        self.item_type
    }
}

impl std::str::FromStr for DirectoryItem {
    type Err = String;

    fn from_str(s: &str) -> (r: Result<DirectoryItem, String>)
        ensures
            line_item_type(s@) is None ==> (r matches Err(m) && m@ == "Unknown type"@),
            line_item_type(s@) is Some && listing_name(s@) is None ==> (r matches Err(m) && m@
                == "No name found"@),
            line_item_type(s@) is Some && listing_name(s@) is Some ==> (r matches Ok(item)
                && item@ == (listing_name(s@)->0, line_item_type(s@)->0)),
    {
        DirectoryItem::parse_line(s)
    }
}

/// The pieces of `s` from index `i` on, cut at each line feed.
pub open spec fn lines_from(s: Seq<char>, i: int) -> Seq<Seq<char>>
    decreases s.len() - i,
    via lines_from_decreases
{
    let j = find_char(s, '\n', i);
    if i < 0 || i > s.len() {
        Seq::empty()
    } else if j >= s.len() {
        seq![s.subrange(i, s.len() as int)]
    } else {
        seq![s.subrange(i, j)].add(lines_from(s, j + 1))
    }
}

#[via_fn]
proof fn lines_from_decreases(s: Seq<char>, i: int) {
    if 0 <= i <= s.len() {
        lemma_find_char(s, '\n', i);
    }
}

/// `line` without one carriage return at its end.
pub open spec fn without_cr(line: Seq<char>) -> Seq<char> {
    if line.len() > 0 && line.last() == '\r' {
        line.drop_last()
    } else {
        line
    }
}

/// `ls` without the empty entries at its end.
pub open spec fn drop_trailing_empty(ls: Seq<Seq<char>>) -> Seq<Seq<char>>
    decreases ls.len(),
{
    if ls.len() > 0 && ls.last().len() == 0 {
        drop_trailing_empty(ls.drop_last())
    } else {
        ls
    }
}

/// The entries of a listing payload: its lines, each without the line
/// delimiter (CRLF or LF), with the empty entries at the end discarded.
pub open spec fn listing_entries(text: Seq<char>) -> Seq<Seq<char>> {
    drop_trailing_empty(lines_from(text, 0).map_values(|l: Seq<char>| without_cr(l)))
}

/// The texts of a sequence of strings.
pub open spec fn string_views(v: Seq<String>) -> Seq<Seq<char>> {
    v.map_values(|l: String| l@)
}

/// Splits a listing payload into its entries, one per line.
pub fn listing_lines(text: &str) -> (r: Vec<String>)
    ensures
        string_views(r@) == listing_entries(text@),
{
    let ghost s = text@;
    let ghost all = lines_from(s, 0).map_values(|l: Seq<char>| without_cr(l));
    let n = text.unicode_len();
    let mut out: Vec<String> = Vec::new();
    let mut i: usize = 0;
    loop
        invariant_except_break
            string_views(out@) + lines_from(s, i as int).map_values(
                |l: Seq<char>| without_cr(l),
            ) == all,
        invariant
            s == text@,
            n == s.len(),
            0 <= i <= n,
            all == lines_from(s, 0).map_values(|l: Seq<char>| without_cr(l)),
        ensures
            string_views(out@) == all,
        decreases n - i,
    {
        let j = find_char_from(text, '\n', i);
        proof {
            lemma_find_char(s, '\n', i as int);
        }
        let end = if j > i && text.get_char(j - 1) == '\r' {
            j - 1
        } else {
            j
        };
        let piece = String::from_str(text.substring_char(i, end));
        proof {
            let raw = s.subrange(i as int, j as int);
            assert(piece@ == without_cr(raw)) by {
                if j > i && s[j - 1] == '\r' {
                    assert(raw.drop_last() =~= s.subrange(i as int, end as int));
                }
            }
            let rest = if j >= n {
                Seq::<Seq<char>>::empty()
            } else {
                lines_from(s, j + 1)
            };
            assert(lines_from(s, i as int) == seq![raw].add(rest));
            assert(lines_from(s, i as int).map_values(|l: Seq<char>| without_cr(l)) =~= seq![
                piece@,
            ].add(rest.map_values(|l: Seq<char>| without_cr(l))));
        }
        let ghost before = string_views(out@);
        out.push(piece);
        proof {
            assert(string_views(out@) =~= before.push(piece@));
        }
        if j >= n {
            proof {
                assert(string_views(out@) =~= all);
            }
            break;
        }
        i = j + 1;
    }
    while out.len() > 0 && out[out.len() - 1].unicode_len() == 0
        invariant
            drop_trailing_empty(string_views(out@)) == listing_entries(s),
            s == text@,
        decreases out.len(),
    {
        let ghost before = string_views(out@);
        out.pop();
        proof {
            assert(string_views(out@) =~= before.drop_last());
        }
    }
    out
}

} // verus!

//! How tokens are written in the diagnostic form of a command line.

use vstd::prelude::*;
use vstd::utf8::encode_utf8;
use vstd::utf8::is_ascii_chars;
use vstd::utf8::is_ascii_chars_encode_utf8;

verus! {

/// A lowercase hexadecimal digit for a value below sixteen.
pub open spec fn hex_digit(n: u8) -> char {
    if n < 10 {
        ((n + 48) as u8) as char
    } else {
        ((n + 87) as u8) as char
    }
}

/// What `u8::escape_ascii` produces for one byte.
pub open spec fn escape_byte(b: u8) -> Seq<char> {
    if b == 0x09 {
        seq!['\\', 't']
    } else if b == 0x0d {
        seq!['\\', 'r']
    } else if b == 0x0a {
        seq!['\\', 'n']
    } else if b == 0x27 {
        seq!['\\', '\'']
    } else if b == 0x22 {
        seq!['\\', '"']
    } else if b == 0x5c {
        seq!['\\', '\\']
    } else if 0x20 <= b <= 0x7e {
        seq![b as char]
    } else {
        seq!['\\', 'x', hex_digit(b / 16), hex_digit(b % 16)]
    }
}

/// Each byte escaped in turn.
pub open spec fn escape_bytes(b: Seq<u8>) -> Seq<char>
    decreases b.len(),
{
    if b.len() == 0 {
        seq![]
    } else {
        escape_bytes(b.drop_last()) + escape_byte(b.last())
    }
}

/// A token as the diagnostic form shows it: its UTF-8 bytes escaped, between double quotes.
pub open spec fn quoted(s: Seq<char>) -> Seq<char> {
    seq!['"'] + escape_bytes(encode_utf8(s)) + seq!['"']
}

/// A character that needs no escape: printable ASCII other than the quotes and the backslash.
pub open spec fn is_plain_char(c: char) -> bool {
    ' ' <= c <= '~' && c != '"' && c != '\'' && c != '\\'
}

/// A token whose characters all need no escape.
pub open spec fn is_plain(s: Seq<char>) -> bool {
    forall|i: int| 0 <= i < s.len() ==> is_plain_char(#[trigger] s[i])
}

/// Relies on `<[u8]>::escape_ascii`, displayed: each byte of the string
/// escaped as `u8::escape_ascii` documents it.
#[verifier::external_body]
fn escape_ascii(s: &str) -> (r: String)
    ensures
        r@ == escape_bytes(encode_utf8(s@)),
{
    s.as_bytes().escape_ascii().to_string()
}

/// The token between double quotes, its bytes escaped.
pub fn quote(s: &str) -> (r: String)
    ensures
        r@ == quoted(s@),
{
    let mut r = String::from_str("\"");
    let escaped = escape_ascii(s);
    r.append(escaped.as_str());
    r.append("\"");
    proof {
        reveal_strlit("\"");
    }
    assert(r@ =~= quoted(s@));
    r
}

proof fn lemma_escape_plain_bytes(b: Seq<u8>, s: Seq<char>)
    requires
        b.len() == s.len(),
        is_plain(s),
        forall|i: int| 0 <= i < s.len() ==> #[trigger] b[i] == s[i] as u8,
    ensures
        escape_bytes(b) == s,
    decreases b.len(),
{
    if b.len() > 0 {
        let n = b.len() - 1;
        assert(is_plain_char(s[n]));
        lemma_escape_plain_bytes(b.drop_last(), s.drop_last());
        assert(escape_bytes(b) =~= s);
    }
}

/// A token made of plain characters is shown as itself between double quotes.
pub proof fn lemma_quoted_plain(s: Seq<char>)
    requires
        is_plain(s),
    ensures
        quoted(s) == seq!['"'] + s + seq!['"'],
{
    assert(is_ascii_chars(s)) by {
        assert forall|i: int| 0 <= i < s.len() implies '\0' <= #[trigger] s[i] <= '\u{7f}' by {
            assert(is_plain_char(s[i]));
        }
    }
    is_ascii_chars_encode_utf8(s);
    lemma_escape_plain_bytes(encode_utf8(s), s);
}

} // verus!

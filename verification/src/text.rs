//! Lines of text: what counts as blank input, how an authored line is put
//! together for the history and for the wire, and the status lines that the
//! session shows about itself.

use vstd::prelude::*;
use vstd::string::*;
use vstd::utf8::*;

verus! {

/// The code points with the Unicode property `White_Space`.
pub open spec fn white_space(c: char) -> bool {
    let n = c as u32;
    ||| 0x09 <= n <= 0x0D
    ||| n == 0x20
    ||| n == 0x85
    ||| n == 0xA0
    ||| n == 0x1680
    ||| 0x2000 <= n <= 0x200A
    ||| n == 0x2028
    ||| n == 0x2029
    ||| n == 0x202F
    ||| n == 0x205F
    ||| n == 0x3000
}

/// A text is blank when it is empty or holds white space only: when
/// nothing is left of it once it is trimmed (see
/// [`lemma_blank_iff_trimmed_empty`]).
pub open spec fn blank(s: Seq<char>) -> bool {
    forall|i: int| 0 <= i < s.len() ==> white_space(#[trigger] s[i])
}

/// A text without its leading white space.
pub open spec fn trimmed_start(s: Seq<char>) -> Seq<char>
    decreases s.len(),
{
    if s.len() > 0 && white_space(s.first()) {
        trimmed_start(s.drop_first())
    } else {
        s
    }
}

/// A text without its trailing white space.
pub open spec fn trimmed_end(s: Seq<char>) -> Seq<char>
    decreases s.len(),
{
    if s.len() > 0 && white_space(s.last()) {
        trimmed_end(s.drop_last())
    } else {
        s
    }
}

/// A text without its leading and trailing white space.
pub open spec fn trimmed(s: Seq<char>) -> Seq<char> {
    trimmed_end(trimmed_start(s))
}

/// A line as its author's side and the peer show it: `<name>: <text>`.
pub open spec fn authored(name: Seq<char>, text: Seq<char>) -> Seq<char> {
    name + ": "@ + text
}

/// An authored line as it travels: `<name>: <text>` and a line feed.
pub open spec fn framed(name: Seq<char>, text: Seq<char>) -> Seq<char> {
    authored(name, text) + "\n"@
}

/// The bytes of a framed line: its UTF-8 encoding.
pub open spec fn wire(name: Seq<char>, text: Seq<char>) -> Seq<u8> {
    encode_utf8(framed(name, text))
}

/// Status line for the end of the stream.
pub open spec fn closed_status() -> Seq<char> {
    "--- Connection closed by peer ---"@
}

/// Status line for a failed read, around the failure's description.
pub open spec fn read_error_status(reason: Seq<char>) -> Seq<char> {
    "--- Socket read error: "@ + reason + " ---"@
}

/// Status line for a failed write, around the failure's description.
pub open spec fn write_error_status(reason: Seq<char>) -> Seq<char> {
    "--- Socket write error: "@ + reason + " ---"@
}

/// Status line for the user's cancel.
pub open spec fn exiting_status() -> Seq<char> {
    "--- Exiting ---"@
}

/// Whether `c` has the Unicode property `White_Space`.
pub fn is_white_space(c: char) -> (b: bool)
    ensures
        b == white_space(c),
{
    let n: u32 = c as u32;
    (0x09 <= n && n <= 0x0D) || n == 0x20 || n == 0x85 || n == 0xA0 || n == 0x1680 || (0x2000 <= n
        && n <= 0x200A) || n == 0x2028 || n == 0x2029 || n == 0x202F || n == 0x205F || n == 0x3000
}

/// Whether `s` is blank: empty once trimmed.
pub fn is_blank(s: &str) -> (b: bool)
    ensures
        b == blank(s@),
{
    let mut all: bool = true;
    for c in it: s.chars()
        invariant
            it.seq() == s@,
            all == (forall|j: int| 0 <= j < it.index() ==> white_space(#[trigger] s@[j])),
    {
        all = all && is_white_space(c);
    }
    all
}

/// The line `<name>: <text>`, with the text as it is.
pub fn authored_line(name: &str, text: &str) -> (line: String)
    ensures
        line@ == authored(name@, text@),
{
    let mut line = String::from_str(name);
    line.append(": ");
    line.append(text);
    line
}

/// The line `<name>: <text>` with the line feed that ends it on the wire.
pub fn framed_line(name: &str, text: &str) -> (line: String)
    ensures
        line@ == framed(name@, text@),
{
    let mut line = authored_line(name, text);
    line.append("\n");
    line
}

/// The bytes that carry `text` to the peer under `name`: the framed line
/// in UTF-8.
pub fn wire_bytes(name: &str, text: &str) -> (bytes: Vec<u8>)
    ensures
        bytes@ == wire(name@, text@),
{
    let line = framed_line(name, text);
    line.as_str().as_bytes_vec()
}

/// The status line for the end of the stream.
pub fn closed_line() -> (line: String)
    ensures
        line@ == closed_status(),
{
    String::from_str("--- Connection closed by peer ---")
}

/// The status line for a read that failed for `reason`.
pub fn read_error_line(reason: &str) -> (line: String)
    ensures
        line@ == read_error_status(reason@),
{
    let mut line = String::from_str("--- Socket read error: ");
    line.append(reason);
    line.append(" ---");
    line
}

/// The status line for a write that failed for `reason`.
pub fn write_error_line(reason: &str) -> (line: String)
    ensures
        line@ == write_error_status(reason@),
{
    let mut line = String::from_str("--- Socket write error: ");
    line.append(reason);
    line.append(" ---");
    line
}

/// The status line for the user's cancel.
pub fn exiting_line() -> (line: String)
    ensures
        line@ == exiting_status(),
{
    String::from_str("--- Exiting ---")
}

proof fn lemma_trimmed_start(s: Seq<char>)
    ensures
        trimmed_start(s).len() == 0 <==> blank(s),
        trimmed_start(s).len() > 0 ==> !white_space(trimmed_start(s).first()),
    decreases s.len(),
{
    if s.len() > 0 && white_space(s.first()) {
        let rest = s.drop_first();
        lemma_trimmed_start(rest);
        if blank(rest) {
            assert forall|i: int| 0 <= i < s.len() implies white_space(#[trigger] s[i]) by {
                if i > 0 {
                    assert(s[i] == rest[i - 1]);
                }
            }
        } else {
            let i = choose|i: int| 0 <= i < rest.len() && !white_space(#[trigger] rest[i]);
            assert(!white_space(s[i + 1]));
        }
    } else if s.len() > 0 {
        assert(!white_space(s[0]));
    }
}

proof fn lemma_trimmed_end(s: Seq<char>)
    ensures
        trimmed_end(s).len() == 0 <==> blank(s),
    decreases s.len(),
{
    if s.len() > 0 && white_space(s.last()) {
        let rest = s.drop_last();
        lemma_trimmed_end(rest);
        if blank(rest) {
            assert forall|i: int| 0 <= i < s.len() implies white_space(#[trigger] s[i]) by {
                if i < s.len() - 1 {
                    assert(s[i] == rest[i]);
                }
            }
        } else {
            let i = choose|i: int| 0 <= i < rest.len() && !white_space(#[trigger] rest[i]);
            assert(!white_space(s[i]));
        }
    } else if s.len() > 0 {
        assert(!white_space(s[s.len() - 1]));
    }
}

/// Blank is empty once trimmed: a text holds nothing but white space
/// exactly when nothing is left of it after its leading and trailing white
/// space is taken away.
pub proof fn lemma_blank_iff_trimmed_empty(s: Seq<char>)
    ensures
        blank(s) <==> trimmed(s).len() == 0,
{
    lemma_trimmed_start(s);
    lemma_trimmed_end(trimmed_start(s));
    let t = trimmed_start(s);
    if t.len() > 0 {
        assert(!white_space(t[0]));
    }
}

} // verus!

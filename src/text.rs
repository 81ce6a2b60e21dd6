//! Text pieces of a finding: decimal line numbers, the location string, and
//! the comment heuristic on matched text.

use vstd::prelude::*;
use vstd::string::StringSliceAdditionalSpecFns;

verus! {

broadcast use vstd::string::group_string_axioms;

/// The character of decimal digit `d`.
pub open spec fn digit_char(d: nat) -> char {
    if d == 0 {
        '0'
    } else if d == 1 {
        '1'
    } else if d == 2 {
        '2'
    } else if d == 3 {
        '3'
    } else if d == 4 {
        '4'
    } else if d == 5 {
        '5'
    } else if d == 6 {
        '6'
    } else if d == 7 {
        '7'
    } else if d == 8 {
        '8'
    } else {
        '9'
    }
}

/// The decimal notation of `n`, without leading zeros.
pub open spec fn decimal(n: nat) -> Seq<char>
    decreases n,
{
    if n < 10 {
        seq![digit_char(n)]
    } else {
        decimal(n / 10).push(digit_char(n % 10))
    }
}

/// The location string of a finding: `(<file> Line-<line>) -> <matched text>`.
pub open spec fn location_text(file: Seq<char>, line: nat, matched: Seq<char>) -> Seq<char> {
    "("@ + file + " Line-"@ + decimal(line) + ") -> "@ + matched
}

/// Whether `c` has the Unicode property White_Space.
pub open spec fn is_white_space(c: char) -> bool {
    let n = c as u32;
    (0x9 <= n <= 0xd) || n == 0x20 || n == 0x85 || n == 0xa0 || n == 0x1680 || (0x2000 <= n
        <= 0x200a) || n == 0x2028 || n == 0x2029 || n == 0x202f || n == 0x205f || n == 0x3000
}

/// `s` without its leading white space.
pub open spec fn trim_start(s: Seq<char>) -> Seq<char>
    decreases s.len(),
{
    if s.len() > 0 && is_white_space(s[0]) {
        trim_start(s.drop_first())
    } else {
        s
    }
}

/// `s` without its trailing white space.
pub open spec fn trim_end(s: Seq<char>) -> Seq<char>
    decreases s.len(),
{
    if s.len() > 0 && is_white_space(s.last()) {
        trim_end(s.drop_last())
    } else {
        s
    }
}

/// `s` without leading and trailing white space.
pub open spec fn trimmed(s: Seq<char>) -> Seq<char> {
    trim_end(trim_start(s))
}

/// A matched text counts as a comment when, with surrounding whitespace
/// removed, it begins with a forward slash.
pub open spec fn is_comment(matched: Seq<char>) -> bool {
    let t = trimmed(matched);
    t.len() > 0 && t[0] == '/'
}

fn digit_str(d: u128) -> (r: &'static str)
    requires
        d < 10,
    ensures
        r@ == seq![digit_char(d as nat)],
{
    proof {
        reveal_strlit("0");
        reveal_strlit("1");
        reveal_strlit("2");
        reveal_strlit("3");
        reveal_strlit("4");
        reveal_strlit("5");
        reveal_strlit("6");
        reveal_strlit("7");
        reveal_strlit("8");
        reveal_strlit("9");
    }
    if d == 0 {
        "0"
    } else if d == 1 {
        "1"
    } else if d == 2 {
        "2"
    } else if d == 3 {
        "3"
    } else if d == 4 {
        "4"
    } else if d == 5 {
        "5"
    } else if d == 6 {
        "6"
    } else if d == 7 {
        "7"
    } else if d == 8 {
        "8"
    } else {
        "9"
    }
}

/// The decimal notation of `n`.
pub fn decimal_string(n: u128) -> (r: String)
    ensures
        r@ == decimal(n as nat),
    decreases n,
{
    if n < 10 {
        String::from_str(digit_str(n))
    } else {
        let mut s = decimal_string(n / 10);
        s.append(digit_str(n % 10));
        s
    }
}

/// Formats the location of a finding on line `line` of `file`.
pub fn format_location(file: &str, line: i128, matched: &str) -> (r: String)
    requires
        line >= 0,
    ensures
        r@ == location_text(file@, line as nat, matched@),
{
    let mut s = String::from_str("(");
    s.append(file);
    s.append(" Line-");
    let digits = decimal_string(line as u128);
    s.append(digits.as_str());
    s.append(") -> ");
    s.append(matched);
    s
}

/// Relies on `str::trim`: it drops the leading and trailing characters that
/// have the Unicode property White_Space.
#[verifier::external_body]
fn trim(s: &str) -> (r: &str)
    ensures
        r@ == trimmed(s@),
{
    s.trim()
}

/// Whether `t` begins with a forward slash.
pub fn starts_with_slash(t: &str) -> (r: bool)
    ensures
        r == (t@.len() > 0 && t@[0] == '/'),
{
    let mut chars = t.chars();
    match chars.next() {
        Some(c) => c == '/',
        None => false,
    }
}

/// Whether a matched text is discarded as a comment: trimmed of surrounding
/// whitespace, it starts with `/`.
pub fn is_comment_match(matched: &str) -> (r: bool)
    ensures
        r == is_comment(matched@),
{
    let t = trim(matched);
    starts_with_slash(t)
}

/// The name ends in `.sol`.
pub open spec fn is_solidity_name(name: Seq<u8>) -> bool {
    name.len() >= 4 && name.subrange(name.len() - 4, name.len() as int) == seq![46u8, 115u8, 111u8, 108u8]
}

/// Whether a file name ends in `.sol`, the extension of the files to scan.
pub fn has_solidity_extension(name: &str) -> (r: bool)
    ensures
        r == is_solidity_name(name.spec_bytes()),
{
    let b = name.as_bytes();
    let n = b.len();
    if n < 4 {
        return false;
    }
    let r = b[n - 4] == 46u8 && b[n - 3] == 115u8 && b[n - 2] == 111u8 && b[n - 1] == 108u8;
    proof {
        let tail = b@.subrange(n - 4, n as int);
        if r {
            assert(tail =~= seq![46u8, 115u8, 111u8, 108u8]);
        } else {
            assert(tail != seq![46u8, 115u8, 111u8, 108u8]) by {
                if tail == seq![46u8, 115u8, 111u8, 108u8] {
                    assert(tail[0] == b@[n - 4]);
                    assert(tail[1] == b@[n - 3]);
                    assert(tail[2] == b@[n - 2]);
                    assert(tail[3] == b@[n - 1]);
                }
            }
        }
    }
    r
}

} // verus!

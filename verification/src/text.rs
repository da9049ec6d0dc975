//! Pure text formatting: decimal rendering of integers, the `H:MM:SS` /
//! `MM:SS` clock the status table shows, and the truncation applied to long
//! file names before they are painted over a cell.

use vstd::prelude::*;

verus! {

/// The decimal digit character for `d` in `0..=9`.
pub open spec fn dec_digit(d: int) -> char {
    if d == 0 {
        '0'
    } else if d == 1 {
        '1'
    } else if d == 2 {
        '2'
    } else if d == 3 {
        '3'
    } else if d == 4 {
        '4'
    } else if d == 5 {
        '5'
    } else if d == 6 {
        '6'
    } else if d == 7 {
        '7'
    } else if d == 8 {
        '8'
    } else {
        '9'
    }
}

/// The usual decimal rendering of `n >= 0`, without leading zeros.
pub open spec fn dec_string(n: int) -> Seq<char>
    decreases n,
{
    if n < 10 {
        seq![dec_digit(n)]
    } else {
        dec_string(n / 10).push(dec_digit(n % 10))
    }
}

/// Relies on `String::push` of std: appends exactly the one character.
#[verifier::external_body]
pub fn push_char(s: &mut String, c: char)
    ensures
        final(s)@ == old(s)@.push(c),
{
    s.push(c);
}

/// One decimal digit as a string slice.
fn digit_str(d: u64) -> (r: &'static str)
    requires
        d < 10,
    ensures
        r@ == seq![dec_digit(d as int)],
{
    proof {
        reveal_strlit("0");
        reveal_strlit("1");
        reveal_strlit("2");
        reveal_strlit("3");
        reveal_strlit("4");
        reveal_strlit("5");
        reveal_strlit("6");
        reveal_strlit("7");
        reveal_strlit("8");
        reveal_strlit("9");
    }
    let r: &'static str = if d == 0 {
        "0"
    } else if d == 1 {
        "1"
    } else if d == 2 {
        "2"
    } else if d == 3 {
        "3"
    } else if d == 4 {
        "4"
    } else if d == 5 {
        "5"
    } else if d == 6 {
        "6"
    } else if d == 7 {
        "7"
    } else if d == 8 {
        "8"
    } else {
        "9"
    };
    proof {
        assert(r@ =~= seq![dec_digit(d as int)]);
    }
    r
}

/// Renders `n` in decimal.
pub fn u64_dec(n: u64) -> (s: String)
    ensures
        s@ == dec_string(n as int),
    decreases n,
{
    if n < 10 {
        String::from_str(digit_str(n))
    } else {
        let mut s = u64_dec(n / 10);
        s.append(digit_str(n % 10));
        s
    }
}

/// `n` in decimal, zero-padded on the left to two digits; numbers of three
/// or more digits keep all of them.
pub open spec fn dec_string_pad2(n: int) -> Seq<char> {
    if n < 10 {
        seq!['0'] + dec_string(n)
    } else {
        dec_string(n)
    }
}

/// Renders `n` zero-padded to at least two digits.
pub fn u64_dec_pad2(n: u64) -> (s: String)
    ensures
        s@ == dec_string_pad2(n as int),
{
    if n < 10 {
        proof {
            reveal_strlit("0");
        }
        let mut s = String::from_str("0");
        s.append(digit_str(n));
        proof {
            assert("0"@ =~= seq!['0']);
        }
        s
    } else {
        u64_dec(n)
    }
}

/// The clock string for a non-negative number of seconds: `MM:SS` below one
/// hour, `H:MM:SS` from one hour up, minutes and seconds zero-padded.
pub open spec fn clock_string(total_secs: int) -> Seq<char> {
    let hours = total_secs / 3600;
    let minutes = (total_secs % 3600) / 60;
    let secs = total_secs % 60;
    if hours > 0 {
        dec_string(hours) + seq![':'] + dec_string_pad2(minutes) + seq![':'] + dec_string_pad2(secs)
    } else {
        dec_string_pad2(minutes) + seq![':'] + dec_string_pad2(secs)
    }
}

/// Formats a position or duration for the status table. A negative input
/// means the backend knows no value yet and shows as `--:--`.
pub fn format_time(seconds: i64) -> (s: String)
    ensures
        seconds < 0 ==> s@ == "--:--"@,
        seconds >= 0 ==> s@ == clock_string(seconds as int),
{
    if seconds < 0 {
        return String::from_str("--:--");
    }
    let total: u64 = seconds as u64;
    let hours: u64 = total / 3600;
    let minutes: u64 = (total % 3600) / 60;
    let secs: u64 = total % 60;
    proof {
        reveal_strlit(":");
        assert(":"@ =~= seq![':']);
    }
    if hours > 0 {
        let mut s = u64_dec(hours);
        s.append(":");
        s.append(u64_dec_pad2(minutes).as_str());
        s.append(":");
        s.append(u64_dec_pad2(secs).as_str());
        s
    } else {
        let mut s = u64_dec_pad2(minutes);
        s.append(":");
        s.append(u64_dec_pad2(secs).as_str());
        s
    }
}

/// A file name of more than thirty characters is cut to its first
/// twenty-seven and given a trailing ellipsis.
pub open spec fn truncated_name(name: Seq<char>) -> Seq<char> {
    if name.len() > 30 {
        name.subrange(0, 27) + seq!['.', '.', '.']
    } else {
        name
    }
}

/// Shortens a long file name for the cell overlay. Only ASCII names are
/// cut, so the cut cannot split a character.
pub fn display_name(name: &str) -> (r: String)
    requires
        name@.len() > 30 ==> name.is_ascii(),
    ensures
        r@ == truncated_name(name@),
{
    let len = name.unicode_len();
    if len > 30 {
        let head = name.substring_ascii(0, 27);
        let mut s = String::from_str(head);
        s.append("...");
        proof {
            reveal_strlit("...");
            assert("..."@ =~= seq!['.', '.', '.']);
        }
        s
    } else {
        String::from_str(name)
    }
}

} // verus!

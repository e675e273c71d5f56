//! Decimal text for unsigned integers: the URL paths of the API embed numeric
//! IDs, and one endpoint answers with a number written in a message string.

use vstd::prelude::*;

verus! {

/// The ten decimal digit characters, in order of value.
pub open spec fn digit_chars() -> Seq<char> {
    seq!['0', '1', '2', '3', '4', '5', '6', '7', '8', '9']
}

/// The character that writes the value `d`, for `d < 10`.
pub open spec fn digit_char(d: nat) -> char {
    digit_chars()[d as int]
}

/// The decimal writing of `n`, most significant digit first, no sign and no
/// leading zeroes (a single `'0'` for zero).
pub open spec fn spec_decimal(n: nat) -> Seq<char>
    decreases n,
{
    if n < 10 {
        seq![digit_char(n)]
    } else {
        spec_decimal(n / 10) + seq![digit_char(n % 10)]
    }
}

/// The decimal writing of `n`, left-padded with zeroes to at least `width`
/// characters.
pub open spec fn spec_padded_decimal(n: nat, width: nat) -> Seq<char>
    decreases width,
{
    if spec_decimal(n).len() >= width {
        spec_decimal(n)
    } else {
        seq!['0'] + spec_padded_decimal(n, (width - 1) as nat)
    }
}

/// Writes `n` in decimal, left-padded with zeroes to at least `width`
/// characters.
pub fn padded_u64(n: u64, width: usize) -> (r: String)
    ensures
        r@ == spec_padded_decimal(n as nat, width as nat),
    decreases width,
{
    let s = u64_to_string(n);
    if s.as_str().unicode_len() >= width {
        s
    } else {
        proof {
            reveal_strlit("0");
            assert("0"@ =~= seq!['0']);
        }
        "0".to_owned().concat(padded_u64(n, width - 1).as_str())
    }
}

/// Whether `c` is a decimal digit character.
pub open spec fn is_digit(c: char) -> bool {
    '0' <= c && c <= '9'
}

/// The value of the digit character `c`.
pub open spec fn digit_val(c: char) -> nat {
    ((c as int) - ('0' as int)) as nat
}

/// Whether every character of `s` is a decimal digit.
pub open spec fn all_digits(s: Seq<char>) -> bool {
    forall|i: int| 0 <= i < s.len() ==> is_digit(s[i])
}

/// The number that the digit string `s` writes, ignoring any width limit.
pub open spec fn spec_digits_val(s: Seq<char>) -> nat
    decreases s.len(),
{
    if s.len() == 0 {
        0
    } else {
        spec_digits_val(s.drop_last()) * 10 + digit_val(s.last())
    }
}

/// What reading `s` as a `u64` yields: the written value, unless `s` is
/// empty, holds a character that is no digit, or writes a value over
/// `u64::MAX`.
pub open spec fn spec_parse_u64(s: Seq<char>) -> Option<u64> {
    if s.len() == 0 || !all_digits(s) || spec_digits_val(s) > u64::MAX {
        None
    } else {
        Some(spec_digits_val(s) as u64)
    }
}

/// Dropping characters from the end of a digit string never grows its value.
proof fn lemma_digits_val_prefix(s: Seq<char>, k: int)
    requires
        0 <= k <= s.len(),
    ensures
        spec_digits_val(s) >= spec_digits_val(s.subrange(0, k)),
    decreases s.len() - k,
{
    if k < s.len() {
        lemma_digits_val_prefix(s, k + 1);
        assert(s.subrange(0, k + 1).drop_last() =~= s.subrange(0, k));
        assert(spec_digits_val(s.subrange(0, k + 1)) >= spec_digits_val(s.subrange(0, k)));
    } else {
        assert(s.subrange(0, k) =~= s);
    }
}

/// The character for a digit value, as a string slice.
fn digit_str(d: u64) -> (r: &'static str)
    requires
        d < 10,
    ensures
        r@ =~= seq![digit_char(d as nat)],
{
    proof {
        reveal_strlit("0");
        reveal_strlit("1");
        reveal_strlit("2");
        reveal_strlit("3");
        reveal_strlit("4");
        reveal_strlit("5");
        reveal_strlit("6");
        reveal_strlit("7");
        reveal_strlit("8");
        reveal_strlit("9");
    }
    match d {
        0 => "0",
        1 => "1",
        2 => "2",
        3 => "3",
        4 => "4",
        5 => "5",
        6 => "6",
        7 => "7",
        8 => "8",
        _ => "9",
    }
}

/// Writes `n` in decimal.
pub fn u64_to_string(n: u64) -> (r: String)
    ensures
        r@ == spec_decimal(n as nat),
    decreases n,
{
    if n < 10 {
        digit_str(n).to_owned()
    } else {
        u64_to_string(n / 10).concat(digit_str(n % 10))
    }
}

/// Reads a `u64` written in decimal, digits only: exactly the values that
/// `spec_parse_u64` accepts.
pub fn parse_u64(s: &str) -> (r: Option<u64>)
    ensures
        r == spec_parse_u64(s@),
{
    let len = s.unicode_len();
    if len == 0 {
        return None;
    }
    let mut val: u64 = 0;
    let mut i: usize = 0;
    while i < len
        invariant
            0 < len == s@.len(),
            0 <= i <= len,
            all_digits(s@.subrange(0, i as int)),
            val == spec_digits_val(s@.subrange(0, i as int)),
        decreases len - i,
    {
        let c = s.get_char(i);
        if !('0' <= c && c <= '9') {
            assert(!all_digits(s@));
            return None;
        }
        let d: u64 = (c as u32 - '0' as u32) as u64;
        proof {
            assert(s@.subrange(0, i + 1).drop_last() =~= s@.subrange(0, i as int));
        }
        if val > (u64::MAX - d) / 10 {
            proof {
                assert(spec_digits_val(s@.subrange(0, i + 1)) > u64::MAX);
                lemma_digits_val_prefix(s@, i + 1);
            }
            return None;
        }
        val = val * 10 + d;
        i = i + 1;
    }
    proof {
        assert(s@.subrange(0, len as int) =~= s@);
    }
    Some(val)
}

} // verus!

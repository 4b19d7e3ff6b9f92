//! Strict decimal parsing and printing for the payload's numeric fields:
//! an optional leading sign, one or more digits, nothing else.

use vstd::prelude::*;

verus! {

/// The ten ASCII decimal digits.
pub open spec fn is_dec_digit(c: char) -> bool {
    48 <= c as u32 <= 57
}

/// The numeric value of a decimal digit; zero outside the digits, which
/// keeps digit strings' values monotone in their length.
pub open spec fn digit_val(c: char) -> nat {
    if is_dec_digit(c) {
        (c as u32 - 48) as nat
    } else {
        0
    }
}

pub open spec fn all_digits(s: Seq<char>) -> bool {
    forall|i: int| 0 <= i < s.len() ==> is_dec_digit(s[i])
}

/// The value of a digit string read most-significant first.
pub open spec fn digits_val(s: Seq<char>) -> nat
    decreases s.len(),
{
    if s.len() == 0 {
        0
    } else {
        digits_val(s.drop_last()) * 10 + digit_val(s.last())
    }
}

/// Unsigned decimal syntax: an optional leading `+`, then one or more
/// digits; the value, or `None` where the syntax fails.
pub open spec fn spec_parse_unsigned(s: Seq<char>) -> Option<int> {
    let body = if s.len() > 0 && s[0] == '+' {
        s.subrange(1, s.len() as int)
    } else {
        s
    };
    if body.len() > 0 && all_digits(body) {
        Some(digits_val(body) as int)
    } else {
        None
    }
}

/// Signed decimal syntax: an optional leading `+` or `-`, then one or more
/// digits; the value, or `None` where the syntax fails.
pub open spec fn spec_parse_signed(s: Seq<char>) -> Option<int> {
    if s.len() > 0 && s[0] == '-' {
        let body = s.subrange(1, s.len() as int);
        if body.len() > 0 && all_digits(body) {
            Some(-(digits_val(body) as int))
        } else {
            None
        }
    } else {
        spec_parse_unsigned(s)
    }
}

/// Unsigned decimal within `u8`, as the UV code field uses.
pub open spec fn spec_parse_u8(s: Seq<char>) -> Option<u8> {
    match spec_parse_unsigned(s) {
        Some(v) => if v <= u8::MAX {
            Some(v as u8)
        } else {
            None
        },
        None => None,
    }
}

/// Unsigned decimal within `u32`, as the location identifier uses.
pub open spec fn spec_parse_u32(s: Seq<char>) -> Option<u32> {
    match spec_parse_unsigned(s) {
        Some(v) => if v <= u32::MAX {
            Some(v as u32)
        } else {
            None
        },
        None => None,
    }
}

/// Signed decimal within `i32`, as the scalar forecast fields use.
pub open spec fn spec_parse_i32(s: Seq<char>) -> Option<i32> {
    match spec_parse_signed(s) {
        Some(v) => if i32::MIN <= v <= i32::MAX {
            Some(v as i32)
        } else {
            None
        },
        None => None,
    }
}

/// Signed decimal within `i64`, as the minutes-offset field uses.
pub open spec fn spec_parse_i64(s: Seq<char>) -> Option<i64> {
    match spec_parse_signed(s) {
        Some(v) => if i64::MIN <= v <= i64::MAX {
            Some(v as i64)
        } else {
            None
        },
        None => None,
    }
}

/// A digit string's value only grows as more digits follow.
proof fn lemma_digits_val_prefix(s: Seq<char>, k: int)
    requires
        0 <= k <= s.len(),
    ensures
        digits_val(s.take(k)) <= digits_val(s),
    decreases s.len() - k,
{
    if k == s.len() {
        assert(s.take(k) =~= s);
    } else {
        assert(s.take(k + 1).drop_last() =~= s.take(k));
        assert(digits_val(s.take(k + 1)) == digits_val(s.take(k)) * 10 + digit_val(s[k]));
        lemma_digits_val_prefix(s, k + 1);
    }
}

/// Parse a bare digit string into its value, refusing an empty string, a
/// non-digit, and any value above `cap`.
fn parse_digits_capped(s: &str, cap: u64) -> (r: Option<u64>)
    ensures
        match r {
            Some(v) => s@.len() > 0 && all_digits(s@) && digits_val(s@) == v && v <= cap,
            None => s@.len() == 0 || !all_digits(s@) || digits_val(s@) > cap,
        },
{
    let n = s.unicode_len();
    if n == 0 {
        return None;
    }
    let mut acc: u64 = 0;
    let mut i: usize = 0;
    while i < n
        invariant
            i <= n,
            n == s@.len(),
            all_digits(s@.take(i as int)),
            acc == digits_val(s@.take(i as int)),
            acc <= cap,
        decreases n - i,
    {
        let c = s.get_char(i);
        let cu = c as u32;
        if cu < 48 || cu > 57 {
            assert(!is_dec_digit(s@[i as int]));
            return None;
        }
        let d: u64 = (cu - 48) as u64;
        proof {
            assert(s@.take(i + 1).drop_last() =~= s@.take(i as int));
            assert(digits_val(s@.take(i + 1)) == acc * 10 + d);
        }
        let q = cap / 10;
        let m = cap % 10;
        if acc > q || (acc == q && d > m) {
            proof {
                vstd::arithmetic::div_mod::lemma_fundamental_div_mod(cap as int, 10);
                assert(acc * 10 + d > cap);
                lemma_digits_val_prefix(s@, i + 1);
            }
            return None;
        }
        proof {
            vstd::arithmetic::div_mod::lemma_fundamental_div_mod(cap as int, 10);
            assert(acc * 10 + d <= cap);
        }
        acc = acc * 10 + d;
        i += 1;
    }
    proof {
        assert(s@.take(n as int) =~= s@);
    }
    Some(acc)
}

/// Parse an unsigned decimal string, `u8`-bounded.
pub fn parse_decimal_u8(s: &str) -> (r: Option<u8>)
    ensures
        r == spec_parse_u8(s@),
{
    let n = s.unicode_len();
    let body = if n > 0 && s.get_char(0) == '+' {
        s.substring_char(1, n)
    } else {
        s
    };
    match parse_digits_capped(body, 255) {
        Some(v) => Some(v as u8),
        None => None,
    }
}

/// Parse an unsigned decimal string, `u32`-bounded.
pub fn parse_decimal_u32(s: &str) -> (r: Option<u32>)
    ensures
        r == spec_parse_u32(s@),
{
    let n = s.unicode_len();
    let body = if n > 0 && s.get_char(0) == '+' {
        s.substring_char(1, n)
    } else {
        s
    };
    match parse_digits_capped(body, 4294967295) {
        Some(v) => Some(v as u32),
        None => None,
    }
}

/// Parse a signed decimal string, `i64`-bounded.
pub fn parse_decimal_i64(s: &str) -> (r: Option<i64>)
    ensures
        r == spec_parse_i64(s@),
{
    let n = s.unicode_len();
    if n > 0 && s.get_char(0) == '-' {
        let body = s.substring_char(1, n);
        match parse_digits_capped(body, 9223372036854775808) {
            Some(v) => if v == 9223372036854775808 {
                Some(i64::MIN)
            } else {
                Some(-(v as i64))
            },
            None => None,
        }
    } else {
        let body = if n > 0 && s.get_char(0) == '+' {
            s.substring_char(1, n)
        } else {
            s
        };
        match parse_digits_capped(body, 9223372036854775807) {
            Some(v) => Some(v as i64),
            None => None,
        }
    }
}

/// Parse a signed decimal string, `i32`-bounded.
pub fn parse_decimal_i32(s: &str) -> (r: Option<i32>)
    ensures
        r == spec_parse_i32(s@),
{
    match parse_decimal_i64(s) {
        Some(v) => if -2147483648 <= v && v <= 2147483647 {
            Some(v as i32)
        } else {
            None
        },
        None => None,
    }
}

/// The decimal digit that names a value below ten.
pub open spec fn digit_char(d: nat) -> char
    recommends
        d < 10,
{
    if d == 0 {
        '0'
    } else if d == 1 {
        '1'
    } else if d == 2 {
        '2'
    } else if d == 3 {
        '3'
    } else if d == 4 {
        '4'
    } else if d == 5 {
        '5'
    } else if d == 6 {
        '6'
    } else if d == 7 {
        '7'
    } else if d == 8 {
        '8'
    } else {
        '9'
    }
}

/// The canonical decimal rendering of a number: no sign, no leading zero
/// except for the number zero itself.
pub open spec fn dec_string_of(n: nat) -> Seq<char>
    decreases n,
{
    if n < 10 {
        seq![digit_char(n)]
    } else {
        dec_string_of(n / 10).push(digit_char(n % 10))
    }
}

fn digit_str(d: u32) -> (r: &'static str)
    requires
        d < 10,
    ensures
        r@ == seq![digit_char(d as nat)],
{
    proof {
        reveal_strlit("0");
        reveal_strlit("1");
        reveal_strlit("2");
        reveal_strlit("3");
        reveal_strlit("4");
        reveal_strlit("5");
        reveal_strlit("6");
        reveal_strlit("7");
        reveal_strlit("8");
        reveal_strlit("9");
        assert("0"@ =~= seq!['0']);
        assert("1"@ =~= seq!['1']);
        assert("2"@ =~= seq!['2']);
        assert("3"@ =~= seq!['3']);
        assert("4"@ =~= seq!['4']);
        assert("5"@ =~= seq!['5']);
        assert("6"@ =~= seq!['6']);
        assert("7"@ =~= seq!['7']);
        assert("8"@ =~= seq!['8']);
        assert("9"@ =~= seq!['9']);
    }
    if d == 0 {
        "0"
    } else if d == 1 {
        "1"
    } else if d == 2 {
        "2"
    } else if d == 3 {
        "3"
    } else if d == 4 {
        "4"
    } else if d == 5 {
        "5"
    } else if d == 6 {
        "6"
    } else if d == 7 {
        "7"
    } else if d == 8 {
        "8"
    } else {
        "9"
    }
}

/// Render a number as its canonical decimal string.
pub fn u32_to_decimal(n: u32) -> (r: String)
    ensures
        r@ == dec_string_of(n as nat),
    decreases n,
{
    if n < 10 {
        digit_str(n).to_owned()
    } else {
        let mut s = u32_to_decimal(n / 10);
        s.append(digit_str(n % 10));
        proof {
            assert(dec_string_of((n / 10) as nat) + seq![digit_char((n % 10) as nat)]
                =~= dec_string_of((n / 10) as nat).push(digit_char((n % 10) as nat)));
        }
        s
    }
}

/// Parsing inverts canonical printing: the decimal rendering of a number is
/// all digits and reads back as that number.
pub proof fn lemma_dec_string_val(n: nat)
    ensures
        dec_string_of(n).len() > 0,
        all_digits(dec_string_of(n)),
        digits_val(dec_string_of(n)) == n,
    decreases n,
{
    if n < 10 {
        let s = seq![digit_char(n)];
        assert(s.len() == 1);
        assert(s.last() == digit_char(n));
        assert(s.drop_last() =~= Seq::<char>::empty());
        assert(digits_val(Seq::<char>::empty()) == 0);
        assert(digits_val(s) == digit_val(digit_char(n)));
        assert(digit_val(digit_char(n)) == n);
    } else {
        lemma_dec_string_val(n / 10);
        let pre = dec_string_of(n / 10);
        let c = digit_char(n % 10);
        assert(pre.push(c).drop_last() =~= pre);
        assert(pre.push(c).last() == c);
        assert(digit_val(c) == n % 10);
        vstd::arithmetic::div_mod::lemma_fundamental_div_mod(n as int, 10);
        assert(all_digits(pre.push(c))) by {
            assert(forall|i: int|
                0 <= i < pre.len() ==> #[trigger] pre.push(c)[i] == pre[i]);
        }
    }
}

/// The canonical decimal rendering parses as an unsigned decimal back to
/// the number it renders.
pub proof fn lemma_unsigned_round_trip(n: nat)
    ensures
        spec_parse_unsigned(dec_string_of(n)) == Some(n as int),
{
    lemma_dec_string_val(n);
    assert(is_dec_digit(dec_string_of(n)[0]));
    assert('+' as u32 == 43);
    assert(dec_string_of(n)[0] != '+');
}

} // verus!

//! Decimal rendering and parsing of the scalar value types, and the small
//! character-level helpers the rest of the library builds names and
//! messages with.

use vstd::prelude::*;
use vstd::string::StringExecFns;
use vstd::string::StrSliceExecFns;

verus! {

/// Relies on `String::push`: appends exactly the one character.
#[verifier::external_body]
pub fn string_push(s: &mut String, c: char)
    ensures
        final(s)@ == old(s)@.push(c),
{
    s.push(c);
}

/// The character for one decimal digit value.
pub open spec fn dec_digit_char(d: int) -> char {
    (48 + d) as char
}

/// The decimal rendering of a natural number, most significant digit first,
/// with no leading zeros (a single `'0'` for zero).
pub open spec fn spec_dec_str(n: nat) -> Seq<char>
    decreases n,
{
    if n < 10 {
        seq![dec_digit_char(n as int)]
    } else {
        spec_dec_str(n / 10).push(dec_digit_char((n % 10) as int))
    }
}

/// The decimal rendering of an integer: a `'-'` sign before the magnitude
/// when negative.
pub open spec fn spec_dec_str_signed(v: int) -> Seq<char> {
    if v >= 0 {
        spec_dec_str(v as nat)
    } else {
        seq!['-'] + spec_dec_str((-v) as nat)
    }
}

/// The digit characters of `ds` read back to front.
spec fn rev_digit_chars(ds: Seq<u8>) -> Seq<char> {
    Seq::new(ds.len(), |i: int| dec_digit_char(ds[ds.len() - 1 - i] as int))
}

proof fn lemma_rev_digit_chars_push(ds: Seq<u8>, d: u8)
    ensures
        rev_digit_chars(ds.push(d)) =~= seq![dec_digit_char(d as int)] + rev_digit_chars(ds),
{
}

/// Render an unsigned 64-bit number in decimal.
pub fn u64_to_string(n: u64) -> (s: String)
    ensures
        s@ == spec_dec_str(n as nat),
{
    let mut digits: Vec<u8> = Vec::new();
    let mut m: u64 = n / 10;
    digits.push((n % 10) as u8);
    proof {
        if n < 10 {
            assert(rev_digit_chars(digits@) =~= spec_dec_str(n as nat));
        } else {
            assert(rev_digit_chars(digits@) =~= seq![dec_digit_char((n % 10) as int)]);
            assert(spec_dec_str(m as nat) + rev_digit_chars(digits@) =~= spec_dec_str(n as nat));
        }
    }
    while m > 0
        invariant
            forall|i: int| 0 <= i < digits@.len() ==> digits@[i] < 10,
            spec_dec_str(n as nat) == if m > 0 {
                spec_dec_str(m as nat) + rev_digit_chars(digits@)
            } else {
                rev_digit_chars(digits@)
            },
        decreases m,
    {
        let d: u8 = (m % 10) as u8;
        let ghost pre = digits@;
        digits.push(d);
        proof {
            lemma_rev_digit_chars_push(pre, d);
        }
        if m < 10 {
            proof {
                assert(spec_dec_str(m as nat) =~= seq![dec_digit_char(d as int)]);
                assert(spec_dec_str(m as nat) + rev_digit_chars(pre) =~= rev_digit_chars(
                    digits@,
                ));
            }
        } else {
            proof {
                assert(spec_dec_str(m as nat) == spec_dec_str((m / 10) as nat).push(
                    dec_digit_char((m % 10) as int),
                ));
                assert(spec_dec_str((m / 10) as nat).push(dec_digit_char(d as int))
                    + rev_digit_chars(pre) =~= spec_dec_str((m / 10) as nat) + rev_digit_chars(
                    digits@,
                ));
            }
        }
        m = m / 10;
    }
    let mut s = String::new();
    let count: usize = digits.len();
    let mut k: usize = 0;
    while k < count
        invariant
            count == digits@.len(),
            k <= count,
            forall|i: int| 0 <= i < digits@.len() ==> digits@[i] < 10,
            s@ =~= rev_digit_chars(digits@).take(k as int),
        decreases count - k,
    {
        let d: u8 = digits[count - 1 - k];
        string_push(&mut s, (48 + d) as char);
        k = k + 1;
        proof {
            assert(s@ =~= rev_digit_chars(digits@).take(k as int));
        }
    }
    proof {
        assert(rev_digit_chars(digits@).take(count as int) =~= rev_digit_chars(digits@));
    }
    s
}

/// Render a signed 64-bit number in decimal.
pub fn i64_to_string(v: i64) -> (s: String)
    ensures
        s@ == spec_dec_str_signed(v as int),
{
    if v >= 0 {
        u64_to_string(v as u64)
    } else {
        let magnitude: u64 = if v == i64::MIN {
            9223372036854775808u64
        } else {
            (-v) as u64
        };
        let mut s = String::from_str("-");
        let rendered = u64_to_string(magnitude);
        s.append(rendered.as_str());
        proof {
            reveal_strlit("-");
            assert(s@ =~= spec_dec_str_signed(v as int));
        }
        s
    }
}

/// Render a 32-bit unsigned number in decimal.
pub fn u32_to_string(v: u32) -> (s: String)
    ensures
        s@ == spec_dec_str(v as nat),
{
    u64_to_string(v as u64)
}

/// Render a 32-bit signed number in decimal.
pub fn i32_to_string(v: i32) -> (s: String)
    ensures
        s@ == spec_dec_str_signed(v as int),
{
    i64_to_string(v as i64)
}

/// Render a boolean as `"true"` or `"false"`.
pub fn bool_to_string(v: bool) -> (s: String)
    ensures
        v ==> s@ == "true"@,
        !v ==> s@ == "false"@,
{
    if v {
        String::from_str("true")
    } else {
        String::from_str("false")
    }
}

/// Whether `c` is a decimal digit.
pub open spec fn is_dec_digit(c: char) -> bool {
    48 <= c as int <= 57
}

/// The value of one digit character; zero for any other character.
pub open spec fn dec_digit_val(c: char) -> nat {
    if is_dec_digit(c) {
        (c as int - 48) as nat
    } else {
        0
    }
}

/// Whether every character of `s` is a decimal digit.
pub open spec fn all_dec_digits(s: Seq<char>) -> bool {
    forall|i: int| 0 <= i < s.len() ==> is_dec_digit(#[trigger] s[i])
}

/// The number denoted by a digit sequence, most significant first.
pub open spec fn dec_digits_val(s: Seq<char>) -> nat
    decreases s.len(),
{
    if s.len() == 0 {
        0
    } else {
        10 * dec_digits_val(s.drop_last()) + dec_digit_val(s.last())
    }
}

proof fn lemma_dec_digits_val_take_le(s: Seq<char>, j: int)
    requires
        0 <= j <= s.len(),
    ensures
        dec_digits_val(s.take(j)) <= dec_digits_val(s),
    decreases s.len(),
{
    if j == s.len() {
        assert(s.take(j) =~= s);
    } else {
        lemma_dec_digits_val_take_le(s.drop_last(), j);
        assert(s.drop_last().take(j) =~= s.take(j));
    }
}

/// What `str::parse` accepts for an unsigned number capped at `max`: an
/// optional `'+'`, then one or more digits denoting a value within the cap.
pub open spec fn spec_parse_unsigned(s: Seq<char>, max: nat) -> Option<nat> {
    let body = if s.len() > 0 && s[0] == '+' {
        s.skip(1)
    } else {
        s
    };
    if body.len() > 0 && all_dec_digits(body) && dec_digits_val(body) <= max {
        Some(dec_digits_val(body))
    } else {
        None
    }
}

/// Parse the digits of `s` from `start` on as a number of at most `max`,
/// refusing empty input, non-digits and values over the cap.
fn parse_digits_max(s: &str, start: usize, max: u64) -> (r: Option<u64>)
    requires
        start <= s@.len(),
        max >= 9,
    ensures
        match r {
            Some(v) => {
                let body = s@.skip(start as int);
                &&& body.len() > 0
                &&& all_dec_digits(body)
                &&& dec_digits_val(body) == v as nat
                &&& v <= max
            },
            None => {
                let body = s@.skip(start as int);
                !(body.len() > 0 && all_dec_digits(body) && dec_digits_val(body) <= max as nat)
            },
        },
{
    let n = s.unicode_len();
    if start == n {
        return None;
    }
    let ghost body = s@.skip(start as int);
    let mut val: u64 = 0;
    let mut i: usize = start;
    while i < n
        invariant
            max >= 9,
            start <= i <= n == s@.len(),
            body == s@.skip(start as int),
            all_dec_digits(body.take(i - start)),
            val as nat == dec_digits_val(body.take(i - start)),
            val <= max,
        decreases n - i,
    {
        let c = s.get_char(i);
        proof {
            assert(body[i - start] == s@[i as int]);
        }
        let code: u32 = c as u32;
        if code < 48 || code > 57 {
            proof {
                assert(!is_dec_digit(body[i - start]));
            }
            return None;
        }
        let d: u64 = (code - 48) as u64;
        if val > (max - d) / 10 {
            proof {
                let upto = body.take(i - start + 1);
                assert(upto.drop_last() =~= body.take(i - start));
                assert(upto.last() == body[i - start]);
                assert(dec_digits_val(upto) == 10 * (val as nat) + d);
                assert(10 * (val as nat) + d > max) by (nonlinear_arith)
                    requires
                        val > (max - d) / 10,
                        d <= 9,
                        val <= max,
                        d <= max,
                ;
                lemma_dec_digits_val_take_le(body, i - start + 1);
            }
            return None;
        }
        let next: u64 = val * 10 + d;
        proof {
            assert(val * 10 + d <= max) by (nonlinear_arith)
                requires
                    val <= (max - d) / 10,
                    d <= 9,
                    d <= max,
            ;
            let upto = body.take(i - start + 1);
            assert(upto.drop_last() =~= body.take(i - start));
            assert(upto.last() == body[i - start]);
        }
        val = next;
        i = i + 1;
    }
    proof {
        assert(body.take(n - start) =~= body);
    }
    Some(val)
}

/// Parse an unsigned 64-bit decimal as `str::parse::<u64>` does.
pub fn parse_u64(s: &str) -> (r: Option<u64>)
    ensures
        match r {
            Some(v) => spec_parse_unsigned(s@, u64::MAX as nat) == Some(v as nat),
            None => spec_parse_unsigned(s@, u64::MAX as nat) is None,
        },
{
    let n = s.unicode_len();
    let start: usize = if n > 0 && s.get_char(0) == '+' {
        1
    } else {
        0
    };
    proof {
        if start == 0 {
            assert(s@.skip(0) =~= s@);
        }
    }
    parse_digits_max(s, start, u64::MAX)
}

/// Parse an unsigned 32-bit decimal as `str::parse::<u32>` does.
pub fn parse_u32(s: &str) -> (r: Option<u32>)
    ensures
        match r {
            Some(v) => spec_parse_unsigned(s@, u32::MAX as nat) == Some(v as nat),
            None => spec_parse_unsigned(s@, u32::MAX as nat) is None,
        },
{
    let n = s.unicode_len();
    let start: usize = if n > 0 && s.get_char(0) == '+' {
        1
    } else {
        0
    };
    proof {
        if start == 0 {
            assert(s@.skip(0) =~= s@);
        }
    }
    match parse_digits_max(s, start, u32::MAX as u64) {
        Some(v) => Some(v as u32),
        None => None,
    }
}

/// What `str::parse` accepts for a signed number within `[min, max]`: an
/// optional sign, then one or more digits.
pub open spec fn spec_parse_signed(s: Seq<char>, min: int, max: int) -> Option<int> {
    if s.len() > 0 && s[0] == '-' {
        let body = s.skip(1);
        if body.len() > 0 && all_dec_digits(body) && -(dec_digits_val(body) as int) >= min {
            Some(-(dec_digits_val(body) as int))
        } else {
            None
        }
    } else {
        let body = if s.len() > 0 && s[0] == '+' {
            s.skip(1)
        } else {
            s
        };
        if body.len() > 0 && all_dec_digits(body) && dec_digits_val(body) <= max {
            Some(dec_digits_val(body) as int)
        } else {
            None
        }
    }
}

/// Parse a signed 64-bit decimal as `str::parse::<i64>` does.
pub fn parse_i64(s: &str) -> (r: Option<i64>)
    ensures
        match r {
            Some(v) => spec_parse_signed(s@, i64::MIN as int, i64::MAX as int) == Some(v as int),
            None => spec_parse_signed(s@, i64::MIN as int, i64::MAX as int) is None,
        },
{
    let n = s.unicode_len();
    if n > 0 && s.get_char(0) == '-' {
        match parse_digits_max(s, 1, 9223372036854775808u64) {
            Some(v) => {
                let r: i64 = if v == 9223372036854775808u64 {
                    i64::MIN
                } else {
                    -(v as i64)
                };
                Some(r)
            },
            None => None,
        }
    } else {
        let start: usize = if n > 0 && s.get_char(0) == '+' {
            1
        } else {
            0
        };
        proof {
            if start == 0 {
                assert(s@.skip(0) =~= s@);
            }
        }
        match parse_digits_max(s, start, i64::MAX as u64) {
            Some(v) => Some(v as i64),
            None => None,
        }
    }
}

/// Parse a signed 32-bit decimal as `str::parse::<i32>` does.
pub fn parse_i32(s: &str) -> (r: Option<i32>)
    ensures
        match r {
            Some(v) => spec_parse_signed(s@, i32::MIN as int, i32::MAX as int) == Some(v as int),
            None => spec_parse_signed(s@, i32::MIN as int, i32::MAX as int) is None,
        },
{
    let n = s.unicode_len();
    if n > 0 && s.get_char(0) == '-' {
        match parse_digits_max(s, 1, 2147483648u64) {
            Some(v) => {
                let r: i32 = if v == 2147483648u64 {
                    i32::MIN
                } else {
                    -((v as i32))
                };
                Some(r)
            },
            None => None,
        }
    } else {
        let start: usize = if n > 0 && s.get_char(0) == '+' {
            1
        } else {
            0
        };
        proof {
            if start == 0 {
                assert(s@.skip(0) =~= s@);
            }
        }
        match parse_digits_max(s, start, i32::MAX as u64) {
            Some(v) => Some(v as i32),
            None => None,
        }
    }
}

/// A character mapped to lower case if it is an ASCII capital letter.
pub open spec fn lower_char(c: char) -> char {
    if 65 <= c as int <= 90 {
        (c as int + 32) as char
    } else {
        c
    }
}

/// `s` mapped character by character through [`lower_char`].
pub open spec fn spec_ascii_lower(s: Seq<char>) -> Seq<char> {
    s.map_values(|c: char| lower_char(c))
}

/// Decide whether `s`, lowered as ASCII, equals `t` exactly.
pub fn eq_ignore_ascii_case(s: &str, t: &str) -> (r: bool)
    ensures
        r == (spec_ascii_lower(s@) == t@),
{
    let n = s.unicode_len();
    let m = t.unicode_len();
    if n != m {
        proof {
            assert(spec_ascii_lower(s@).len() == s@.len());
        }
        return false;
    }
    let mut i: usize = 0;
    while i < n
        invariant
            i <= n == s@.len() == t@.len(),
            forall|j: int| 0 <= j < i ==> lower_char(s@[j]) == t@[j],
        decreases n - i,
    {
        let c = s.get_char(i);
        let d = t.get_char(i);
        let code: u32 = c as u32;
        let lowered: char = if 65 <= code && code <= 90 {
            let lc: u32 = code + 32;
            proof {
                vstd::utf8::char_u32_cast(c, code);
            }
            char_from_small_u32(lc)
        } else {
            c
        };
        if lowered != d {
            proof {
                assert(lower_char(s@[i as int]) != t@[i as int]);
                assert(spec_ascii_lower(s@)[i as int] == lower_char(s@[i as int]));
            }
            return false;
        }
        i = i + 1;
    }
    proof {
        assert(spec_ascii_lower(s@) =~= t@);
    }
    true
}

/// The first `max_len` characters of a message, as the log line would
/// carry them.
pub fn debug_limited(msg: &String, max_len: usize) -> (r: String)
    ensures
        msg@.len() <= max_len ==> r@ == msg@,
        msg@.len() > max_len ==> r@ == msg@.take(max_len as int),
{
    let st = msg.as_str();
    let n = st.unicode_len();
    if n <= max_len {
        return msg.clone();
    }
    let cut = st.substring_char(0, max_len);
    let owned = cut.to_owned();
    proof {
        assert(owned@ =~= msg@.take(max_len as int));
    }
    owned
}

/// What a boolean cell accepts as text: `true`/`1` and `false`/`0`, in
/// any letter case.
pub open spec fn spec_parse_bool(s: Seq<char>) -> Option<bool> {
    let l = spec_ascii_lower(s);
    if l == "true"@ || l == "1"@ {
        Option::Some(true)
    } else if l == "false"@ || l == "0"@ {
        Option::Some(false)
    } else {
        Option::None
    }
}

/// Parse a boolean as the write surface accepts it.
pub fn parse_bool(s: &str) -> (r: Option<bool>)
    ensures
        r == spec_parse_bool(s@),
{
    if eq_ignore_ascii_case(s, "true") || eq_ignore_ascii_case(s, "1") {
        Option::Some(true)
    } else if eq_ignore_ascii_case(s, "false") || eq_ignore_ascii_case(s, "0") {
        Option::Some(false)
    } else {
        Option::None
    }
}

/// Make a character out of a code point below 128.
fn char_from_small_u32(u: u32) -> (c: char)
    requires
        u < 128,
    ensures
        c as int == u as int,
{
    (u as u8) as char
}

} // verus!


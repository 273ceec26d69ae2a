//! Decimal integer parsing as `str::parse` performs it for the integer
//! types: an optional sign, then one or more ASCII digits, the value
//! within the type's range. No whitespace is accepted.

use vstd::prelude::*;

verus! {

pub open spec fn is_digit(c: char) -> bool {
    '0' as u32 <= c as u32 <= '9' as u32
}

pub open spec fn digit_value(c: char) -> int {
    c as u32 - '0' as u32
}

pub open spec fn all_digits(s: Seq<char>) -> bool {
    forall|i: int| 0 <= i < s.len() ==> is_digit(#[trigger] s[i])
}

/// The number that the decimal digits `s` denote.
pub open spec fn digits_value(s: Seq<char>) -> int
    decreases s.len(),
{
    if s.len() == 0 {
        0
    } else {
        digits_value(s.drop_last()) * 10 + digit_value(s.last())
    }
}

/// The integer that `s` denotes: an optional `+` (or `-` where `signed`),
/// then at least one digit; `None` for anything else.
pub open spec fn decimal_value(s: Seq<char>, signed: bool) -> Option<int> {
    if s.len() > 0 && (s[0] == '+' || (signed && s[0] == '-')) {
        let d = s.drop_first();
        if d.len() > 0 && all_digits(d) {
            Some(
                if s[0] == '-' {
                    -digits_value(d)
                } else {
                    digits_value(d)
                },
            )
        } else {
            None
        }
    } else if s.len() > 0 && all_digits(s) {
        Some(digits_value(s))
    } else {
        None
    }
}

/// What `str::parse::<i64>` gives for `s`.
pub open spec fn parsed_i64(s: Seq<char>) -> Option<i64> {
    match decimal_value(s, true) {
        Some(v) => if i64::MIN <= v <= i64::MAX {
            Some(v as i64)
        } else {
            None
        },
        None => None,
    }
}

/// What `str::parse::<i32>` gives for `s`.
pub open spec fn parsed_i32(s: Seq<char>) -> Option<i32> {
    match decimal_value(s, true) {
        Some(v) => if i32::MIN <= v <= i32::MAX {
            Some(v as i32)
        } else {
            None
        },
        None => None,
    }
}

/// What `str::parse::<u8>` gives for `s`.
pub open spec fn parsed_u8(s: Seq<char>) -> Option<u8> {
    match decimal_value(s, false) {
        Some(v) => if 0 <= v <= u8::MAX {
            Some(v as u8)
        } else {
            None
        },
        None => None,
    }
}

pub proof fn lemma_digits_value_nonneg(s: Seq<char>)
    requires
        all_digits(s),
    ensures
        digits_value(s) >= 0,
    decreases s.len(),
{
    if s.len() > 0 {
        assert(all_digits(s.drop_last())) by {
            assert forall|i: int| 0 <= i < s.drop_last().len() implies is_digit(
                #[trigger] s.drop_last()[i],
            ) by {
                assert(s.drop_last()[i] == s[i]);
            }
        }
        lemma_digits_value_nonneg(s.drop_last());
        assert(is_digit(s[s.len() - 1]));
    }
}

/// A prefix of a digit string denotes no more than the whole.
pub proof fn lemma_digits_value_prefix(s: Seq<char>, k: int)
    requires
        all_digits(s),
        0 <= k <= s.len(),
    ensures
        digits_value(s.take(k)) <= digits_value(s),
    decreases s.len() - k,
{
    if k < s.len() {
        let t = s.drop_last();
        assert(all_digits(t)) by {
            assert forall|i: int| 0 <= i < t.len() implies is_digit(#[trigger] t[i]) by {
                assert(t[i] == s[i]);
            }
        }
        lemma_digits_value_prefix(t, k);
        assert(t.take(k) =~= s.take(k));
        lemma_digits_value_nonneg(t);
        assert(is_digit(s[s.len() - 1]));
    } else {
        assert(s.take(k) =~= s);
    }
}

/// Reads `chars[start..]` as digits: the value where all are digits and it
/// is no more than `limit`, else `None`.
fn digits_up_to(chars: &Vec<char>, start: usize, limit: u64) -> (r: Option<u64>)
    requires
        start <= chars.len(),
    ensures
        ({
            let d = chars@.subrange(start as int, chars.len() as int);
            match r {
                Some(v) => all_digits(d) && digits_value(d) == v && v <= limit,
                None => !all_digits(d) || digits_value(d) > limit,
            }
        }),
{
    let ghost d = chars@.subrange(start as int, chars.len() as int);
    let n = chars.len();
    let mut acc: u64 = 0;
    let mut i = start;
    let mut over = false;
    while i < n
        invariant
            start <= i <= n == chars.len(),
            d == chars@.subrange(start as int, n as int),
            all_digits(d.take(i - start)),
            !over ==> acc == digits_value(d.take(i - start)) && acc <= limit,
            over ==> digits_value(d.take(i - start)) > limit,
        decreases n - i,
    {
        let c = chars[i];
        let u = c as u32;
        if !(48 <= u && u <= 57) {
            proof {
                assert(d[i - start] == c);
            }
            return None;
        }
        let dv = (u - 48) as u64;
        proof {
            let p = d.take(i - start + 1);
            assert(p.drop_last() =~= d.take(i - start));
            assert(p.last() == c);
            assert(all_digits(p)) by {
                assert forall|j: int| 0 <= j < p.len() implies is_digit(#[trigger] p[j]) by {
                    if j < p.len() - 1 {
                        assert(p[j] == d.take(i - start)[j]);
                    }
                }
            }
            if over {
                lemma_digits_value_nonneg(d.take(i - start));
            }
        }
        if !over {
            if acc > limit / 10 || (acc == limit / 10 && dv > limit % 10) {
                over = true;
            } else {
                acc = acc * 10 + dv;
            }
        }
        i = i + 1;
    }
    assert(d.take(n - start) =~= d);
    if over {
        None
    } else {
        Some(acc)
    }
}

/// Parses `chars` as a decimal integer whose magnitude is at most `limit`.
/// `Ok` holds the sign (true for negative) and the magnitude.
fn parse_magnitude(chars: &Vec<char>, signed: bool, limit: u64) -> (r: Option<(bool, u64)>)
    ensures
        !signed ==> (decimal_value(chars@, signed) matches Some(v) ==> v >= 0),
        !signed ==> (r matches Some((neg, _)) ==> !neg),
        match r {
            Some((neg, m)) => m <= limit && decimal_value(chars@, signed) == Some(
                if neg {
                    -(m as int)
                } else {
                    m as int
                },
            ),
            None => match decimal_value(chars@, signed) {
                Some(v) => v > limit || v < -(limit as int),
                None => true,
            },
        },
{
    let n = chars.len();
    if n == 0 {
        return None;
    }
    proof {
        if !signed && chars@[0] != '+' && all_digits(chars@) {
            lemma_digits_value_nonneg(chars@);
        }
        if chars@[0] == '+' && all_digits(chars@.drop_first()) {
            lemma_digits_value_nonneg(chars@.drop_first());
        }
    }
    let first = chars[0];
    let has_sign = first == '+' || (signed && first == '-');
    let neg = signed && first == '-';
    let start: usize = if has_sign {
        1
    } else {
        0
    };
    if start == n {
        return None;
    }
    let r = digits_up_to(chars, start, limit);
    proof {
        if has_sign {
            assert(chars@.subrange(1, n as int) =~= chars@.drop_first());
        } else {
            assert(chars@.subrange(0, n as int) =~= chars@);
        }
        let d = chars@.subrange(start as int, n as int);
        if all_digits(d) {
            lemma_digits_value_nonneg(d);
        }
    }
    match r {
        Some(m) => Some((neg, m)),
        None => None,
    }
}

/// `str::parse::<i64>`.
pub fn parse_i64(s: &str) -> (r: Option<i64>)
    ensures
        r == parsed_i64(s@),
{
    let chars = chars_of_str(s);
    match parse_magnitude(&chars, true, 9223372036854775808u64) {
        Some((neg, m)) => {
            if neg {
                if m == 9223372036854775808u64 {
                    Some(i64::MIN)
                } else {
                    Some(-(m as i64))
                }
            } else if m <= 9223372036854775807u64 {
                Some(m as i64)
            } else {
                None
            }
        },
        None => None,
    }
}

/// `str::parse::<i32>`.
pub fn parse_i32(s: &str) -> (r: Option<i32>)
    ensures
        r == parsed_i32(s@),
{
    let chars = chars_of_str(s);
    match parse_magnitude(&chars, true, 2147483648u64) {
        Some((neg, m)) => {
            if neg {
                Some(-(m as i64) as i32)
            } else if m <= 2147483647u64 {
                Some(m as i32)
            } else {
                None
            }
        },
        None => None,
    }
}

/// `str::parse::<u8>`.
pub fn parse_u8(s: &str) -> (r: Option<u8>)
    ensures
        r == parsed_u8(s@),
{
    let chars = chars_of_str(s);
    match parse_magnitude(&chars, false, 255u64) {
        Some((_neg, m)) => Some(m as u8),
        None => None,
    }
}

fn chars_of_str(s: &str) -> (v: Vec<char>)
    ensures
        v@ == s@,
{
    crate::text::chars_of(s)
}

/// The character of the decimal digit `d`.
pub open spec fn digit_char(d: int) -> char {
    (('0' as u32) + d) as char
}

/// The decimal digits of `m`, most significant first, no leading zero.
pub open spec fn digits_text(m: nat) -> Seq<char>
    decreases m,
{
    if m < 10 {
        seq![digit_char(m as int)]
    } else {
        digits_text(m / 10).push(digit_char((m % 10) as int))
    }
}

/// `v` written in decimal, as `to_string` writes an integer.
pub open spec fn decimal_text(v: int) -> Seq<char> {
    if v < 0 {
        seq!['-'] + digits_text((-v) as nat)
    } else {
        digits_text(v as nat)
    }
}

fn digit_to_char(d: u64) -> (c: char)
    requires
        d < 10,
    ensures
        c == digit_char(d as int),
{
    if d == 0 { '0' } else if d == 1 { '1' } else if d == 2 { '2' } else if d == 3 { '3' }
    else if d == 4 { '4' } else if d == 5 { '5' } else if d == 6 { '6' } else if d == 7 { '7' }
    else if d == 8 { '8' } else { '9' }
}

/// The decimal digits of `n`.
pub fn digits_of(n: u64) -> (v: Vec<char>)
    ensures
        v@ == digits_text(n as nat),
{
    let mut rest = n;
    let mut acc: Vec<char> = Vec::new();
    proof {
        assert(digits_text(n as nat) =~= digits_text(rest as nat) + acc@);
    }
    loop
        invariant_except_break
            digits_text(n as nat) == digits_text(rest as nat) + acc@,
        ensures
            digits_text(n as nat) == acc@,
        decreases rest,
    {
        let d = rest % 10;
        let c = digit_to_char(d);
        let ghost old_acc = acc@;
        let ghost r = rest as nat;
        acc.insert(0, c);
        rest = rest / 10;
        proof {
            assert(acc@ =~= seq![c] + old_acc);
            if r < 10 {
                assert(digits_text(r) == seq![digit_char(r as int)]);
                assert(digits_text(n as nat) =~= acc@);
            } else {
                assert(digits_text(r) == digits_text(r / 10).push(digit_char((r % 10) as int)));
                assert(digits_text(n as nat) =~= digits_text(rest as nat) + acc@);
            }
        }
        if rest == 0 {
            break;
        }
    }
    acc
}

/// `v` in decimal (`i64::to_string`).
pub fn i64_to_string(v: i64) -> (s: String)
    ensures
        s@ == decimal_text(v as int),
{
    let mut chars: Vec<char> = Vec::new();
    let magnitude: u64 = if v < 0 {
        if v == i64::MIN {
            9223372036854775808u64
        } else {
            (-v) as u64
        }
    } else {
        v as u64
    };
    if v < 0 {
        chars.push('-');
    }
    let mut digits = digits_of(magnitude);
    chars.append(&mut digits);
    proof {
        if v < 0 {
            assert(chars@ =~= seq!['-'] + digits_text((-(v as int)) as nat));
        } else {
            assert(chars@ =~= digits_text(v as nat));
        }
    }
    crate::text::string_of(&chars)
}


proof fn lemma_digit_char(d: int)
    requires
        0 <= d < 10,
    ensures
        is_digit(digit_char(d)),
        digit_value(digit_char(d)) == d,
{
    assert(0x30 <= '0' as u32 + d <= 0x39);
    assert(digit_char(d) as u32 == '0' as u32 + d);
}

/// The decimal digits of `m` read back as `m`.
pub proof fn lemma_digits_text_value(m: nat)
    ensures
        digits_text(m).len() > 0,
        all_digits(digits_text(m)),
        digits_value(digits_text(m)) == m,
    decreases m,
{
    if m < 10 {
        lemma_digit_char(m as int);
        let t = digits_text(m);
        assert(t =~= seq![digit_char(m as int)]);
        assert(t.drop_last() =~= Seq::<char>::empty());
        assert(digits_value(t) == digits_value(t.drop_last()) * 10 + digit_value(t.last()));
    } else {
        lemma_digits_text_value(m / 10);
        lemma_digit_char((m % 10) as int);
        let t = digits_text(m);
        assert(t.drop_last() =~= digits_text(m / 10));
        assert(t.last() == digit_char((m % 10) as int));
        assert(all_digits(t)) by {
            assert forall|i: int| 0 <= i < t.len() implies is_digit(#[trigger] t[i]) by {
                if i < t.len() - 1 {
                    assert(t[i] == digits_text(m / 10)[i]);
                }
            }
        }
        assert((m / 10) * 10 + m % 10 == m) by (nonlinear_arith);
        assert(digits_value(t) == digits_value(t.drop_last()) * 10 + digit_value(t.last()));
    }
}

/// An integer written in decimal reads back as itself; a non-negative one
/// also where no sign is accepted.
pub proof fn lemma_decimal_value_of_text(v: int)
    ensures
        decimal_value(decimal_text(v), true) == Some(v),
        v >= 0 ==> decimal_value(decimal_text(v), false) == Some(v),
{
    let t = decimal_text(v);
    if v < 0 {
        let m = (-v) as nat;
        lemma_digits_text_value(m);
        assert(t.drop_first() =~= digits_text(m));
        assert(t[0] == '-');
    } else {
        lemma_digits_text_value(v as nat);
        assert(is_digit(t[0]));
    }
}

/// An integer written in decimal parses back to itself.
pub proof fn lemma_decimal_round_trip(v: i64)
    ensures
        parsed_i64(decimal_text(v as int)) == Some(v),
{
    lemma_decimal_value_of_text(v as int);
}

} // verus!

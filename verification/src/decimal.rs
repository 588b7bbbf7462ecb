//! Decimal text for the numeric prompt: parsing signed integers out of the
//! edited text and printing them back.
//!
//! [`parse_isize`] accepts exactly an optional leading sign followed by one
//! or more ASCII digits, and rejects values that do not fit the target
//! type. [`isize_to_string`] prints the canonical decimal form: no leading
//! zeros, a minus sign only for negative values.

use vstd::prelude::*;

verus! {

use vstd::seq_lib::*;

broadcast use vstd::utf8::char_is_scalar, vstd::utf8::char_u32_cast;

/// Whether a character is an ASCII digit.
pub open spec fn is_digit(c: char) -> bool {
    48 <= c as u32 && c as u32 <= 57
}

/// The numeric value of an ASCII digit.
pub open spec fn digit_val(c: char) -> int {
    c as u32 - 48
}

/// Whether a text consists of ASCII digits alone.
pub open spec fn all_digits(s: Seq<char>) -> bool {
    forall|i: int| 0 <= i < s.len() ==> #[trigger] is_digit(s[i])
}

/// The value of a digit string, read most significant digit first.
pub open spec fn dec_val(s: Seq<char>) -> int
    decreases s.len(),
{
    if s.len() == 0 {
        0
    } else {
        dec_val(s.drop_last()) * 10 + digit_val(s.last())
    }
}

/// The integer a text denotes: an optional `+` or `-` sign followed by one
/// or more digits. `None` when the text has any other shape.
pub open spec fn parsed_int(s: Seq<char>) -> Option<int> {
    if s.len() > 0 && (s[0] == '+' || s[0] == '-') {
        if s.len() > 1 && all_digits(s.skip(1)) {
            if s[0] == '-' {
                Option::Some(-dec_val(s.skip(1)))
            } else {
                Option::Some(dec_val(s.skip(1)))
            }
        } else {
            Option::None
        }
    } else if s.len() > 0 && all_digits(s) {
        Option::Some(dec_val(s))
    } else {
        Option::None
    }
}

proof fn lemma_dec_val_nonneg(s: Seq<char>)
    requires
        all_digits(s),
    ensures
        dec_val(s) >= 0,
    decreases s.len(),
{
    if s.len() > 0 {
        assert(all_digits(s.drop_last())) by {
            assert(forall|i: int|
                0 <= i < s.len() - 1 ==> s.drop_last()[i] == #[trigger] s[i]);
        }
        lemma_dec_val_nonneg(s.drop_last());
        assert(is_digit(s.last()));
    }
}

/// A digit string is worth at least as much as any of its prefixes.
proof fn lemma_dec_val_prefix_le(s: Seq<char>, n: int)
    requires
        all_digits(s),
        0 <= n <= s.len(),
    ensures
        dec_val(s.take(n)) <= dec_val(s),
    decreases s.len() - n,
{
    assert(all_digits(s.take(n))) by {
        assert(forall|i: int| 0 <= i < n ==> s.take(n)[i] == #[trigger] s[i]);
    }
    if n == s.len() {
        assert(s.take(n) =~= s);
    } else {
        lemma_dec_val_prefix_le(s, n + 1);
        let t = s.take(n + 1);
        assert(t.drop_last() =~= s.take(n));
        assert(t.last() == s[n]);
        lemma_dec_val_nonneg(s.take(n));
        assert(dec_val(t) == dec_val(s.take(n)) * 10 + digit_val(s[n]));
        assert(is_digit(s[n]));
    }
}

/// Parses an integer out of `s`: an optional sign, then one or more
/// digits, denoting a value that fits the type. Everything else is `None`.
pub fn parse_isize(s: &str) -> (r: Option<isize>)
    ensures
        parsed_int(s@) is None ==> r is None,
        parsed_int(s@) is Some && isize::MIN <= parsed_int(s@).unwrap() <= isize::MAX ==> r
            == Option::Some(parsed_int(s@).unwrap() as isize),
        parsed_int(s@) is Some && !(isize::MIN <= parsed_int(s@).unwrap() <= isize::MAX) ==> r
            is None,
{
    let chars = crate::cursor::chars_from_str(s);
    let ghost ss = s@;
    let n = chars.len();
    if n == 0 {
        return Option::None;
    }
    let neg: bool = chars[0] == '-';
    let start: usize = if chars[0] == '+' || chars[0] == '-' {
        1
    } else {
        0
    };
    if start >= n {
        return Option::None;
    }
    let ghost digits = ss.skip(start as int);
    let mut acc: isize = 0;
    let mut i: usize = start;
    while i < n
        invariant
            ss == s@,
            start <= 1,
            start <= i <= n,
            n == ss.len(),
            chars@ == ss,
            start == 1 ==> (ss[0] == '+' || ss[0] == '-'),
            start == 1 ==> (neg <==> ss[0] == '-'),
            start == 0 ==> !(ss[0] == '+' || ss[0] == '-') && !neg,
            start < n,
            digits == ss.skip(start as int),
            all_digits(digits.take(i - start)),
            neg ==> acc == -dec_val(digits.take(i - start)),
            !neg ==> acc == dec_val(digits.take(i - start)),
        decreases n - i,
    {
        let d: u32 = chars[i] as u32;
        if d < 48 || d > 57 {
            proof {
                assert(ss[i as int] as u32 == d);
                assert(!is_digit(digits[i - start]));
                assert(!all_digits(digits));
                if start == 0 {
                    assert(digits =~= ss);
                }
                assert(parsed_int(ss) is None);
            }
            return Option::None;
        }
        let dv: isize = (d - 48) as isize;
        proof {
            assert(is_digit(ss[i as int]));
            assert(digits.take(i + 1 - start).drop_last() =~= digits.take(i - start));
            assert(digits.take(i + 1 - start).last() == digits[i - start]);
            assert(all_digits(digits.take(i + 1 - start)));
        }
        let next: Option<isize> = match acc.checked_mul(10) {
            Option::Some(a) => {
                if neg {
                    a.checked_sub(dv)
                } else {
                    a.checked_add(dv)
                }
            },
            Option::None => Option::None,
        };
        match next {
            Option::Some(a) => {
                acc = a;
            },
            Option::None => {
                proof {
                    let p = digits.take(i - start);
                    let p2 = digits.take(i + 1 - start);
                    lemma_dec_val_nonneg(p);
                    assert(digits[i - start] == ss[i as int]);
                    assert(digit_val(digits[i - start]) == dv);
                    assert(dec_val(p2) == dec_val(p) * 10 + dv);
                    lemma_overflow_out_of_range(ss, digits, i - start + 1, neg, start as int);
                }
                return Option::None;
            },
        }
        i = i + 1;
    }
    proof {
        assert(digits.take(n - start) =~= digits);
        if start == 1 {
            assert(parsed_int(ss) == Option::Some(
                if ss[0] == '-' {
                    -dec_val(ss.skip(1))
                } else {
                    dec_val(ss.skip(1))
                },
            ));
        } else {
            assert(digits =~= ss);
            assert(parsed_int(ss) == Option::Some(dec_val(ss)));
        }
    }
    Option::Some(acc)
}

/// When the value of a digit prefix already falls outside the type's
/// range, the value of the whole text does too.
proof fn lemma_overflow_out_of_range(
    ss: Seq<char>,
    digits: Seq<char>,
    k: int,
    neg: bool,
    start: int,
)
    requires
        0 <= start <= 1,
        start < ss.len(),
        digits == ss.skip(start),
        start == 1 ==> (ss[0] == '+' || ss[0] == '-'),
        start == 1 ==> (neg <==> ss[0] == '-'),
        start == 0 ==> !(ss[0] == '+' || ss[0] == '-') && !neg,
        0 < k <= digits.len(),
        all_digits(digits.take(k)),
        neg ==> -dec_val(digits.take(k)) < isize::MIN,
        !neg ==> dec_val(digits.take(k)) > isize::MAX,
    ensures
        parsed_int(ss) is Some ==> !(isize::MIN <= parsed_int(ss).unwrap() <= isize::MAX),
{
    if parsed_int(ss) is Some {
        assert(all_digits(digits));
        lemma_dec_val_prefix_le(digits, k);
        if start == 1 {
            assert(digits =~= ss.skip(1));
        } else {
            assert(digits =~= ss);
        }
    }
}

/// The character of a decimal digit.
pub open spec fn digit_char(d: int) -> char {
    if d == 0 {
        '0'
    } else if d == 1 {
        '1'
    } else if d == 2 {
        '2'
    } else if d == 3 {
        '3'
    } else if d == 4 {
        '4'
    } else if d == 5 {
        '5'
    } else if d == 6 {
        '6'
    } else if d == 7 {
        '7'
    } else if d == 8 {
        '8'
    } else {
        '9'
    }
}

/// The decimal digits of a natural number, most significant first, without
/// leading zeros (`0` itself prints as one digit).
pub open spec fn dec_digits(n: nat) -> Seq<char>
    decreases n,
{
    if n < 10 {
        seq![digit_char(n as int)]
    } else {
        dec_digits(n / 10).push(digit_char((n % 10) as int))
    }
}

/// The canonical decimal text of an integer.
pub open spec fn int_dec_str(v: int) -> Seq<char> {
    if v < 0 {
        seq!['-'] + dec_digits((-v) as nat)
    } else {
        dec_digits(v as nat)
    }
}

fn digit_of(d: u128) -> (r: char)
    requires
        d < 10,
    ensures
        r == digit_char(d as int),
{
    if d == 0 {
        '0'
    } else if d == 1 {
        '1'
    } else if d == 2 {
        '2'
    } else if d == 3 {
        '3'
    } else if d == 4 {
        '4'
    } else if d == 5 {
        '5'
    } else if d == 6 {
        '6'
    } else if d == 7 {
        '7'
    } else if d == 8 {
        '8'
    } else {
        '9'
    }
}

/// The decimal digits of a natural number, as characters.
fn dec_chars(mag0: u128) -> (r: Vec<char>)
    ensures
        r@ == dec_digits(mag0 as nat),
{
    let ghost m0 = mag0 as nat;
    let mut mag: u128 = mag0;
    let mut rev: Vec<char> = Vec::new();
    if mag == 0 {
        rev.push('0');
        proof {
            assert(rev@.reverse() =~= dec_digits(m0));
        }
    } else {
        while mag > 0
            invariant
                mag > 0 ==> dec_digits(m0) == dec_digits(mag as nat) + rev@.reverse(),
                mag == 0 ==> dec_digits(m0) == rev@.reverse(),
            decreases mag,
        {
            let d: u128 = mag % 10;
            let ghost old_rev = rev@;
            let ghost old_mag = mag as nat;
            rev.push(digit_of(d));
            mag = mag / 10;
            proof {
                assert(rev@.reverse() =~= seq![digit_char(d as int)] + old_rev.reverse());
                if old_mag >= 10 {
                    assert(dec_digits(old_mag) == dec_digits(old_mag / 10).push(
                        digit_char((old_mag % 10) as int),
                    ));
                    assert(dec_digits(old_mag / 10).push(digit_char(d as int)) + old_rev.reverse()
                        =~= dec_digits(old_mag / 10) + (seq![digit_char(d as int)]
                        + old_rev.reverse()));
                } else {
                    assert(dec_digits(old_mag) == seq![digit_char(d as int)]);
                }
            }
        }
    }
    let mut out: Vec<char> = Vec::new();
    let ghost head = out@;
    let k = rev.len();
    let mut i: usize = 0;
    while i < k
        invariant
            i <= k,
            k == rev@.len(),
            out@ == head + rev@.reverse().take(i as int),
        decreases k - i,
    {
        out.push(rev[k - 1 - i]);
        proof {
            assert(rev@.reverse()[i as int] == rev@[k - 1 - i]);
            assert(out@ =~= head + rev@.reverse().take(i + 1));
        }
        i = i + 1;
    }
    proof {
        assert(rev@.reverse().take(k as int) =~= rev@.reverse());
        assert(out@ =~= dec_digits(mag0 as nat));
    }
    out
}

/// Prints an integer in its canonical decimal form.
pub fn isize_to_string(v: isize) -> (r: String)
    ensures
        r@ == int_dec_str(v as int),
{
    let neg: bool = v < 0;
    let mag0: u128 = if v < 0 {
        (-(v as i128)) as u128
    } else {
        v as u128
    };
    let digits = dec_chars(mag0);
    let mut out: Vec<char> = Vec::new();
    if neg {
        out.push('-');
    }
    out.extend_from_slice(digits.as_slice());
    proof {
        if neg {
            assert(out@ =~= seq!['-'] + dec_digits((-(v as int)) as nat));
        } else {
            assert(out@ =~= dec_digits(v as nat));
        }
    }
    crate::cursor::string_from_chars(&out)
}

/// Prints an unsigned size in its canonical decimal form.
pub fn usize_to_string(v: usize) -> (r: String)
    ensures
        r@ == dec_digits(v as nat),
{
    let digits = dec_chars(v as u128);
    crate::cursor::string_from_chars(&digits)
}

} // verus!

use vstd::prelude::*;

verus! {

/// Addition on timestamps, clamped at the ends of the representable range
/// instead of wrapping: a deadline past the far end of time stays there.
pub open spec fn spec_sat_add_i64(a: i64, b: i64) -> i64 {
    if a + b > i64::MAX {
        i64::MAX
    } else if a + b < i64::MIN {
        i64::MIN
    } else {
        (a + b) as i64
    }
}

/// Clamped timestamp addition.
pub fn sat_add_i64(a: i64, b: i64) -> (r: i64)
    ensures
        r == spec_sat_add_i64(a, b),
{
    match a.checked_add(b) {
        Some(v) => v,
        None => if b > 0 {
            i64::MAX
        } else {
            i64::MIN
        },
    }
}

/// A decimal digit.
pub open spec fn is_digit_char(c: char) -> bool {
    48 <= c as int <= 57
}

/// The value of one decimal digit.
pub open spec fn digit_value(c: char) -> int {
    c as int - 48
}

/// Every character is a decimal digit.
pub open spec fn all_digits(s: Seq<char>) -> bool {
    forall|i: int| 0 <= i < s.len() ==> is_digit_char(s[i])
}

/// The integer a sequence of decimal digits denotes, most significant
/// first; the empty sequence denotes 0.
pub open spec fn digits_value(s: Seq<char>) -> int
    decreases s.len(),
{
    if s.len() == 0 {
        0
    } else {
        digits_value(s.drop_last()) * 10 + digit_value(s.last())
    }
}

/// A digit sequence denotes something non-negative.
pub proof fn lemma_digits_value_nonneg(s: Seq<char>)
    requires
        all_digits(s),
    ensures
        digits_value(s) >= 0,
    decreases s.len(),
{
    if s.len() > 0 {
        lemma_digits_value_nonneg(s.drop_last());
    }
}

/// Extending a digit sequence never shrinks its value.
pub proof fn lemma_digits_value_prefix(s: Seq<char>, k: int)
    requires
        all_digits(s),
        0 <= k <= s.len(),
    ensures
        digits_value(s) >= digits_value(s.subrange(0, k)),
    decreases s.len() - k,
{
    if k == s.len() {
        assert(s.subrange(0, k) =~= s);
    } else {
        lemma_digits_value_prefix(s, k + 1);
        let t = s.subrange(0, k + 1);
        assert(t.drop_last() =~= s.subrange(0, k));
        assert(all_digits(s.subrange(0, k)));
        lemma_digits_value_nonneg(s.subrange(0, k));
        assert(digits_value(t) == digits_value(s.subrange(0, k)) * 10 + digit_value(s[k]));
    }
}

/// What parsing a signed decimal integer comes to: an optional single
/// leading `+` or `-`, then at least one ASCII digit and nothing else, and
/// the denoted value must be representable. This is the acceptance rule of
/// std's integer parsing.
pub open spec fn spec_parse_i64(s: Seq<char>) -> Option<i64> {
    let digits = if s.len() > 0 && (s[0] == '+' || s[0] == '-') {
        s.drop_first()
    } else {
        s
    };
    let neg = s.len() > 0 && s[0] == '-';
    if digits.len() == 0 || !all_digits(digits) {
        None
    } else {
        let v = if neg {
            -digits_value(digits)
        } else {
            digits_value(digits)
        };
        if v < i64::MIN || v > i64::MAX {
            None
        } else {
            Some(v as i64)
        }
    }
}

/// The value a rate-limit header contributes: its decimal value when it
/// parses as an `i64`, and 0 on anything else.
pub open spec fn spec_parse_i64_or_zero(s: Seq<char>) -> i64 {
    match spec_parse_i64(s) {
        Some(v) => v,
        None => 0,
    }
}

/// Parses a decimal integer as std does, with 0 for anything that does not
/// parse: the defaulting read the rate-limit headers ask for.
pub fn parse_i64_or_zero(s: &str) -> (r: i64)
    ensures
        r == spec_parse_i64_or_zero(s@),
{
    let len = s.unicode_len();
    if len == 0 {
        return 0;
    }
    let first = s.get_char(0);
    let neg = first == '-';
    let has_sign = neg || first == '+';
    let start: usize = if has_sign {
        1
    } else {
        0
    };
    let ghost digits: Seq<char> = if has_sign {
        s@.drop_first()
    } else {
        s@
    };
    proof {
        assert(digits =~= s@.subrange(start as int, len as int));
    }
    if start == len {
        return 0;
    }
    let mut mag: u64 = 0;
    let mut i: usize = start;
    while i < len
        invariant
            len == s@.len(),
            0 < len,
            start <= i <= len,
            start < len,
            has_sign == (s@[0] == '+' || s@[0] == '-'),
            neg == (s@[0] == '-'),
            start == if has_sign {
                1int
            } else {
                0int
            },
            digits =~= s@.subrange(start as int, len as int),
            all_digits(s@.subrange(start as int, i as int)),
            mag as int == digits_value(s@.subrange(start as int, i as int)),
        decreases len - i,
    {
        let c = s.get_char(i);
        let cu = c as u32;
        if cu < 48 || cu > 57 {
            proof {
                assert(digits[i - start] == s@[i as int]);
                assert(!all_digits(digits));
            }
            return 0;
        }
        let d = (cu - 48) as u64;
        let ghost prefix = s@.subrange(start as int, i as int);
        let ghost prefix_ext = s@.subrange(start as int, i as int + 1);
        proof {
            assert(prefix_ext.drop_last() =~= prefix);
            assert(prefix_ext.last() == s@[i as int]);
            assert(digits_value(prefix_ext) == digits_value(prefix) * 10 + digit_value(
                s@[i as int],
            ));
        }
        let grown = match mag.checked_mul(10) {
            Some(m) => m.checked_add(d),
            None => None,
        };
        match grown {
            Some(m) => {
                mag = m;
            },
            None => {
                proof {
                    lemma_parse_overflow_is_zero(s@, digits, start as int, i as int + 1);
                }
                return 0;
            },
        }
        proof {
            assert(all_digits(prefix_ext));
        }
        i += 1;
    }
    proof {
        assert(s@.subrange(start as int, len as int) =~= digits);
        lemma_digits_value_nonneg(digits);
    }
    if neg {
        if mag > 9223372036854775808u64 {
            return 0;
        }
        if mag == 9223372036854775808u64 {
            return i64::MIN;
        }
        -(mag as i64)
    } else {
        if mag > 9223372036854775807u64 {
            return 0;
        }
        mag as i64
    }
}

/// Once some digit prefix already denotes more than `u64::MAX`, the whole
/// string cannot parse: whatever follows, the result defaults to 0.
proof fn lemma_parse_overflow_is_zero(s: Seq<char>, digits: Seq<char>, start: int, upto: int)
    requires
        0 <= start <= upto <= s.len(),
        start <= 1,
        digits =~= s.subrange(start, s.len() as int),
        all_digits(s.subrange(start, upto)),
        digits_value(s.subrange(start, upto)) > u64::MAX,
        start == 1 ==> s.len() > 0 && (s[0] == '+' || s[0] == '-'),
        start == 0 ==> s.len() == 0 || !(s[0] == '+' || s[0] == '-'),
    ensures
        spec_parse_i64(s) is None,
{
    if start == 1 {
        assert(s.drop_first() =~= s.subrange(1, s.len() as int));
    } else {
        assert(s =~= s.subrange(0, s.len() as int));
    }
    if all_digits(digits) {
        assert(s.subrange(start, upto) =~= digits.subrange(0, upto - start));
        lemma_digits_value_prefix(digits, upto - start);
        assert(digits_value(digits) > u64::MAX);
    }
}

/// The digit character of one decimal digit.
pub open spec fn spec_digit_char(d: int) -> char {
    if d == 0 {
        '0'
    } else if d == 1 {
        '1'
    } else if d == 2 {
        '2'
    } else if d == 3 {
        '3'
    } else if d == 4 {
        '4'
    } else if d == 5 {
        '5'
    } else if d == 6 {
        '6'
    } else if d == 7 {
        '7'
    } else if d == 8 {
        '8'
    } else {
        '9'
    }
}

/// The decimal writing of a non-negative integer, without sign or leading
/// zeros (a lone `0` for 0).
pub open spec fn spec_nat_digits(n: int) -> Seq<char>
    decreases n,
{
    if n < 10 {
        seq![spec_digit_char(n)]
    } else {
        spec_nat_digits(n / 10).push(spec_digit_char(n % 10))
    }
}

/// The decimal writing of an integer: a leading `-` for negatives.
pub open spec fn spec_i64_digits(n: int) -> Seq<char> {
    if n < 0 {
        seq!['-'] + spec_nat_digits(-n)
    } else {
        spec_nat_digits(n)
    }
}

/// The digit character of `d`.
fn digit_char(d: u64) -> (r: char)
    requires
        d < 10,
    ensures
        r == spec_digit_char(d as int),
{
    match d {
        0 => '0',
        1 => '1',
        2 => '2',
        3 => '3',
        4 => '4',
        5 => '5',
        6 => '6',
        7 => '7',
        8 => '8',
        _ => '9',
    }
}

/// Writes a non-negative integer in decimal.
pub fn u64_to_string(n: u64) -> (r: String)
    ensures
        r@ == spec_nat_digits(n as int),
    decreases n,
{
    let d = n % 10;
    let c = digit_char(d);
    if n < 10 {
        let mut s = String::new();
        crate::text::push_char(&mut s, c);
        proof {
            assert(s@ =~= seq![spec_digit_char(n as int)]);
        }
        s
    } else {
        let mut s = u64_to_string(n / 10);
        crate::text::push_char(&mut s, c);
        s
    }
}

/// Writes an integer in decimal, with a leading `-` when negative.
pub fn i64_to_string(n: i64) -> (r: String)
    ensures
        r@ == spec_i64_digits(n as int),
{
    if n >= 0 {
        u64_to_string(n as u64)
    } else {
        let mag: u64 = if n == i64::MIN {
            9223372036854775808u64
        } else {
            (-n) as u64
        };
        let mut s = String::new();
        crate::text::push_char(&mut s, '-');
        let ds = u64_to_string(mag);
        s.append(ds.as_str());
        proof {
            assert(s@ =~= seq!['-'] + spec_nat_digits(mag as int));
        }
        s
    }
}

} // verus!

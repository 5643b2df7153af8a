use vstd::prelude::*;

verus! {

/// Whether `c` is a decimal digit.
pub open spec fn is_dec_digit(c: char) -> bool {
    48 <= c as u32 <= 57
}

/// The numeric value of a decimal digit.
pub open spec fn digit_value(c: char) -> int {
    c as u32 - 48
}

/// Whether every character of `s` is a decimal digit.
pub open spec fn all_dec_digits(s: Seq<char>) -> bool {
    forall|i: int| 0 <= i < s.len() ==> is_dec_digit(#[trigger] s[i])
}

/// The value of a string of decimal digits, most significant first.
pub open spec fn digits_value(s: Seq<char>) -> int
    decreases s.len(),
{
    if s.len() == 0 {
        0
    } else {
        10 * digits_value(s.drop_last()) + digit_value(s.last())
    }
}

/// The digits of a candidate numeric id: the whole string, or the rest
/// of it after a single leading `+` sign.
pub open spec fn spec_digits(s: Seq<char>) -> Seq<char> {
    if s.len() > 0 && s[0] == '+' {
        s.subrange(1, s.len() as int)
    } else {
        s
    }
}

/// What parsing a non-negative numeric id from `s` yields: the value of
/// its decimal digits, after an optional leading `+` sign, provided at
/// least one digit is present and the value fits in 32 bits.
pub open spec fn spec_parse_u32(s: Seq<char>) -> Option<u32> {
    let digits = spec_digits(s);
    if digits.len() > 0 && all_dec_digits(digits) && digits_value(digits) <= u32::MAX {
        Some(digits_value(digits) as u32)
    } else {
        None
    }
}

/// A digit string has a non-negative value.
proof fn lemma_digits_value_nonneg(s: Seq<char>)
    requires
        all_dec_digits(s),
    ensures
        digits_value(s) >= 0,
    decreases s.len(),
{
    if s.len() > 0 {
        assert(all_dec_digits(s.drop_last()));
        lemma_digits_value_nonneg(s.drop_last());
    }
}

/// Extending a digit string by one digit cannot shrink its value.
proof fn lemma_digits_value_step(s: Seq<char>, k: int)
    requires
        all_dec_digits(s.subrange(0, k + 1)),
        0 <= k < s.len(),
    ensures
        digits_value(s.subrange(0, k + 1)) >= digits_value(s.subrange(0, k)),
        digits_value(s.subrange(0, k + 1)) == 10 * digits_value(s.subrange(0, k)) + digit_value(
            s[k],
        ),
{
    let p = s.subrange(0, k + 1);
    assert(p.drop_last() =~= s.subrange(0, k));
    assert(all_dec_digits(s.subrange(0, k))) by {
        assert(forall|j: int| 0 <= j < k ==> s.subrange(0, k)[j] == #[trigger] p[j]);
    }
    lemma_digits_value_nonneg(s.subrange(0, k));
    assert(s[k] == p[k]);
}

/// The value of a digit string is at least the value of any of its
/// prefixes.
proof fn lemma_digits_value_prefix(s: Seq<char>, k: int)
    requires
        all_dec_digits(s),
        0 <= k <= s.len(),
    ensures
        digits_value(s) >= digits_value(s.subrange(0, k)),
    decreases s.len() - k,
{
    if k == s.len() {
        assert(s.subrange(0, k) =~= s);
    } else {
        assert(all_dec_digits(s.subrange(0, k + 1))) by {
            assert(forall|j: int| 0 <= j < k + 1 ==> s.subrange(0, k + 1)[j] == #[trigger] s[j]);
        }
        lemma_digits_value_step(s, k);
        lemma_digits_value_prefix(s, k + 1);
    }
}

/// Parse `s` as a non-negative 32-bit numeric id: an optional leading
/// `+` sign followed by one or more decimal digits.  Returns `None` on
/// an empty digit string, a non-digit character, or a value that does
/// not fit in 32 bits.
pub fn parse_numeric_id(s: &str) -> (r: Option<u32>)
    ensures
        r == spec_parse_u32(s@),
{
    let n = s.unicode_len();
    let start: usize = if n > 0 && s.get_char(0) == '+' {
        1
    } else {
        0
    };
    let ghost digits = spec_digits(s@);
    proof {
        assert(digits =~= s@.subrange(start as int, n as int));
    }
    if start >= n {
        return None;
    }
    let mut acc: u32 = 0;
    let mut i: usize = start;
    while i < n
        invariant
            start <= i <= n,
            n == s@.len(),
            digits == spec_digits(s@),
            digits == s@.subrange(start as int, n as int),
            all_dec_digits(digits.subrange(0, i - start)),
            acc == digits_value(digits.subrange(0, i - start)),
        decreases n - i,
    {
        let c = s.get_char(i);
        let cv = c as u32;
        if cv < 48 || cv > 57 {
            proof {
                assert(digits[i - start] == s@[i as int]);
                assert(!is_dec_digit(digits[i - start]));
            }
            return None;
        }
        let d: u32 = cv - 48;
        proof {
            assert(digits[i - start] == s@[i as int]);
            assert(is_dec_digit(digits[i - start]));
            assert(all_dec_digits(digits.subrange(0, i + 1 - start)));
            lemma_digits_value_step(digits, i - start);
        }
        let wide = match acc.checked_mul(10) {
            Some(w) => w,
            None => {
                proof {
                    if all_dec_digits(digits) {
                        lemma_digits_value_prefix(digits, i + 1 - start);
                    }
                }
                return None;
            },
        };
        acc = match wide.checked_add(d) {
            Some(a) => a,
            None => {
                proof {
                    if all_dec_digits(digits) {
                        lemma_digits_value_prefix(digits, i + 1 - start);
                    }
                }
                return None;
            },
        };
        i = i + 1;
    }
    proof {
        assert(digits.subrange(0, n - start) =~= digits);
    }
    Some(acc)
}

} // verus!

//! Parsing of unsigned numbers written in a radix, as task fields spell them:
//! permission modes as octal strings, user and group ids as decimal strings.
//!
//! A number is an optional leading `+` followed by one or more digits of the
//! radix; anything else, and any value above `u32::MAX`, is rejected.

use vstd::prelude::*;

verus! {

/// True when `c` is a digit of the given radix (radix at most 10).
pub open spec fn is_radix_digit(c: char, radix: u32) -> bool {
    ('0' as int) <= (c as int) && (c as int) < ('0' as int) + radix
}

/// Value of a digit character.
pub open spec fn digit_val(c: char) -> int {
    c as int - '0' as int
}

/// Value of a digit sequence read most-significant first.
pub open spec fn digits_val(s: Seq<char>, radix: u32) -> int
    decreases s.len(),
{
    if s.len() == 0 {
        0
    } else {
        digits_val(s.drop_last(), radix) * radix + digit_val(s.last())
    }
}

/// True when every character of `s` is a digit of the radix.
pub open spec fn all_radix_digits(s: Seq<char>, radix: u32) -> bool {
    forall|i: int| 0 <= i < s.len() ==> is_radix_digit(s[i], radix)
}

/// The digits of a written number: what follows an optional leading `+`.
pub open spec fn number_body(s: Seq<char>) -> Seq<char> {
    if s.len() > 0 && s[0] == '+' {
        s.drop_first()
    } else {
        s
    }
}

/// True when `s` is an optional `+` followed by at least one radix digit.
pub open spec fn is_valid_number(s: Seq<char>, radix: u32) -> bool {
    number_body(s).len() > 0 && all_radix_digits(number_body(s), radix)
}

/// The numeric value of a validly written number.
pub open spec fn number_val(s: Seq<char>, radix: u32) -> int {
    digits_val(number_body(s), radix)
}

proof fn lemma_digits_val_nonneg(s: Seq<char>, radix: u32)
    requires
        all_radix_digits(s, radix),
    ensures
        digits_val(s, radix) >= 0,
    decreases s.len(),
{
    if s.len() > 0 {
        assert(all_radix_digits(s.drop_last(), radix));
        lemma_digits_val_nonneg(s.drop_last(), radix);
        let h = digits_val(s.drop_last(), radix);
        assert(h * radix >= 0) by (nonlinear_arith)
            requires
                h >= 0,
                radix >= 0,
        ;
    }
}

proof fn lemma_digits_val_prefix_le(s: Seq<char>, radix: u32, k: int)
    requires
        all_radix_digits(s, radix),
        radix >= 1,
        0 <= k <= s.len(),
    ensures
        digits_val(s.take(k), radix) <= digits_val(s, radix),
    decreases s.len() - k,
{
    if k < s.len() {
        lemma_digits_val_prefix_le(s, radix, k + 1);
        let t = s.take(k + 1);
        assert(t.drop_last() =~= s.take(k));
        assert(t.last() == s[k]);
        let h = digits_val(s.take(k), radix);
        assert(all_radix_digits(s.take(k), radix));
        lemma_digits_val_nonneg(s.take(k), radix);
        assert(h * radix >= h) by (nonlinear_arith)
            requires
                h >= 0,
                radix >= 1,
        ;
        assert(digits_val(t, radix) == h * radix + digit_val(s[k]));
        assert(digit_val(s[k]) >= 0);
    } else {
        assert(s.take(k) =~= s);
    }
}

/// Parses `s` as an unsigned number in the given radix, as a permission mode
/// or identity field of a task is written. Returns the value exactly when `s`
/// is a well-formed number that fits in a `u32`.
pub fn parse_u32_radix(s: &str, radix: u32) -> (r: Option<u32>)
    requires
        radix == 8 || radix == 10,
    ensures
        r is Some <==> is_valid_number(s@, radix) && number_val(s@, radix) <= u32::MAX,
        r matches Some(v) ==> v == number_val(s@, radix),
{
    let n = s.unicode_len();
    if n == 0 {
        return None;
    }
    let start: usize = if s.get_char(0) == '+' {
        1
    } else {
        0
    };
    proof {
        assert(number_body(s@) =~= s@.skip(start as int));
    }
    if start == n {
        return None;
    }
    let mut acc: u64 = 0;
    let mut i: usize = start;
    while i < n
        invariant
            radix == 8 || radix == 10,
            start <= i <= n,
            n == s@.len(),
            start < n,
            number_body(s@) =~= s@.skip(start as int),
            forall|k: int| start <= k < i ==> is_radix_digit(s@[k], radix),
            acc == digits_val(s@.subrange(start as int, i as int), radix),
            acc <= u32::MAX,
        decreases n - i,
    {
        let c = s.get_char(i);
        let cv = c as u32;
        if cv < 48 || cv >= 48 + radix {
            proof {
                assert(!is_radix_digit(s@[i as int], radix));
                assert(!is_valid_number(s@, radix)) by {
                    if is_valid_number(s@, radix) {
                        assert(is_radix_digit(number_body(s@)[i - start], radix));
                    }
                }
            }
            return None;
        }
        let d: u64 = (cv - 48) as u64;
        proof {
            assert(acc * (radix as u64) + d <= 42949672959u64) by (nonlinear_arith)
                requires
                    acc <= u32::MAX,
                    radix <= 10,
                    d < 10,
            ;
        }
        acc = acc * (radix as u64) + d;
        proof {
            let pre = s@.subrange(start as int, i as int);
            let cur = s@.subrange(start as int, i + 1);
            assert(cur.drop_last() =~= pre);
            assert(cur.last() == s@[i as int]);
        }
        i += 1;
        if acc > 0xffff_ffffu64 {
            proof {
                let body = number_body(s@);
                if is_valid_number(s@, radix) {
                    let pre = s@.subrange(start as int, i as int);
                    assert(pre =~= body.take(i - start));
                    lemma_digits_val_prefix_le(body, radix, i - start);
                    assert(number_val(s@, radix) >= acc);
                }
            }
            return None;
        }
    }
    proof {
        assert(s@.subrange(start as int, n as int) =~= number_body(s@));
        assert(is_valid_number(s@, radix));
    }
    Some(acc as u32)
}

} // verus!

//! Verified text primitives for the console: whitespace tokenization of a
//! command line, decimal integer parsing for typed arguments, and decimal
//! rendering for the metric labels.

use vstd::prelude::*;

verus! {

/// A character that separates tokens in a command line.
pub open spec fn is_blank(c: char) -> bool {
    c == ' ' || c == '\t'
}

/// First position at or after `i` that ends a token: the index of the next
/// blank character, or the end of the sequence.
pub open spec fn token_end(s: Seq<char>, i: int) -> int
    decreases s.len() - i,
{
    if i < 0 || i >= s.len() || is_blank(s[i]) {
        i
    } else {
        token_end(s, i + 1)
    }
}

pub proof fn lemma_token_end_bounds(s: Seq<char>, i: int)
    requires
        0 <= i <= s.len(),
    ensures
        i <= token_end(s, i) <= s.len(),
        forall|k: int| i <= k < token_end(s, i) ==> !is_blank(s[k]),
        token_end(s, i) < s.len() ==> is_blank(s[token_end(s, i)]),
    decreases s.len() - i,
{
    if i < s.len() && !is_blank(s[i]) {
        lemma_token_end_bounds(s, i + 1);
    }
}

/// A run of non-blank characters ends at the same place wherever inside the
/// run the scan starts.
pub proof fn lemma_token_end_stable(s: Seq<char>, i: int, j: int)
    requires
        0 <= i <= j <= s.len(),
        forall|k: int| i <= k < j ==> !is_blank(s[k]),
    ensures
        token_end(s, i) == token_end(s, j),
    decreases j - i,
{
    if i < j {
        lemma_token_end_stable(s, i + 1, j);
    }
}

/// The whitespace-separated tokens of `s`, scanning from position `i` on.
pub open spec fn tokens_from(s: Seq<char>, i: int) -> Seq<Seq<char>>
    decreases s.len() - i,
        via tokens_from_decreases
{
    if i < 0 || i >= s.len() {
        seq![]
    } else if is_blank(s[i]) {
        tokens_from(s, i + 1)
    } else {
        seq![s.subrange(i, token_end(s, i))] + tokens_from(s, token_end(s, i))
    }
}

#[via_fn]
proof fn tokens_from_decreases(s: Seq<char>, i: int) {
    if 0 <= i < s.len() && !is_blank(s[i]) {
        lemma_token_end_bounds(s, i);
    }
}

/// The tokens of a whole command line.
pub open spec fn tokens_of(s: Seq<char>) -> Seq<Seq<char>> {
    tokens_from(s, 0)
}

/// Whether position `i` of `s` holds a blank character.
fn blank_at(s: &str, i: usize) -> (r: bool)
    requires
        i < s@.len(),
    ensures
        r == is_blank(s@[i as int]),
{
    let c = s.get_char(i);
    c == ' ' || c == '\t'
}

/// Splits a command line into its whitespace-separated tokens, in order.
pub fn tokenize(s: &str) -> (tokens: Vec<String>)
    ensures
        tokens.deep_view() == tokens_of(s@),
{
    let n = s.unicode_len();
    let mut tokens: Vec<String> = Vec::new();
    let mut i: usize = 0;
    while i < n
        invariant
            n == s@.len(),
            i <= n,
            tokens_of(s@) == tokens.deep_view() + tokens_from(s@, i as int),
        decreases n - i,
    {
        if blank_at(s, i) {
            i = i + 1;
        } else {
            let ghost start = i as int;
            let mut j: usize = i + 1;
            while j < n && !blank_at(s, j)
                invariant
                    n == s@.len(),
                    start + 1 <= j <= n,
                    start == i,
                    i < n,
                    forall|k: int| start <= k < j ==> !is_blank(s@[k]),
                decreases n - j,
            {
                j = j + 1;
            }
            proof {
                lemma_token_end_stable(s@, start, j as int);
                assert(token_end(s@, start) == j as int);
            }
            let tok = s.substring_char(i, j).to_owned();
            let ghost prior = tokens.deep_view();
            tokens.push(tok);
            proof {
                assert(tokens.deep_view() =~= prior.push(tok@));
                assert(tokens_from(s@, start) == seq![s@.subrange(start, j as int)]
                    + tokens_from(s@, j as int));
                assert(tokens.deep_view() + tokens_from(s@, j as int) =~= prior + tokens_from(
                    s@,
                    start,
                ));
            }
            i = j;
        }
    }
    proof {
        assert(tokens_of(s@) =~= tokens.deep_view());
    }
    tokens
}

/// Whether `prefix` is a (character-wise) prefix of `s`.
pub fn str_has_prefix(s: &str, prefix: &str) -> (r: bool)
    ensures
        r == prefix@.is_prefix_of(s@),
{
    let p_len = prefix.unicode_len();
    let s_len = s.unicode_len();
    if p_len > s_len {
        return false;
    }
    let mut i: usize = 0;
    while i < p_len
        invariant
            p_len == prefix@.len(),
            s_len == s@.len(),
            p_len <= s_len,
            i <= p_len,
            forall|k: int| 0 <= k < i ==> prefix@[k] == s@[k],
        decreases p_len - i,
    {
        if prefix.get_char(i) != s.get_char(i) {
            proof {
                assert(s@.subrange(0, p_len as int)[i as int] == s@[i as int]);
            }
            return false;
        }
        i = i + 1;
    }
    proof {
        assert(prefix@ =~= s@.subrange(0, p_len as int));
    }
    true
}

/// Two strings hold the same characters.
pub fn str_eq(s: &str, t: &str) -> (r: bool)
    ensures
        r == (s@ == t@),
{
    let s_len = s.unicode_len();
    let t_len = t.unicode_len();
    if s_len != t_len {
        return false;
    }
    let mut i: usize = 0;
    while i < s_len
        invariant
            s_len == s@.len(),
            t_len == t@.len(),
            s_len == t_len,
            i <= s_len,
            forall|k: int| 0 <= k < i ==> s@[k] == t@[k],
        decreases s_len - i,
    {
        if s.get_char(i) != t.get_char(i) {
            return false;
        }
        i = i + 1;
    }
    proof {
        assert(s@ =~= t@);
    }
    true
}

/// A decimal digit character.
pub open spec fn is_digit(c: char) -> bool {
    '0' as int <= c as int <= '9' as int
}

/// The numeric value of a decimal digit character.
pub open spec fn digit_val(c: char) -> int {
    c as int - '0' as int
}

/// Every character of `s` is a decimal digit.
pub open spec fn all_digits(s: Seq<char>) -> bool {
    forall|k: int| 0 <= k < s.len() ==> is_digit(#[trigger] s[k])
}

/// The number denoted by a sequence of decimal digits, most significant first.
pub open spec fn dec_value(s: Seq<char>) -> int
    decreases s.len(),
{
    if s.len() == 0 {
        0
    } else {
        dec_value(s.drop_last()) * 10 + digit_val(s.last())
    }
}

pub proof fn lemma_dec_value_nonneg(s: Seq<char>)
    requires
        all_digits(s),
    ensures
        dec_value(s) >= 0,
    decreases s.len(),
{
    if s.len() > 0 {
        assert(all_digits(s.drop_last()));
        lemma_dec_value_nonneg(s.drop_last());
    }
}

/// A digit string denotes at least as much as any of its prefixes.
pub proof fn lemma_dec_value_prefix(s: Seq<char>, k: int)
    requires
        all_digits(s),
        0 <= k <= s.len(),
    ensures
        dec_value(s) >= dec_value(s.take(k)),
    decreases s.len() - k,
{
    if k < s.len() {
        lemma_dec_value_prefix(s, k + 1);
        assert(s.take(k + 1).drop_last() =~= s.take(k));
        assert(s.take(k + 1).last() == s[k]);
        assert(all_digits(s.take(k)));
        lemma_dec_value_nonneg(s.take(k));
    } else {
        assert(s.take(k) =~= s);
    }
}

/// Whether position `i` of `s` holds a digit, and which.
fn digit_at(s: &str, i: usize) -> (r: Option<u64>)
    requires
        i < s@.len(),
    ensures
        match r {
            Some(d) => is_digit(s@[i as int]) && d == digit_val(s@[i as int]),
            None => !is_digit(s@[i as int]),
        },
{
    let c = s.get_char(i);
    if '0' <= c && c <= '9' {
        Some((c as u32 - '0' as u32) as u64)
    } else {
        None
    }
}

/// Parses a whole string of decimal digits into a `u64`.
///
/// Returns `Some` exactly when the string is non-empty, consists of digits
/// alone, and its value fits in a `u64`.
pub fn parse_u64(s: &str) -> (r: Option<u64>)
    ensures
        match r {
            Some(v) => s@.len() > 0 && all_digits(s@) && v == dec_value(s@),
            None => s@.len() == 0 || !all_digits(s@) || dec_value(s@) > u64::MAX,
        },
{
    let n = s.unicode_len();
    if n == 0 {
        return None;
    }
    let mut acc: u64 = 0;
    let mut i: usize = 0;
    while i < n
        invariant
            n == s@.len(),
            i <= n,
            all_digits(s@.take(i as int)),
            acc == dec_value(s@.take(i as int)),
        decreases n - i,
    {
        match digit_at(s, i) {
            None => {
                return None;
            },
            Some(d) => {
                if acc > (u64::MAX - d) / 10 {
                    proof {
                        assert(s@.take(i as int + 1).drop_last() =~= s@.take(i as int));
                        assert(acc as int * 10 + d as int > u64::MAX as int) by {
                            let w = (u64::MAX - d) as int;
                            assert((w / 10) * 10 + w % 10 == w);
                        };
                        assert(dec_value(s@.take(i as int + 1)) > u64::MAX);
                        if all_digits(s@) {
                            lemma_dec_value_prefix(s@, i as int + 1);
                        }
                    }
                    return None;
                }
                proof {
                    assert(s@.take(i as int + 1).drop_last() =~= s@.take(i as int));
                }
                acc = acc * 10 + d;
                i = i + 1;
            },
        }
    }
    proof {
        assert(s@.take(n as int) =~= s@);
    }
    Some(acc)
}

/// The character for one decimal digit.
pub open spec fn digit_char(d: int) -> char {
    if d == 0 {
        '0'
    } else if d == 1 {
        '1'
    } else if d == 2 {
        '2'
    } else if d == 3 {
        '3'
    } else if d == 4 {
        '4'
    } else if d == 5 {
        '5'
    } else if d == 6 {
        '6'
    } else if d == 7 {
        '7'
    } else if d == 8 {
        '8'
    } else {
        '9'
    }
}

/// The decimal rendering of a non-negative number, most significant digit
/// first, with no leading zeros (a lone zero for 0).
pub open spec fn dec_rep(n: int) -> Seq<char>
    decreases n,
{
    if n < 10 {
        seq![digit_char(n)]
    } else {
        dec_rep(n / 10).push(digit_char(n % 10))
    }
}

/// The decimal digits of `ds` read back to front, as characters.
spec fn rev_digit_chars(ds: Seq<u64>) -> Seq<char> {
    Seq::new(ds.len(), |i: int| digit_char(ds[ds.len() - 1 - i] as int))
}

/// The string literal for one decimal digit.
fn digit_str(d: u64) -> (r: &'static str)
    requires
        d < 10,
    ensures
        r@ =~= seq![digit_char(d as int)],
{
    if d == 0 {
        proof {
            reveal_strlit("0");
        }
        "0"
    } else if d == 1 {
        proof {
            reveal_strlit("1");
        }
        "1"
    } else if d == 2 {
        proof {
            reveal_strlit("2");
        }
        "2"
    } else if d == 3 {
        proof {
            reveal_strlit("3");
        }
        "3"
    } else if d == 4 {
        proof {
            reveal_strlit("4");
        }
        "4"
    } else if d == 5 {
        proof {
            reveal_strlit("5");
        }
        "5"
    } else if d == 6 {
        proof {
            reveal_strlit("6");
        }
        "6"
    } else if d == 7 {
        proof {
            reveal_strlit("7");
        }
        "7"
    } else if d == 8 {
        proof {
            reveal_strlit("8");
        }
        "8"
    } else {
        proof {
            reveal_strlit("9");
        }
        "9"
    }
}

/// Renders a `u64` in decimal.
pub fn u64_to_string(n: u64) -> (s: String)
    ensures
        s@ == dec_rep(n as int),
{
    let mut digits: Vec<u64> = Vec::new();
    let mut m = n;
    loop
        invariant_except_break
            digits@.len() == 0 ==> m == n,
            digits@.len() > 0 ==> m > 0 && dec_rep(n as int) =~= dec_rep(m as int)
                + rev_digit_chars(digits@),
        invariant
            forall|k: int| 0 <= k < digits@.len() ==> #[trigger] digits@[k] < 10,
        ensures
            digits@.len() > 0,
            dec_rep(n as int) == rev_digit_chars(digits@),
        decreases m,
    {
        let d = m % 10;
        let ghost prior = digits@;
        digits.push(d);
        proof {
            let mo = m as int;
            if prior.len() == 0 {
                assert(dec_rep(n as int) =~= dec_rep(mo) + rev_digit_chars(prior));
            }
            if mo >= 10 {
                assert(dec_rep(mo) == dec_rep(mo / 10).push(digit_char(mo % 10)));
                assert(dec_rep(mo) + rev_digit_chars(prior) =~= dec_rep(mo / 10)
                    + rev_digit_chars(digits@));
                assert(dec_rep(n as int) =~= dec_rep(mo / 10) + rev_digit_chars(digits@));
            } else {
                assert(dec_rep(mo) =~= seq![digit_char(mo)]);
                assert(dec_rep(mo) + rev_digit_chars(prior) =~= rev_digit_chars(digits@));
                assert(dec_rep(n as int) =~= rev_digit_chars(digits@));
            }
        }
        m = m / 10;
        if m == 0 {
            break;
        }
    }
    let mut s = String::new();
    let len = digits.len();
    let mut i: usize = 0;
    while i < len
        invariant
            len == digits@.len(),
            i <= len,
            forall|k: int| 0 <= k < digits@.len() ==> #[trigger] digits@[k] < 10,
            s@ =~= rev_digit_chars(digits@).take(i as int),
        decreases len - i,
    {
        let d = digits[len - 1 - i];
        s.append(digit_str(d));
        proof {
            assert(s@ =~= rev_digit_chars(digits@).take(i as int + 1));
        }
        i = i + 1;
    }
    proof {
        assert(rev_digit_chars(digits@).take(len as int) =~= rev_digit_chars(digits@));
    }
    s
}

} // verus!

//! Splitting text into whitespace-separated words and reading the numbers
//! and booleans that std's `FromStr` accepts.

use vstd::prelude::*;

use crate::text::{ascii_lower_seq, is_space, space};

verus! {

/// Whether `s` ends inside a word.
pub open spec fn ends_in_word(s: Seq<char>) -> bool {
    s.len() > 0 && !is_space(s.last())
}

/// The words of `s`: its maximal runs of non-whitespace characters, as
/// `str::split_whitespace` yields them.
pub open spec fn words(s: Seq<char>) -> Seq<Seq<char>>
    decreases s.len(),
{
    if s.len() == 0 {
        Seq::empty()
    } else {
        let prev = words(s.drop_last());
        let c = s.last();
        if is_space(c) {
            prev
        } else if ends_in_word(s.drop_last()) {
            prev.update(prev.len() - 1, prev.last().push(c))
        } else {
            prev.push(seq![c])
        }
    }
}

proof fn lemma_words_nonempty_in_word(s: Seq<char>)
    requires
        ends_in_word(s),
    ensures
        words(s).len() >= 1,
    decreases s.len(),
{
    if ends_in_word(s.drop_last()) {
        lemma_words_nonempty_in_word(s.drop_last());
    }
}

/// The whitespace-separated words of `s`.
pub fn split_words(s: &Vec<char>) -> (result: Vec<Vec<char>>)
    ensures
        result@.map_values(|w: Vec<char>| w@) == words(s@),
{
    let mut result: Vec<Vec<char>> = Vec::new();
    let mut current: Vec<char> = Vec::new();
    let mut i: usize = 0;
    while i < s.len()
        invariant
            i <= s.len(),
            ends_in_word(s@.take(i as int)) ==> current@.len() > 0 && result@.map_values(
                |w: Vec<char>| w@,
            ).push(current@) == words(s@.take(i as int)),
            !ends_in_word(s@.take(i as int)) ==> current@.len() == 0 && result@.map_values(
                |w: Vec<char>| w@,
            ) == words(s@.take(i as int)),
        decreases s.len() - i,
    {
        let ghost prefix = s@.take(i as int);
        let ghost done = result@.map_values(|w: Vec<char>| w@);
        proof {
            assert(s@.take(i as int + 1).drop_last() == prefix);
            assert(s@.take(i as int + 1).last() == s@[i as int]);
            if ends_in_word(prefix) {
                lemma_words_nonempty_in_word(prefix);
            }
        }
        if space(s[i]) {
            if current.len() > 0 {
                let word = current;
                result.push(word);
                current = Vec::new();
                assert(result@.map_values(|w: Vec<char>| w@) =~= done.push(word@));
            }
        } else {
            current.push(s[i]);
            proof {
                if ends_in_word(prefix) {
                    assert(done.push(current@) =~= words(prefix).update(
                        words(prefix).len() - 1,
                        words(prefix).last().push(s@[i as int]),
                    ));
                } else {
                    assert(current@ =~= seq![s@[i as int]]);
                }
            }
        }
        i = i + 1;
    }
    assert(s@.take(s.len() as int) == s@);
    if current.len() > 0 {
        let word = current;
        result.push(word);
    }
    assert(result@.map_values(|w: Vec<char>| w@) =~= words(s@));
    result
}

/// Whether `c` is an ASCII digit.
pub open spec fn is_digit(c: char) -> bool {
    '0' <= c && c <= '9'
}

/// Whether every character of `s` is an ASCII digit.
pub open spec fn all_digits(s: Seq<char>) -> bool {
    forall|i: int| 0 <= i < s.len() ==> is_digit(#[trigger] s[i])
}

/// The value of the decimal digits `s`.
pub open spec fn digits_value(s: Seq<char>) -> nat
    decreases s.len(),
{
    if s.len() == 0 {
        0
    } else {
        digits_value(s.drop_last()) * 10 + ((s.last() as u32) - ('0' as u32)) as nat
    }
}

/// The value `u64::from_str` reads from `s`: an optional `+`, then one or more
/// ASCII digits, of a value that fits in 64 bits.
pub open spec fn u64_text(s: Seq<char>) -> Option<u64> {
    let digits = if s.len() > 0 && s[0] == '+' {
        s.drop_first()
    } else {
        s
    };
    if digits.len() > 0 && all_digits(digits) && digits_value(digits) <= u64::MAX {
        Some(digits_value(digits) as u64)
    } else {
        None
    }
}

proof fn lemma_digits_value_grows(s: Seq<char>, k: int)
    requires
        0 <= k <= s.len(),
        all_digits(s),
    ensures
        digits_value(s.take(k)) <= digits_value(s),
    decreases s.len() - k,
{
    if k < s.len() {
        assert(s.take(k + 1).drop_last() == s.take(k));
        assert(is_digit(s[k]));
        lemma_digits_value_grows(s, k + 1);
    } else {
        assert(s.take(k) == s);
    }
}

/// `u64::from_str` on characters.
pub fn parse_u64(s: &Vec<char>) -> (value: Option<u64>)
    ensures
        value == u64_text(s@),
{
    let start: usize = if s.len() > 0 && s[0] == '+' {
        1
    } else {
        0
    };
    let ghost digits = if s@.len() > 0 && s@[0] == '+' {
        s@.drop_first()
    } else {
        s@
    };
    assert(digits == s@.skip(start as int));
    if start == s.len() {
        return None;
    }
    let mut value: u64 = 0;
    let mut i: usize = start;
    while i < s.len()
        invariant
            start <= i <= s.len(),
            digits == s@.skip(start as int),
            digits == (if s@.len() > 0 && s@[0] == '+' {
                s@.drop_first()
            } else {
                s@
            }),
            all_digits(digits.take(i - start)),
            value == digits_value(digits.take(i - start)),
        decreases s.len() - i,
    {
        let c = s[i];
        proof {
            assert(digits.take(i - start + 1).drop_last() == digits.take(i - start));
            assert(digits[i - start] == c);
        }
        if !('0' <= c && c <= '9') {
            assert(!is_digit(digits[i - start]));
            assert(!all_digits(digits));
            return None;
        }
        let d: u64 = (c as u32 - '0' as u32) as u64;
        assert(all_digits(digits.take(i - start + 1)));
        assert(digits_value(digits.take(i - start + 1)) == value * 10 + d);
        match value.checked_mul(10) {
            Some(m) => match m.checked_add(d) {
                Some(v) => {
                    value = v;
                },
                None => {
                    proof {
                        assert(all_digits(digits.take(i - start + 1)));
                        if all_digits(digits) {
                            lemma_digits_value_grows(digits, i - start + 1);
                        }
                    }
                    return None;
                },
            },
            None => {
                proof {
                    assert(all_digits(digits.take(i - start + 1)));
                    if all_digits(digits) {
                        lemma_digits_value_grows(digits, i - start + 1);
                    }
                }
                return None;
            },
        }
        i = i + 1;
    }
    assert(digits.take(i - start) == digits);
    Some(value)
}

/// The value `bool::from_str` reads from `s`: exactly `true` or `false`.
pub open spec fn bool_text(s: Seq<char>) -> Option<bool> {
    if s == "true"@ {
        Some(true)
    } else if s == "false"@ {
        Some(false)
    } else {
        None
    }
}

/// Only `true` and `false` are booleans, and each is its own value.
pub proof fn lemma_bool_words(s: Seq<char>)
    ensures
        bool_text("true"@) == Some(true),
        bool_text("false"@) == Some(false),
        bool_text(s) is Some ==> s == "true"@ || s == "false"@,
{
    reveal_strlit("true");
    reveal_strlit("false");
    assert("true"@.len() == 4);
    assert("false"@.len() == 5);
}

/// `bool::from_str` on characters.
pub fn parse_bool(s: &Vec<char>) -> (value: Option<bool>)
    ensures
        value == bool_text(s@),
{
    if crate::text::is_word(s, "true") {
        Some(true)
    } else if crate::text::is_word(s, "false") {
        Some(false)
    } else {
        None
    }
}

/// `s` without one leading `+` or `-`.
pub open spec fn unsigned_part(s: Seq<char>) -> Seq<char> {
    if s.len() > 0 && (s[0] == '+' || s[0] == '-') {
        s.drop_first()
    } else {
        s
    }
}

/// Whether `m` is a decimal mantissa: digits with at most one `.`, at least
/// one digit in all (`12`, `12.`, `1.5`, `.5`).
pub open spec fn is_mantissa(m: Seq<char>) -> bool {
    (m.len() > 0 && all_digits(m)) || exists|k: int|
        0 <= k < m.len() && m[k] == '.' && all_digits(m.take(k)) && all_digits(#[trigger] m.skip(k + 1))
            && m.len() > 1
}

/// Whether `t` (lowercase, unsigned) is a decimal number, with an optional
/// exponent `e` followed by an optional sign and digits.
pub open spec fn is_decimal(t: Seq<char>) -> bool {
    if t.contains('e') {
        let k = choose|k: int| 0 <= k < t.len() && t[k] == 'e' && forall|j: int| 0 <= j < k ==> t[j] != 'e';
        is_mantissa(t.take(k)) && unsigned_part(t.skip(k + 1)).len() > 0 && all_digits(
            unsigned_part(t.skip(k + 1)),
        )
    } else {
        is_mantissa(t)
    }
}

/// Whether `f32::from_str` accepts `s`: by std's documented grammar, an
/// optional sign followed by `inf`, `infinity`, `nan` (any case) or a decimal
/// number with an optional exponent.
pub open spec fn is_float_text(s: Seq<char>) -> bool {
    let t = unsigned_part(ascii_lower_seq(s));
    t == "inf"@ || t == "infinity"@ || t == "nan"@ || is_decimal(t)
}

fn all_digits_in(s: &Vec<char>, start: usize, end: usize) -> (r: bool)
    requires
        start <= end <= s@.len(),
    ensures
        r == all_digits(s@.subrange(start as int, end as int)),
{
    let mut i: usize = start;
    while i < end
        invariant
            start <= i <= end,
            end <= s@.len(),
            forall|j: int| start <= j < i ==> is_digit(#[trigger] s@[j]),
        decreases end - i,
    {
        if !('0' <= s[i] && s[i] <= '9') {
            assert(!is_digit(s@.subrange(start as int, end as int)[i - start]));
            return false;
        }
        i = i + 1;
    }
    assert forall|j: int| 0 <= j < end - start implies is_digit(#[trigger] s@.subrange(start as int, end as int)[j]) by {
        assert(s@.subrange(start as int, end as int)[j] == s@[start + j]);
    }
    true
}

fn mantissa_ok(m: &Vec<char>) -> (r: bool)
    ensures
        r == is_mantissa(m@),
{
    let mut dot: usize = m.len();
    let mut i: usize = 0;
    while i < m.len()
        invariant
            i <= m.len(),
            dot <= m.len(),
            dot == m.len() ==> forall|j: int| 0 <= j < i ==> m@[j] != '.',
            dot < m.len() ==> dot < i && m@[dot as int] == '.' && forall|j: int| 0 <= j < dot ==> m@[j] != '.',
        decreases m.len() - i,
    {
        if dot == m.len() && m[i] == '.' {
            dot = i;
        }
        i = i + 1;
    }
    assert(m@.subrange(0, m@.len() as int) == m@);
    if dot == m.len() {
        let r = m.len() > 0 && all_digits_in(m, 0, m.len());
        proof {
            if !r && is_mantissa(m@) && !(m@.len() > 0 && all_digits(m@)) {
                let k = choose|k: int| 0 <= k < m@.len() && m@[k] == '.' && all_digits(m@.take(k))
                    && all_digits(#[trigger] m@.skip(k + 1)) && m@.len() > 1;
                assert(m@[k] != '.');
            }
        }
        r
    } else {
        let before = all_digits_in(m, 0, dot);
        let after = all_digits_in(m, dot + 1, m.len());
        assert(m@.subrange(0, dot as int) == m@.take(dot as int));
        assert(m@.subrange(dot as int + 1, m@.len() as int) == m@.skip(dot as int + 1));
        let r = before && after && m.len() > 1;
        proof {
            assert(!all_digits(m@)) by {
                assert(!is_digit(m@[dot as int]));
            }
            if is_mantissa(m@) {
                let k = choose|k: int| 0 <= k < m@.len() && m@[k] == '.' && all_digits(m@.take(k))
                    && all_digits(#[trigger] m@.skip(k + 1)) && m@.len() > 1;
                if k != dot {
                    if k < dot {
                        assert(m@[k] != '.');
                    } else {
                        assert(!is_digit(m@.skip(k + 1)[dot - k - 1]) || dot < k);
                        assert(m@.take(k)[dot as int] == '.');
                        assert(!is_digit(m@.take(k)[dot as int]));
                    }
                }
            }
        }
        r
    }
}

/// Whether `f32::from_str` accepts `s`.
#[verifier::rlimit(40)]
pub fn float_text_ok(s: &Vec<char>) -> (ok: bool)
    ensures
        ok == is_float_text(s@),
{
    let lower = crate::text::lower_chars(s);
    let t: Vec<char> = if lower.len() > 0 && (lower[0] == '+' || lower[0] == '-') {
        crate::text::slice_chars(&lower, 1, lower.len())
    } else {
        lower
    };
    assert(t@ == unsigned_part(ascii_lower_seq(s@)));
    if crate::text::is_word(&t, "inf") || crate::text::is_word(&t, "infinity") || crate::text::is_word(&t, "nan") {
        return true;
    }
    let mut e: usize = t.len();
    let mut i: usize = 0;
    while i < t.len()
        invariant
            i <= t.len(),
            e <= t.len(),
            e == t.len() ==> forall|j: int| 0 <= j < i ==> t@[j] != 'e',
            e < t.len() ==> e < i && t@[e as int] == 'e' && forall|j: int| 0 <= j < e ==> t@[j] != 'e',
        decreases t.len() - i,
    {
        if e == t.len() && t[i] == 'e' {
            e = i;
        }
        i = i + 1;
    }
    if e == t.len() {
        assert(!t@.contains('e'));
        mantissa_ok(&t)
    } else {
        assert(t@[e as int] == 'e');
        assert(t@.contains('e'));
        let m = crate::text::slice_chars(&t, 0, e);
        assert(m@ == t@.take(e as int));
        let rest = crate::text::slice_chars(&t, e + 1, t.len());
        assert(rest@ == t@.skip(e as int + 1));
        let exp: Vec<char> = if rest.len() > 0 && (rest[0] == '+' || rest[0] == '-') {
            crate::text::slice_chars(&rest, 1, rest.len())
        } else {
            rest
        };
        assert(exp@ == unsigned_part(t@.skip(e as int + 1)));
        proof {
            let k = choose|k: int| 0 <= k < t@.len() && t@[k] == 'e' && forall|j: int| 0 <= j < k ==> t@[j] != 'e';
            if k < e {
                assert(t@[k] != 'e');
            } else if k > e {
                assert(t@[e as int] != 'e');
            }
        }
        mantissa_ok(&m) && exp.len() > 0 && all_digits_in(&exp, 0, exp.len()) && {
            assert(exp@.subrange(0, exp@.len() as int) == exp@);
            true
        }
    }
}

} // verus!

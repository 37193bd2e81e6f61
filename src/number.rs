//! Which answers read as a number: the text that the standard library's
//! floating-point parser accepts.
//!
//! That parser takes, ignoring the case of letters,
//! `Sign? ('inf' | 'infinity' | 'nan' | Number)` where
//! `Number ::= (Digit+ | Digit+ '.' Digit* | Digit* '.' Digit+) Exp?`,
//! `Exp ::= 'e' Sign? Digit+` and `Sign ::= [+-]`.

use crate::text::{trim_text, trimmed};
use vstd::prelude::*;

verus! {

pub open spec fn is_digit(c: char) -> bool {
    '0' <= c && c <= '9'
}

pub open spec fn is_sign(c: char) -> bool {
    c == '+' || c == '-'
}

/// Where the run of digits of `s` that starts at `i` ends.
pub open spec fn digits_end(s: Seq<char>, i: int) -> int
    decreases s.len() - i,
{
    if 0 <= i < s.len() && is_digit(s[i]) {
        digits_end(s, i + 1)
    } else {
        i
    }
}

/// `s` spells the lower-case word `w`, each letter in either case.
pub open spec fn spells(s: Seq<char>, w: Seq<char>) -> bool {
    s.len() == w.len() && forall|i: int|
        0 <= i < s.len() ==> s[i] == w[i] || s[i] as u32 + 32 == w[i] as u32
}

/// Infinity or not-a-number, by name.
pub open spec fn special_value(s: Seq<char>) -> bool {
    spells(s, seq!['i', 'n', 'f']) || spells(s, seq!['i', 'n', 'f', 'i', 'n', 'i', 't', 'y'])
        || spells(s, seq!['n', 'a', 'n'])
}

/// From `j` on, `s` is empty or an exponent: `e` or `E`, a sign if any, and
/// at least one digit.
pub open spec fn exponent_from(s: Seq<char>, j: int) -> bool {
    j == s.len() || ((s[j] == 'e' || s[j] == 'E') && {
        let k = if j + 1 < s.len() && is_sign(s[j + 1]) {
            j + 2
        } else {
            j + 1
        };
        k < s.len() && digits_end(s, k) == s.len()
    })
}

/// `s` is a decimal number: digits, a point with digits after it if any,
/// at least one digit in all, then an exponent if any.
pub open spec fn decimal_number(s: Seq<char>) -> bool {
    let i = digits_end(s, 0);
    if i < s.len() && s[i] == '.' {
        let j = digits_end(s, i + 1);
        (i > 0 || j > i + 1) && exponent_from(s, j)
    } else {
        i > 0 && exponent_from(s, i)
    }
}

/// `s` is text the floating-point parser accepts.
pub open spec fn number_text(s: Seq<char>) -> bool {
    let body = if s.len() > 0 && is_sign(s[0]) {
        s.drop_first()
    } else {
        s
    };
    special_value(body) || decimal_number(body)
}

/// An answer reads as a number when, without surrounding whitespace, it is
/// number text.
pub open spec fn reads_as_number(answer: Seq<char>) -> bool {
    number_text(trimmed(answer))
}

fn scan_digits(s: &str, n: usize, i: usize) -> (r: usize)
    requires
        n == s@.len(),
        i <= n,
    ensures
        r == digits_end(s@, i as int),
        i <= r <= n,
{
    let mut j = i;
    while j < n
        invariant
            n == s@.len(),
            i <= j <= n,
            digits_end(s@, i as int) == digits_end(s@, j as int),
        decreases n - j,
    {
        let c = s.get_char(j);
        if !('0' <= c && c <= '9') {
            return j;
        }
        j = j + 1;
    }
    j
}

fn spells_word(s: &str, from: usize, n: usize, w: &Vec<char>) -> (r: bool)
    requires
        n == s@.len(),
        from <= n,
    ensures
        r == spells(s@.subrange(from as int, n as int), w@),
{
    if n - from != w.len() {
        return false;
    }
    let ghost t = s@.subrange(from as int, n as int);
    let mut i: usize = 0;
    while i < w.len()
        invariant
            n == s@.len(),
            from <= n,
            t == s@.subrange(from as int, n as int),
            t.len() == w@.len(),
            i <= w@.len(),
            forall|k: int| 0 <= k < i ==> t[k] == w@[k] || t[k] as u32 + 32 == w@[k] as u32,
        decreases w@.len() - i,
    {
        let c = s.get_char(from + i);
        let target = w[i];
        if !(c == target || c as u32 + 32 == target as u32) {
            return false;
        }
        i = i + 1;
    }
    true
}

fn is_special_value(s: &str, from: usize, n: usize) -> (r: bool)
    requires
        n == s@.len(),
        from <= n,
    ensures
        r == special_value(s@.subrange(from as int, n as int)),
{
    let inf = vec!['i', 'n', 'f'];
    let infinity = vec!['i', 'n', 'f', 'i', 'n', 'i', 't', 'y'];
    let nan = vec!['n', 'a', 'n'];
    assert(inf@ =~= seq!['i', 'n', 'f']);
    assert(infinity@ =~= seq!['i', 'n', 'f', 'i', 'n', 'i', 't', 'y']);
    assert(nan@ =~= seq!['n', 'a', 'n']);
    spells_word(s, from, n, &inf) || spells_word(s, from, n, &infinity) || spells_word(s, from, n, &nan)
}

proof fn lemma_digits_end_shift(s: Seq<char>, from: int, i: int)
    requires
        0 <= from <= i,
        from <= s.len(),
    ensures
        digits_end(s.subrange(from, s.len() as int), i - from) == digits_end(s, i) - from,
    decreases s.len() - i,
{
    let t = s.subrange(from, s.len() as int);
    if 0 <= i < s.len() && is_digit(s[i]) {
        assert(t[i - from] == s[i]);
        lemma_digits_end_shift(s, from, i + 1);
    }
}

fn has_exponent_from(s: &str, n: usize, j: usize) -> (r: bool)
    requires
        n == s@.len(),
        j <= n,
    ensures
        r == exponent_from(s@, j as int),
{
    if j == n {
        return true;
    }
    let e = s.get_char(j);
    if !(e == 'e' || e == 'E') {
        return false;
    }
    let mut k = j + 1;
    if k < n {
        let c = s.get_char(k);
        if c == '+' || c == '-' {
            k = k + 1;
        }
    }
    k < n && scan_digits(s, n, k) == n
}

/// Whether `s`, from position `from` on, is number text.
fn is_number_from(s: &str, from: usize, n: usize) -> (r: bool)
    requires
        n == s@.len(),
        from <= n,
    ensures
        r == (special_value(s@.subrange(from as int, n as int)) || decimal_number(
            s@.subrange(from as int, n as int),
        )),
{
    let ghost b = s@.subrange(from as int, n as int);
    if is_special_value(s, from, n) {
        return true;
    }
    let i = scan_digits(s, n, from);
    proof {
        lemma_digits_end_shift(s@, from as int, from as int);
    }
    let ok = if i < n && s.get_char(i) == '.' {
        let j = scan_digits(s, n, i + 1);
        proof {
            lemma_digits_end_shift(s@, from as int, i + 1);
            assert(b[i - from] == s@[i as int]);
        }
        (i > from || j > i + 1) && has_exponent_from(s, n, j)
    } else {
        proof {
            if i < n {
                assert(b[i - from] == s@[i as int]);
            }
        }
        i > from && has_exponent_from(s, n, i)
    };
    proof {
        let i0 = (i - from) as int;
        assert forall|j: int| from <= j <= n implies exponent_from(s@, j) == exponent_from(
            b,
            j - from,
        ) by {
            if j < n {
                assert(b[j - from] == s@[j]);
                if j + 1 < n {
                    assert(b[j + 1 - from] == s@[j + 1]);
                }
                let k = if j + 1 < s@.len() && is_sign(s@[j + 1]) {
                    j + 2
                } else {
                    j + 1
                };
                if k <= n {
                    lemma_digits_end_shift(s@, from as int, k);
                }
            }
        }
    }
    ok
}

/// Whether `s` is text the floating-point parser accepts.
pub fn is_number_text(s: &str) -> (r: bool)
    ensures
        r == number_text(s@),
{
    let n = s.unicode_len();
    if n > 0 {
        let c = s.get_char(0);
        if c == '+' || c == '-' {
            assert(s@.drop_first() =~= s@.subrange(1, n as int));
            return is_number_from(s, 1, n);
        }
    }
    assert(s@ =~= s@.subrange(0, n as int));
    is_number_from(s, 0, n)
}

/// Whether an answer reads as a number.
pub fn answer_is_number(answer: &str) -> (r: bool)
    ensures
        r == reads_as_number(answer@),
{
    let t = trim_text(answer);
    is_number_text(t.as_str())
}

} // verus!

//! Character and text operations of the standard library that the library
//! relies on. Whitespace and trimming are short enough to state and check
//! here; the others are called, each with a name for what it returns.

use vstd::prelude::*;

verus! {

/// Whether `c` has the Unicode White_Space property, the one that
/// char::is_whitespace and str::trim go by: these 25 code points.
pub open spec fn is_white(c: char) -> bool {
    let u = c as u32;
    ||| 0x09 <= u <= 0x0D
    ||| u == 0x20
    ||| u == 0x85
    ||| u == 0xA0
    ||| u == 0x1680
    ||| 0x2000 <= u <= 0x200A
    ||| u == 0x2028
    ||| u == 0x2029
    ||| u == 0x202F
    ||| u == 0x205F
    ||| u == 0x3000
}

/// What char::to_uppercase turns `c` into (one or more characters).
pub uninterp spec fn upper_of(c: char) -> Seq<char>;

/// Whether `c` is whitespace.
pub fn char_is_whitespace(c: char) -> (r: bool)
    ensures
        r == is_white(c),
{
    let u = c as u32;
    (0x09 <= u && u <= 0x0D) || u == 0x20 || u == 0x85 || u == 0xA0 || u == 0x1680 || (0x2000
        <= u && u <= 0x200A) || u == 0x2028 || u == 0x2029 || u == 0x202F || u == 0x205F || u
        == 0x3000
}

/// Relies on char::to_uppercase, collected into a string: the upper-case
/// mapping of `c`, which depends on `c` alone.
#[verifier::external_body]
pub(crate) fn char_to_uppercase(c: char) -> (r: String)
    ensures
        r@ == upper_of(c),
{
    c.to_uppercase().collect()
}

/// The lines of `text` as str::lines yields them.
pub uninterp spec fn lines_of(text: Seq<char>) -> Seq<Seq<char>>;

/// Where the whitespace of `s` that starts at `i` ends.
pub open spec fn white_end(s: Seq<char>, i: int) -> int
    decreases s.len() - i,
{
    if 0 <= i < s.len() && is_white(s[i]) {
        white_end(s, i + 1)
    } else {
        i
    }
}

/// Where the whitespace of `s` that ends at `j` starts.
pub open spec fn white_start(s: Seq<char>, j: int) -> int
    decreases j,
{
    if 0 < j <= s.len() && is_white(s[j - 1]) {
        white_start(s, j - 1)
    } else {
        j
    }
}

/// `s` without its leading and trailing whitespace, as str::trim gives it.
pub open spec fn trimmed(s: Seq<char>) -> Seq<char> {
    let a = white_end(s, 0);
    if a >= s.len() {
        Seq::empty()
    } else {
        s.subrange(a, white_start(s, s.len() as int))
    }
}

/// `s` in lower case, as str::to_lowercase gives it.
pub uninterp spec fn lower_of(s: Seq<char>) -> Seq<char>;

/// Relies on str::lines, each line copied into a string: the lines of
/// `text`, split at each `\n` or `\r\n` and without it, with no empty line
/// after a final line ending; they depend on the text alone.
#[verifier::external_body]
pub(crate) fn text_lines(text: &str) -> (r: Vec<String>)
    ensures
        r.deep_view() == lines_of(text@),
{
    text.lines().map(|line| line.to_string()).collect()
}

proof fn lemma_white_end_stops(s: Seq<char>, i: int)
    requires
        0 <= i <= s.len(),
    ensures
        i <= white_end(s, i) <= s.len(),
        white_end(s, i) < s.len() ==> !is_white(s[white_end(s, i)]),
    decreases s.len() - i,
{
    if i < s.len() && is_white(s[i]) {
        lemma_white_end_stops(s, i + 1);
    }
}

fn skip_white_forward(s: &str, n: usize, i: usize) -> (r: usize)
    requires
        n == s@.len(),
        i <= n,
    ensures
        r == white_end(s@, i as int),
        i <= r <= n,
{
    let mut a = i;
    while a < n
        invariant
            n == s@.len(),
            i <= a <= n,
            white_end(s@, i as int) == white_end(s@, a as int),
        decreases n - a,
    {
        if !char_is_whitespace(s.get_char(a)) {
            return a;
        }
        a = a + 1;
    }
    a
}

fn skip_white_backward(s: &str, n: usize, j: usize, a: usize) -> (r: usize)
    requires
        n == s@.len(),
        a < j <= n,
        !is_white(s@[a as int]),
    ensures
        r == white_start(s@, j as int),
        a < r <= j,
{
    let mut b = j;
    while b > a + 1
        invariant
            n == s@.len(),
            j <= n,
            a < b <= j,
            !is_white(s@[a as int]),
            white_start(s@, j as int) == white_start(s@, b as int),
        decreases b,
    {
        if !char_is_whitespace(s.get_char(b - 1)) {
            return b;
        }
        b = b - 1;
    }
    b
}

/// `s` without leading and trailing whitespace.
pub fn trim_text(s: &str) -> (r: String)
    ensures
        r@ == trimmed(s@),
{
    let n = s.unicode_len();
    let a = skip_white_forward(s, n, 0);
    proof {
        lemma_white_end_stops(s@, 0);
    }
    if a >= n {
        return String::new();
    }
    let b = skip_white_backward(s, n, n, a);
    String::from_str(s.substring_char(a, b))
}

/// Relies on str::to_lowercase: the lower-case mapping of `s`, which depends
/// on `s` alone.
#[verifier::external_body]
pub(crate) fn lowercase(s: &str) -> (r: String)
    ensures
        r@ == lower_of(s@),
{
    s.to_lowercase()
}

} // verus!

//! Scanning, slicing and building of text, character by character.
//!
//! Every function here is stated over the sequence of characters of its
//! arguments (`s@`), so that callers can reason about tokens as `Seq<char>`.

use vstd::prelude::*;
use vstd::std_specs::iter::IteratorSpec;
use vstd::string::StringExecFns;
use vstd::string::StrSliceExecFns;

verus! {

/// The view of what an optional value holds.
pub open spec fn opt_view<T: View>(o: Option<T>) -> Option<T::V> {
    match o {
        Some(t) => Some(t@),
        None => None,
    }
}

/// The views of both outcomes of a result.
pub open spec fn result_view<T: View, E: View>(r: Result<T, E>) -> Result<T::V, E::V> {
    match r {
        Ok(t) => Ok(t@),
        Err(e) => Err(e@),
    }
}

/// `i` is the first position of `s` that holds `a` or `b`.
pub open spec fn is_first_of(s: Seq<char>, a: char, b: char, i: int) -> bool {
    &&& 0 <= i < s.len()
    &&& (s[i] == a || s[i] == b)
    &&& forall|j: int| 0 <= j < i ==> s[j] != a && s[j] != b
}

/// The first position of `s` that holds `a` or `b`, if there is one.
pub open spec fn first_of(s: Seq<char>, a: char, b: char) -> Option<int> {
    if exists|i: int| is_first_of(s, a, b, i) {
        Some(choose|i: int| is_first_of(s, a, b, i))
    } else {
        None
    }
}

/// `s` cut in two at its first `a` or `b`, which belongs to neither part.
pub open spec fn split_once_spec(s: Seq<char>, a: char, b: char) -> Option<(Seq<char>, Seq<char>)> {
    match first_of(s, a, b) {
        Some(i) => Some((s.take(i), s.skip(i + 1))),
        None => None,
    }
}

/// `pat` occurs in `s` at position `i`.
pub open spec fn occurs_at(s: Seq<char>, pat: Seq<char>, i: int) -> bool {
    &&& 0 <= i
    &&& i + pat.len() <= s.len()
    &&& s.subrange(i, i + pat.len()) == pat
}

/// `pat` occurs somewhere in `s`.
pub open spec fn contains_seq(s: Seq<char>, pat: Seq<char>) -> bool {
    exists|i: int| occurs_at(s, pat, i)
}

/// The first character of `s`, if it has one.
pub open spec fn first_char_spec(s: Seq<char>) -> Option<char> {
    if s.len() > 0 {
        Some(s[0])
    } else {
        None
    }
}

/// The decimal digit for `d`, where `d < 10`.
pub open spec fn digit_char(d: nat) -> char {
    if d == 0 {
        '0'
    } else if d == 1 {
        '1'
    } else if d == 2 {
        '2'
    } else if d == 3 {
        '3'
    } else if d == 4 {
        '4'
    } else if d == 5 {
        '5'
    } else if d == 6 {
        '6'
    } else if d == 7 {
        '7'
    } else if d == 8 {
        '8'
    } else {
        '9'
    }
}

/// `c` is an ASCII character.
pub open spec fn is_ascii_char(c: char) -> bool {
    c <= '\x7f'
}

/// `c` is an ASCII letter.
pub open spec fn is_ascii_letter(c: char) -> bool {
    ('a' <= c && c <= 'z') || ('A' <= c && c <= 'Z')
}

/// Whether `c` has the Unicode property `Alphabetic`, as `char::is_alphabetic`
/// has it.
pub uninterp spec fn unicode_alphabetic(c: char) -> bool;

/// `c` is a letter: among the ASCII characters the fifty-two letters, beyond
/// them whatever Unicode calls alphabetic.
pub open spec fn is_letter(c: char) -> bool {
    if is_ascii_char(c) {
        is_ascii_letter(c)
    } else {
        unicode_alphabetic(c)
    }
}

/// `c` is one of the ten decimal digits.
pub open spec fn is_decimal_digit(c: char) -> bool {
    '0' <= c && c <= '9'
}

/// `n` written in base ten, without leading zeros.
pub open spec fn decimal(n: nat) -> Seq<char>
    decreases n,
{
    if n < 10 {
        seq![digit_char(n)]
    } else {
        decimal(n / 10).push(digit_char(n % 10))
    }
}

/// A position that holds `a` or `b` with none before it is the first one.
pub proof fn lemma_first_of_is(s: Seq<char>, a: char, b: char, i: int)
    requires
        is_first_of(s, a, b, i),
    ensures
        first_of(s, a, b) == Some(i),
{
    let k = choose|k: int| is_first_of(s, a, b, k);
    assert(is_first_of(s, a, b, k));
    if k < i {
        assert(s[k] != a && s[k] != b);
    } else if i < k {
        assert(s[i] != a && s[i] != b);
    }
}

/// A text that holds neither `a` nor `b` has no first such position.
pub proof fn lemma_first_of_none(s: Seq<char>, a: char, b: char)
    requires
        forall|j: int| 0 <= j < s.len() ==> s[j] != a && s[j] != b,
    ensures
        first_of(s, a, b) is None,
{
}

/// What `first_of` says of the position it gives, and of a text where it gives none.
pub proof fn lemma_first_of_facts(s: Seq<char>, a: char, b: char)
    ensures
        first_of(s, a, b) matches Some(i) ==> is_first_of(s, a, b, i),
        first_of(s, a, b) is None ==> forall|j: int| 0 <= j < s.len() ==> s[j] != a && s[j] != b,
{
    if first_of(s, a, b) is None {
        assert forall|j: int| 0 <= j < s.len() implies s[j] != a && s[j] != b by {
            if s[j] == a || s[j] == b {
                lemma_some_first(s, a, b, j);
            }
        }
    }
}

/// Where some position up to `j` holds `a` or `b`, there is a first one.
proof fn lemma_some_first(s: Seq<char>, a: char, b: char, j: int)
    requires
        0 <= j < s.len(),
        s[j] == a || s[j] == b,
    ensures
        exists|i: int| is_first_of(s, a, b, i),
    decreases j,
{
    if forall|k: int| 0 <= k < j ==> s[k] != a && s[k] != b {
        assert(is_first_of(s, a, b, j));
    } else {
        let k = choose|k: int| 0 <= k < j && !(s[k] != a && s[k] != b);
        lemma_some_first(s, a, b, k);
    }
}

/// Every character of a decimal numeral is a digit, and there is at least one.
pub proof fn lemma_decimal_digits(n: nat)
    ensures
        decimal(n).len() > 0,
        forall|i: int| 0 <= i < decimal(n).len() ==> is_decimal_digit(#[trigger] decimal(n)[i]),
    decreases n,
{
    if n >= 10 {
        lemma_decimal_digits(n / 10);
    }
}

/// A copy of the text that `text` holds.
pub fn clone_text(text: &Option<String>) -> (r: Option<String>)
    ensures
        opt_view(r) == opt_view(*text),
{
    match text {
        Some(t) => Some(t.clone()),
        None => None,
    }
}

/// Whether `a` and `b` hold the same text, or both hold none.
pub fn same_text(a: &Option<String>, b: &Option<String>) -> (r: bool)
    ensures
        r == (opt_view(*a) == opt_view(*b)),
{
    match (a, b) {
        (Some(x), Some(y)) => *x == *y,
        (None, None) => true,
        _ => false,
    }
}

/// Calls `String::push`. Trusted: `c` is appended to the end of `out`.
#[verifier::external_body]
pub(crate) fn push_char(out: &mut String, c: char)
    ensures
        final(out)@ == old(out)@.push(c),
{
    out.push(c)
}

/// Calls `char::is_alphabetic`. Trusted: the result is what it returns.
#[verifier::external_body]
fn char_is_alphabetic(c: char) -> (r: bool)
    ensures
        r == unicode_alphabetic(c),
{
    c.is_alphabetic()
}

/// Whether `c` is a letter.
pub fn is_alphabetic(c: char) -> (r: bool)
    ensures
        r == is_letter(c),
{
    if c <= '\x7f' {
        ('a' <= c && c <= 'z') || ('A' <= c && c <= 'Z')
    } else {
        char_is_alphabetic(c)
    }
}

/// The characters of `s`, in order.
pub fn chars_of(s: &str) -> (v: Vec<char>)
    ensures
        v@ == s@,
{
    broadcast use vstd::string::group_string_axioms;

    let mut it = s.chars();
    let mut v: Vec<char> = Vec::new();
    loop
        invariant
            v@ + it.remaining() == s@,
            it.obeys_prophetic_iter_laws(),
            it.decrease() is Some,
        decreases it.decrease()->0,
    {
        let ghost before = it.remaining();
        match it.next() {
            Some(c) => {
                assert(before == seq![c] + it.remaining());
                assert(v@.push(c) + it.remaining() == v@ + before);
                v.push(c);
            },
            None => {
                assert(v@ + it.remaining() == v@);
                return v;
            },
        }
    }
}

/// The first position of `v` that holds `a` or `b`.
pub fn find_first_of(v: &Vec<char>, a: char, b: char) -> (r: Option<usize>)
    ensures
        r matches Some(i) ==> first_of(v@, a, b) == Some(i as int),
        r is None ==> first_of(v@, a, b) is None,
{
    let mut i: usize = 0;
    while i < v.len()
        invariant
            i <= v.len(),
            forall|j: int| 0 <= j < i ==> v@[j] != a && v@[j] != b,
        decreases v.len() - i,
    {
        if v[i] == a || v[i] == b {
            proof {
                lemma_first_of_is(v@, a, b, i as int);
            }
            return Some(i);
        }
        i += 1;
    }
    proof {
        lemma_first_of_none(v@, a, b);
    }
    None
}

/// The characters of `s` from position `from` up to, not including, `to`.
pub fn slice_text(s: &str, from: usize, to: usize) -> (r: String)
    requires
        from <= to <= s@.len(),
    ensures
        r@ == s@.subrange(from as int, to as int),
{
    s.substring_char(from, to).to_owned()
}

/// Cuts `s` in two at its first `a` or `b`.
pub fn split_once(s: &str, a: char, b: char) -> (r: Option<(String, String)>)
    ensures
        match r {
            Some((head, tail)) => split_once_spec(s@, a, b) == Some((head@, tail@)),
            None => split_once_spec(s@, a, b) is None,
        },
{
    let v = chars_of(s);
    match find_first_of(&v, a, b) {
        Some(i) => {
            proof {
                lemma_first_of_facts(v@, a, b);
                assert(is_first_of(v@, a, b, i as int));
            }
            let end = v.len();
            let head = slice_text(s, 0, i);
            let tail = slice_text(s, i + 1, end);
            Some((head, tail))
        },
        None => None,
    }
}

/// Whether `c` occurs in `s`.
pub fn contains_char(s: &str, c: char) -> (r: bool)
    ensures
        r == s@.contains(c),
{
    let v = chars_of(s);
    let found = find_first_of(&v, c, c);
    proof {
        lemma_first_of_facts(v@, c, c);
    }
    found.is_some()
}

/// Whether `pat` occurs in `s`.
pub fn contains_text(s: &str, pat: &str) -> (r: bool)
    ensures
        r == contains_seq(s@, pat@),
{
    let v = chars_of(s);
    let p = chars_of(pat);
    if p.len() > v.len() {
        return false;
    }
    let last: usize = v.len() - p.len();
    let mut i: usize = 0;
    while i <= last
        invariant
            v@ == s@,
            p@ == pat@,
            last == v.len() - p.len(),
            p.len() <= v.len(),
            i <= last + 1,
            forall|k: int| 0 <= k < i ==> !occurs_at(v@, p@, k),
        decreases last + 1 - i,
    {
        let mut j: usize = 0;
        while j < p.len() && v[i + j] == p[j]
            invariant
                i <= last,
                last == v.len() - p.len(),
                j <= p.len(),
                forall|k: int| 0 <= k < j ==> v@[i + k] == p@[k],
            decreases p.len() - j,
        {
            j += 1;
        }
        if j == p.len() {
            assert(v@.subrange(i as int, i + p.len()) =~= p@);
            assert(occurs_at(v@, p@, i as int));
            return true;
        }
        assert(!occurs_at(v@, p@, i as int)) by {
            if occurs_at(v@, p@, i as int) {
                assert(v@.subrange(i as int, i + p.len())[j as int] == p@[j as int]);
            }
        }
        i += 1;
    }
    assert forall|k: int| !occurs_at(v@, p@, k) by {
        if occurs_at(v@, p@, k) {
            assert(k < i);
        }
    }
    false
}

/// The first character of `s`.
pub fn first_char(s: &str) -> (r: Option<char>)
    ensures
        r == first_char_spec(s@),
{
    let v = chars_of(s);
    if v.len() > 0 {
        Some(v[0])
    } else {
        None
    }
}

/// Whether `a` and `b` hold the same characters.
pub fn text_eq(a: &str, b: &str) -> (r: bool)
    ensures
        r == (a@ == b@),
{
    let x = chars_of(a);
    let y = chars_of(b);
    if x.len() != y.len() {
        return false;
    }
    let mut i: usize = 0;
    while i < x.len()
        invariant
            x@ == a@,
            y@ == b@,
            x.len() == y.len(),
            i <= x.len(),
            forall|k: int| 0 <= k < i ==> x@[k] == y@[k],
        decreases x.len() - i,
    {
        if x[i] != y[i] {
            return false;
        }
        i += 1;
    }
    assert(x@ =~= y@);
    true
}

/// The one-character text of the decimal digit `d`.
fn digit_text(d: u64) -> (r: &'static str)
    requires
        d < 10,
    ensures
        r@ == seq![digit_char(d as nat)],
{
    proof {
        reveal_strlit("0");
        reveal_strlit("1");
        reveal_strlit("2");
        reveal_strlit("3");
        reveal_strlit("4");
        reveal_strlit("5");
        reveal_strlit("6");
        reveal_strlit("7");
        reveal_strlit("8");
        reveal_strlit("9");
    }
    let r = if d == 0 {
        "0"
    } else if d == 1 {
        "1"
    } else if d == 2 {
        "2"
    } else if d == 3 {
        "3"
    } else if d == 4 {
        "4"
    } else if d == 5 {
        "5"
    } else if d == 6 {
        "6"
    } else if d == 7 {
        "7"
    } else if d == 8 {
        "8"
    } else {
        "9"
    };
    assert(r@ =~= seq![digit_char(d as nat)]);
    r
}

/// Appends `n`, written in base ten, to `out`.
pub fn push_decimal(out: &mut String, n: u64)
    ensures
        final(out)@ == old(out)@ + decimal(n as nat),
    decreases n,
{
    if n >= 10 {
        push_decimal(out, n / 10);
    }
    out.append(digit_text(n % 10));
    assert(final(out)@ =~= old(out)@ + decimal(n as nat));
}

} // verus!

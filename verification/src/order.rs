//! The order of texts, numbers and optional values, and how orders of parts
//! make up the order of a whole.
//!
//! Texts are ordered as `str` orders them: character by character, a text
//! before every longer text that opens with it.

use std::cmp::Ordering;
use vstd::prelude::*;
use crate::text::{chars_of, opt_view};

verus! {

/// `first`, and where that is a tie `second`.
pub open spec fn chain(first: Ordering, second: Ordering) -> Ordering {
    match first {
        Ordering::Equal => second,
        _ => first,
    }
}

/// The order of two numbers.
pub open spec fn number_order(a: u64, b: u64) -> Ordering {
    if a < b {
        Ordering::Less
    } else if a > b {
        Ordering::Greater
    } else {
        Ordering::Equal
    }
}

/// The order of two optional numbers: none comes first.
pub open spec fn option_number_order(a: Option<u64>, b: Option<u64>) -> Ordering {
    match (a, b) {
        (None, None) => Ordering::Equal,
        (None, Some(_)) => Ordering::Less,
        (Some(_), None) => Ordering::Greater,
        (Some(x), Some(y)) => number_order(x, y),
    }
}

/// The order of two texts: that of their first characters, and where these
/// are the same that of what follows them. The empty text comes first.
pub open spec fn text_order(a: Seq<char>, b: Seq<char>) -> Ordering
    decreases a.len(),
{
    if a.len() == 0 {
        if b.len() == 0 {
            Ordering::Equal
        } else {
            Ordering::Less
        }
    } else if b.len() == 0 {
        Ordering::Greater
    } else if a[0] < b[0] {
        Ordering::Less
    } else if a[0] > b[0] {
        Ordering::Greater
    } else {
        text_order(a.skip(1), b.skip(1))
    }
}

/// The order of two optional texts: none comes first.
pub open spec fn option_text_order(a: Option<Seq<char>>, b: Option<Seq<char>>) -> Ordering {
    match (a, b) {
        (None, None) => Ordering::Equal,
        (None, Some(_)) => Ordering::Less,
        (Some(_), None) => Ordering::Greater,
        (Some(x), Some(y)) => text_order(x, y),
    }
}

/// Two texts tie exactly when they are the same text.
pub proof fn lemma_text_order_equal(a: Seq<char>, b: Seq<char>)
    ensures
        text_order(a, b) == Ordering::Equal <==> a == b,
    decreases a.len(),
{
    if a.len() > 0 && b.len() > 0 && a[0] == b[0] {
        lemma_text_order_equal(a.skip(1), b.skip(1));
        if a.skip(1) == b.skip(1) {
            assert(a =~= seq![a[0]] + a.skip(1));
            assert(b =~= seq![b[0]] + b.skip(1));
        }
        if a == b {
            assert(a.skip(1) =~= b.skip(1));
        }
    } else if a.len() == 0 && b.len() == 0 {
        assert(a =~= b);
    }
}

/// Two texts in one order are in the opposite order the other way round.
pub proof fn lemma_text_order_reverse(a: Seq<char>, b: Seq<char>)
    ensures
        text_order(a, b) == Ordering::Less <==> text_order(b, a) == Ordering::Greater,
    decreases a.len(),
{
    if a.len() > 0 && b.len() > 0 && a[0] == b[0] {
        lemma_text_order_reverse(a.skip(1), b.skip(1));
    }
}

/// A text before a second text that is before a third is before the third.
pub proof fn lemma_text_order_transitive(a: Seq<char>, b: Seq<char>, c: Seq<char>)
    requires
        text_order(a, b) == Ordering::Less,
        text_order(b, c) == Ordering::Less,
    ensures
        text_order(a, c) == Ordering::Less,
    decreases a.len(),
{
    if a.len() > 0 && b.len() > 0 && c.len() > 0 && a[0] == b[0] && b[0] == c[0] {
        lemma_text_order_transitive(a.skip(1), b.skip(1), c.skip(1));
    }
}

/// The order of texts is a total order: two texts tie exactly when they are
/// the same, swapping them swaps the order, and the order is transitive.
pub proof fn lemma_text_order_total(a: Seq<char>, b: Seq<char>, c: Seq<char>)
    ensures
        text_order(a, b) == Ordering::Equal <==> a == b,
        text_order(a, b) == Ordering::Less <==> text_order(b, a) == Ordering::Greater,
        text_order(a, b) == Ordering::Less && text_order(b, c) == Ordering::Less ==> text_order(
            a,
            c,
        ) == Ordering::Less,
{
    lemma_text_order_equal(a, b);
    lemma_text_order_reverse(a, b);
    if text_order(a, b) == Ordering::Less && text_order(b, c) == Ordering::Less {
        lemma_text_order_transitive(a, b, c);
    }
}

/// `first`, and where that is a tie `second`.
pub fn chain_orders(first: Ordering, second: Ordering) -> (r: Ordering)
    ensures
        r == chain(first, second),
{
    match first {
        Ordering::Equal => second,
        _ => first,
    }
}

/// The order of two numbers.
pub fn compare_numbers(a: u64, b: u64) -> (r: Ordering)
    ensures
        r == number_order(a, b),
{
    if a < b {
        Ordering::Less
    } else if a > b {
        Ordering::Greater
    } else {
        Ordering::Equal
    }
}

/// The order of two optional numbers.
pub fn compare_option_numbers(a: Option<u64>, b: Option<u64>) -> (r: Ordering)
    ensures
        r == option_number_order(a, b),
{
    match (a, b) {
        (None, None) => Ordering::Equal,
        (None, Some(_)) => Ordering::Less,
        (Some(_), None) => Ordering::Greater,
        (Some(x), Some(y)) => compare_numbers(x, y),
    }
}

/// The order of two texts.
pub fn compare_text(a: &str, b: &str) -> (r: Ordering)
    ensures
        r == text_order(a@, b@),
{
    let x = chars_of(a);
    let y = chars_of(b);
    let mut i: usize = 0;
    assert(x@.skip(0) =~= x@);
    assert(y@.skip(0) =~= y@);
    loop
        invariant
            x@ == a@,
            y@ == b@,
            i <= x.len(),
            i <= y.len(),
            text_order(a@, b@) == text_order(x@.skip(i + 0), y@.skip(i + 0)),
        decreases x.len() - i,
    {
        if i >= x.len() {
            if i >= y.len() {
                return Ordering::Equal;
            }
            return Ordering::Less;
        }
        if i >= y.len() {
            return Ordering::Greater;
        }
        if x[i] < y[i] {
            return Ordering::Less;
        }
        if x[i] > y[i] {
            return Ordering::Greater;
        }
        assert(x@.skip(i + 0).skip(1) =~= x@.skip(i + 1));
        assert(y@.skip(i + 0).skip(1) =~= y@.skip(i + 1));
        i += 1;
    }
}

/// The order of two optional texts.
pub fn compare_option_text(a: &Option<String>, b: &Option<String>) -> (r: Ordering)
    ensures
        r == option_text_order(opt_view(*a), opt_view(*b)),
{
    match (a, b) {
        (None, None) => Ordering::Equal,
        (None, Some(_)) => Ordering::Less,
        (Some(_), None) => Ordering::Greater,
        (Some(x), Some(y)) => compare_text(x.as_str(), y.as_str()),
    }
}

} // verus!

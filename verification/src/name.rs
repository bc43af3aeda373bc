//! The grammar of package names.
//!
//! A name opens with a character that may open an identifier, or with `_`, and
//! goes on with characters that may continue one, or `-`. Which characters
//! open and continue an identifier is the `unicode-xid` crate's to say; among
//! the ASCII characters its answer is spelled out here.

use vstd::prelude::*;
use vstd::string::StringExecFns;
use crate::text::{chars_of, is_ascii_char, is_ascii_letter, is_decimal_digit, push_char};

verus! {

/// Why a text is no package name.
#[derive(Clone, Copy, Debug, PartialEq, Eq)]
pub enum NameError {
    /// The name is empty.
    Empty,
    /// The name opens with a digit.
    LeadingDigit,
    /// The name opens with this character, which may not open a name.
    InvalidStart(char),
    /// The name holds this character after its first, which may not continue a name.
    InvalidCharacter(char),
}

/// The words for a name error: `name` is the text that was refused, and
/// `what` says what it was meant to name.
pub open spec fn name_error_text(e: NameError, name: Seq<char>, what: Seq<char>) -> Seq<char> {
    match e {
        NameError::Empty => what + " cannot be empty"@,
        NameError::LeadingDigit => "the name `"@ + name + "` cannot be used as a "@ + what
            + ", the name cannot start with a digit"@,
        NameError::InvalidStart(c) => "invalid character `"@ + seq![c] + "` in "@ + what + ": `"@
            + name
            + "`, the first character must be a Unicode XID start character (most letters or `_`)"@,
        NameError::InvalidCharacter(c) => "invalid character `"@ + seq![c] + "` in "@ + what
            + ": `"@ + name
            + "`, characters must be Unicode XID characters (numbers, `-`, `_`, or most letters)"@,
    }
}

impl NameError {
    /// What went wrong, in words. `name` is the text that was refused, and
    /// `what` says what it was meant to name.
    pub fn message(&self, name: &str, what: &str) -> (r: String)
        ensures
            r@ == name_error_text(*self, name@, what@),
    {
        let mut out = String::new();
        match self {
            NameError::Empty => {
                out.append(what);
                out.append(" cannot be empty");
            },
            NameError::LeadingDigit => {
                out.append("the name `");
                out.append(name);
                out.append("` cannot be used as a ");
                out.append(what);
                out.append(", the name cannot start with a digit");
            },
            NameError::InvalidStart(c) => {
                out.append("invalid character `");
                push_char(&mut out, *c);
                out.append("` in ");
                out.append(what);
                out.append(": `");
                out.append(name);
                out.append(
                    "`, the first character must be a Unicode XID start character (most letters or `_`)",
                );
            },
            NameError::InvalidCharacter(c) => {
                out.append("invalid character `");
                push_char(&mut out, *c);
                out.append("` in ");
                out.append(what);
                out.append(": `");
                out.append(name);
                out.append(
                    "`, characters must be Unicode XID characters (numbers, `-`, `_`, or most letters)",
                );
            },
        }
        assert(out@ =~= name_error_text(*self, name@, what@));
        out
    }
}

impl View for NameError {
    type V = NameError;

    open spec fn view(&self) -> NameError {
        *self
    }
}

/// Whether `c` has the Unicode property `XID_Start`, as the `unicode-xid`
/// crate has it.
pub uninterp spec fn xid_start(c: char) -> bool;

/// Whether `c` has the Unicode property `XID_Continue`, as the `unicode-xid`
/// crate has it.
pub uninterp spec fn xid_continue(c: char) -> bool;

/// `c` may open a package name: a letter or `_` among the ASCII characters,
/// beyond them a character that may open an identifier.
pub open spec fn opens_name(c: char) -> bool {
    if is_ascii_char(c) {
        is_ascii_letter(c) || c == '_'
    } else {
        xid_start(c)
    }
}

/// `c` may stand in a package name after its first character: a letter, a
/// digit, `_` or `-` among the ASCII characters, beyond them a character that
/// may continue an identifier.
pub open spec fn continues_name(c: char) -> bool {
    if is_ascii_char(c) {
        is_ascii_letter(c) || is_decimal_digit(c) || c == '_' || c == '-'
    } else {
        xid_continue(c)
    }
}

/// `i` is the first position after the opening one whose character may not
/// continue a name.
pub open spec fn is_first_bad(name: Seq<char>, i: int) -> bool {
    &&& 1 <= i < name.len()
    &&& !continues_name(name[i])
    &&& forall|j: int| 1 <= j < i ==> continues_name(name[j])
}

/// `name` is a package name.
pub open spec fn is_package_name(name: Seq<char>) -> bool {
    &&& name.len() > 0
    &&& !is_decimal_digit(name[0])
    &&& opens_name(name[0])
    &&& forall|j: int| 1 <= j < name.len() ==> continues_name(name[j])
}

/// What is wrong with `name`, if anything: the first fault, reading from the
/// left.
pub open spec fn name_error(name: Seq<char>) -> Option<NameError> {
    if name.len() == 0 {
        Some(NameError::Empty)
    } else if is_decimal_digit(name[0]) {
        Some(NameError::LeadingDigit)
    } else if !opens_name(name[0]) {
        Some(NameError::InvalidStart(name[0]))
    } else if exists|i: int| is_first_bad(name, i) {
        Some(NameError::InvalidCharacter(name[choose|i: int| is_first_bad(name, i)]))
    } else {
        None
    }
}

/// A text has no fault exactly when it is a package name.
pub proof fn lemma_name_error_none(name: Seq<char>)
    ensures
        name_error(name) is None <==> is_package_name(name),
{
    if name_error(name) is None && name.len() > 0 {
        assert forall|j: int| 1 <= j < name.len() implies continues_name(name[j]) by {
            if !continues_name(name[j]) {
                lemma_some_first_bad(name, j);
            }
        }
    }
    if is_package_name(name) {
        if exists|i: int| is_first_bad(name, i) {
            let i = choose|i: int| is_first_bad(name, i);
            assert(continues_name(name[i]));
        }
    }
}

/// Where some position after the first holds a character that may not
/// continue a name, there is a first such position.
proof fn lemma_some_first_bad(name: Seq<char>, j: int)
    requires
        1 <= j < name.len(),
        !continues_name(name[j]),
    ensures
        exists|i: int| is_first_bad(name, i),
    decreases j,
{
    if forall|k: int| 1 <= k < j ==> continues_name(name[k]) {
        assert(is_first_bad(name, j));
    } else {
        let k = choose|k: int| 1 <= k < j && !continues_name(name[k]);
        lemma_some_first_bad(name, k);
    }
}

/// The first bad position is the only one.
proof fn lemma_first_bad_unique(name: Seq<char>, i: int)
    requires
        is_first_bad(name, i),
    ensures
        (choose|k: int| is_first_bad(name, k)) == i,
{
    let k = choose|k: int| is_first_bad(name, k);
    assert(is_first_bad(name, k));
    if k < i {
        assert(continues_name(name[k]));
    } else if i < k {
        assert(continues_name(name[i]));
    }
}

/// Calls `unicode_xid::UnicodeXID::is_xid_start` on `c`. Trusted: the result
/// is the crate's answer, which for an ASCII character is that it is a letter.
#[verifier::external_body]
fn is_xid_start(c: char) -> (r: bool)
    ensures
        r == xid_start(c),
        is_ascii_char(c) ==> r == is_ascii_letter(c),
{
    unicode_xid::UnicodeXID::is_xid_start(c)
}

/// Calls `unicode_xid::UnicodeXID::is_xid_continue` on `c`. Trusted: the
/// result is the crate's answer, which for an ASCII character is that it is a
/// letter, a digit or `_`.
#[verifier::external_body]
fn is_xid_continue(c: char) -> (r: bool)
    ensures
        r == xid_continue(c),
        is_ascii_char(c) ==> r == (is_ascii_letter(c) || is_decimal_digit(c) || c == '_'),
{
    unicode_xid::UnicodeXID::is_xid_continue(c)
}

/// Whether `c` may open a package name.
pub fn may_open_name(c: char) -> (r: bool)
    ensures
        r == opens_name(c),
{
    is_xid_start(c) || c == '_'
}

/// Whether `c` may stand in a package name after its first character.
pub fn may_continue_name(c: char) -> (r: bool)
    ensures
        r == continues_name(c),
{
    is_xid_continue(c) || c == '-'
}

/// Checks that `name` is a package name, and says what is wrong where it is
/// not.
pub fn validate_package_name(name: &str) -> (r: Result<(), NameError>)
    ensures
        r is Ok <==> is_package_name(name@),
        r matches Err(e) ==> name_error(name@) == Some(e),
        r is Ok ==> name_error(name@) is None,
{
    let v = chars_of(name);
    proof {
        lemma_name_error_none(name@);
    }
    if v.len() == 0 {
        return Err(NameError::Empty);
    }
    let first = v[0];
    if '0' <= first && first <= '9' {
        return Err(NameError::LeadingDigit);
    }
    if !may_open_name(first) {
        return Err(NameError::InvalidStart(first));
    }
    let mut i: usize = 1;
    while i < v.len()
        invariant
            v@ == name@,
            1 <= i <= v.len(),
            !is_decimal_digit(v@[0]),
            opens_name(v@[0]),
            forall|j: int| 1 <= j < i ==> continues_name(v@[j]),
        decreases v.len() - i,
    {
        if !may_continue_name(v[i]) {
            proof {
                assert(is_first_bad(name@, i as int));
                lemma_first_bad_unique(name@, i as int);
            }
            return Err(NameError::InvalidCharacter(v[i]));
        }
        i += 1;
    }
    Ok(())
}

} // verus!

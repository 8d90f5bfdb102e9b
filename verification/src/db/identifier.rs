//! The rule that every unquoted name in a migration must follow.
use crate::text::{all_identifier_chars, has_only_identifier_chars};
use vstd::prelude::*;
use vstd::string::*;

verus! {

/// Why a name cannot be used as an identifier.
#[derive(Debug, Clone, Copy, PartialEq, Eq)]
pub enum IdentifierFault {
    /// The name is empty.
    Empty,
    /// The name holds a character other than an ASCII letter, an ASCII digit
    /// or an underscore.
    InvalidCharacter,
}

/// The first rule that `name` breaks, if any: it must not be empty, and
/// each of its characters must be an ASCII letter, an ASCII digit or `_`.
pub open spec fn identifier_fault_of(name: Seq<char>) -> Option<IdentifierFault> {
    if name.len() == 0 {
        Some(IdentifierFault::Empty)
    } else if !all_identifier_chars(name) {
        Some(IdentifierFault::InvalidCharacter)
    } else {
        None
    }
}

/// `name` may be used as an identifier.
pub open spec fn is_valid_identifier(name: Seq<char>) -> bool {
    identifier_fault_of(name) is None
}

/// Checks `name` against the identifier rule.
pub fn identifier_fault(name: &str) -> (r: Option<IdentifierFault>)
    ensures
        r == identifier_fault_of(name@),
{
    if name.unicode_len() == 0 {
        Some(IdentifierFault::Empty)
    } else if !has_only_identifier_chars(name) {
        Some(IdentifierFault::InvalidCharacter)
    } else {
        None
    }
}

/// The first of `names` that is not a valid identifier, if any.
pub open spec fn first_invalid_identifier(names: Seq<Seq<char>>) -> Option<Seq<char>>
    decreases names.len(),
{
    if names.len() == 0 {
        None
    } else if !is_valid_identifier(names[0]) {
        Some(names[0])
    } else {
        first_invalid_identifier(names.drop_first())
    }
}

/// Lemma: the first invalid name of two lists written one after the other
/// is the first of the first list, or else the first of the second.
pub proof fn lemma_first_invalid_append(a: Seq<Seq<char>>, b: Seq<Seq<char>>)
    ensures
        first_invalid_identifier(a + b) == if first_invalid_identifier(a) is Some {
            first_invalid_identifier(a)
        } else {
            first_invalid_identifier(b)
        },
    decreases a.len(),
{
    if a.len() > 0 {
        assert((a + b).drop_first() =~= a.drop_first() + b);
        assert((a + b)[0] == a[0]);
        lemma_first_invalid_append(a.drop_first(), b);
    } else {
        assert(a + b =~= b);
    }
}

/// Lemma: the first invalid name of a list of two, three, four or five names.
pub proof fn lemma_first_invalid_short(names: Seq<Seq<char>>)
    requires
        names.len() <= 5,
    ensures
        first_invalid_identifier(names) == if names.len() == 0 {
            None
        } else if !is_valid_identifier(names[0]) {
            Some(names[0])
        } else if names.len() == 1 {
            None
        } else if !is_valid_identifier(names[1]) {
            Some(names[1])
        } else if names.len() == 2 {
            None
        } else if !is_valid_identifier(names[2]) {
            Some(names[2])
        } else if names.len() == 3 {
            None
        } else if !is_valid_identifier(names[3]) {
            Some(names[3])
        } else if names.len() == 4 {
            None
        } else if !is_valid_identifier(names[4]) {
            Some(names[4])
        } else {
            None
        },
{
    reveal_with_fuel(first_invalid_identifier, 6);
    if names.len() > 0 {
        let n1 = names.drop_first();
        if n1.len() > 0 {
            let n2 = n1.drop_first();
            if n2.len() > 0 {
                let n3 = n2.drop_first();
                if n3.len() > 0 {
                    let n4 = n3.drop_first();
                    if n4.len() > 0 {
                        assert(n4.drop_first().len() == 0);
                    }
                }
            }
        }
    }
}

/// Lemma: a list of names has no first invalid name exactly when every name
/// in it is valid, and the first invalid name is an invalid name of the list.
pub proof fn lemma_first_invalid_identifier(names: Seq<Seq<char>>)
    ensures
        first_invalid_identifier(names) is None <==> forall|i: int|
            0 <= i < names.len() ==> is_valid_identifier(#[trigger] names[i]),
        first_invalid_identifier(names) matches Some(bad) ==> !is_valid_identifier(bad)
            && names.contains(bad),
    decreases names.len(),
{
    if names.len() > 0 {
        let rest = names.drop_first();
        lemma_first_invalid_identifier(rest);
        if is_valid_identifier(names[0]) {
            assert forall|i: int|
                0 <= i < names.len() && (forall|j: int|
                    0 <= j < rest.len() ==> is_valid_identifier(#[trigger] rest[j])) implies is_valid_identifier(
                names[i],
            ) by {
                if i > 0 {
                    assert(names[i] == rest[i - 1]);
                }
            }
            if let Some(bad) = first_invalid_identifier(rest) {
                let k = choose|k: int| 0 <= k < rest.len() && rest[k] == bad;
                assert(names[k + 1] == bad);
            } else {
                assert forall|j: int| 0 <= j < rest.len() implies is_valid_identifier(#[trigger] rest[j]) by {
                    assert(rest[j] == names[j + 1]);
                }
            }
        } else {
            assert(names[0] == names[0]);
        }
    }
}

} // verus!

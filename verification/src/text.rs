use vstd::prelude::*;
use vstd::string::*;

verus! {

/// Compares a stored text value with an expected one, character by character.
pub fn text_eq(value: &str, expected: &str) -> (r: bool)
    ensures
        r == (value@ == expected@),
{
    let a = String::from_str(value);
    let b = String::from_str(expected);
    a == b
}

/// Whether a text value is empty.
pub fn text_is_empty(value: &str) -> (r: bool)
    ensures
        r == (value@.len() == 0),
{
    value.is_empty()
}

/// Compares two byte strings.
pub fn bytes_eq(a: &[u8], b: &[u8]) -> (r: bool)
    ensures
        r == (a@ == b@),
{
    if a.len() != b.len() {
        return false;
    }
    let mut i: usize = 0;
    while i < a.len()
        invariant
            a@.len() == b@.len(),
            i <= a@.len(),
            forall|j: int| 0 <= j < i ==> a@[j] == b@[j],
        decreases a@.len() - i,
    {
        if a[i] != b[i] {
            return false;
        }
        i = i + 1;
    }
    assert(a@ =~= b@);
    true
}

} // verus!

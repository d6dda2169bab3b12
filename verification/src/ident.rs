//! Identifier validation: extracting the catalog identifier from free-form
//! user input.
//!
//! A catalog identifier is two lowercase ASCII letters followed by one or
//! more ASCII digits. Given arbitrary text, the validator returns the first
//! such substring (leftmost start, digits extended as far as they run), the
//! canonical storage-eligible form.

use vstd::prelude::*;

use crate::errors::ServiceError;

verus! {

/// A lowercase ASCII letter.
pub open spec fn is_lower_letter(c: char) -> bool {
    'a' <= c && c <= 'z'
}

/// An ASCII digit.
pub open spec fn is_ascii_digit(c: char) -> bool {
    '0' <= c && c <= '9'
}

/// A catalog identifier begins at position `i` of `s`: two lowercase
/// letters followed by at least one digit.
pub open spec fn match_starts_at(s: Seq<char>, i: int) -> bool {
    &&& 0 <= i
    &&& i + 2 < s.len()
    &&& is_lower_letter(s[i])
    &&& is_lower_letter(s[i + 1])
    &&& is_ascii_digit(s[i + 2])
}

/// No catalog identifier occurs anywhere in `s`.
pub open spec fn no_match(s: Seq<char>) -> bool {
    forall|i: int| !match_starts_at(s, i)
}

/// `s[i..e]` is the extracted identifier: `i` is the leftmost position
/// where an identifier begins, and `e` extends the digit run as far as it
/// goes (so the identifier is `s[i]`, `s[i+1]`, then the maximal run of
/// digits).
pub open spec fn is_extraction(s: Seq<char>, i: int, e: int) -> bool {
    &&& match_starts_at(s, i)
    &&& forall|j: int| 0 <= j < i ==> !match_starts_at(s, j)
    &&& i + 3 <= e <= s.len()
    &&& forall|k: int| i + 2 <= k < e ==> is_ascii_digit(s[k])
    &&& (e == s.len() || !is_ascii_digit(s[e]))
}

fn lower_letter(c: char) -> (b: bool)
    ensures
        b == is_lower_letter(c),
{
    'a' <= c && c <= 'z'
}

fn ascii_digit(c: char) -> (b: bool)
    ensures
        b == is_ascii_digit(c),
{
    '0' <= c && c <= '9'
}

/// Extract the first catalog identifier from `input`.
///
/// Returns the leftmost substring of the form "two lowercase ASCII letters
/// followed by one or more ASCII digits", with the digit run taken as long
/// as possible; fails with `ServiceError::Validation` when `input` holds no
/// such substring.
pub fn extract_catalog_id(input: &str) -> (r: Result<String, ServiceError>)
    ensures
        match r {
            Ok(id) => exists|i: int, e: int| is_extraction(input@, i, e) && id@ == input@.subrange(
                i,
                e,
            ),
            Err(err) => err == ServiceError::Validation && no_match(input@),
        },
{
    let n = input.unicode_len();
    let mut i: usize = 0;
    let mut found: bool = false;
    while i < n && !found
        invariant
            n == input@.len(),
            i <= n,
            !found ==> forall|j: int| 0 <= j < i ==> !match_starts_at(input@, j),
            found ==> i < n && match_starts_at(input@, i as int) && forall|j: int|
                0 <= j < i ==> !match_starts_at(input@, j),
        decreases n - i + if found {
            0int
        } else {
            1int
        },
    {
        if n - i > 2 && lower_letter(input.get_char(i)) && lower_letter(input.get_char(i + 1))
            && ascii_digit(input.get_char(i + 2)) {
            found = true;
        } else {
            i = i + 1;
        }
    }
    if !found {
        assert(forall|j: int| !match_starts_at(input@, j)) by {
            assert(forall|j: int| 0 <= j < n ==> !match_starts_at(input@, j));
        }
        return Err(ServiceError::Validation);
    }
    let mut e: usize = i + 3;
    while e < n && ascii_digit(input.get_char(e))
        invariant
            n == input@.len(),
            match_starts_at(input@, i as int),
            i + 3 <= e <= n,
            forall|k: int| i + 2 <= k < e ==> is_ascii_digit(input@[k]),
        decreases n - e,
    {
        e = e + 1;
    }
    let id = input.substring_char(i, e);
    assert(is_extraction(input@, i as int, e as int));
    Ok(id.to_owned())
}

} // verus!

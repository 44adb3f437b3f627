//! Identifiers of threads and messages: new ones, and the short form that is shown.

use vstd::prelude::*;
use crate::domain::text::{chars_of, slice_chars, string_of};

verus! {

/// The number of characters of an identifier: 32 hexadecimal digits and 4 hyphens.
pub const ID_LENGTH: usize = 36;

/// The number of characters of an identifier that a line shows.
pub const SHORT_ID_LEN: usize = 8;

/// The first `SHORT_ID_LEN` characters of an identifier, or all of a shorter one.
pub open spec fn short_id(id: Seq<char>) -> Seq<char> {
    if id.len() <= SHORT_ID_LEN {
        id
    } else {
        id.take(SHORT_ID_LEN as int)
    }
}

/// `uuid::Uuid::new_v4` and `<Uuid as Display>::fmt`: a random 128-bit identifier in
/// its hyphenated lower-case form, which has 36 characters. Which identifier comes
/// is a matter of chance; only its length is claimed.
#[verifier::external_body]
pub(crate) fn random_id() -> (id: String)
    ensures
        id@.len() == ID_LENGTH,
{
    uuid::Uuid::new_v4().to_string()
}

/// A new identifier.
pub fn new_id() -> (id: String)
    ensures
        id@.len() == ID_LENGTH,
{
    random_id()
}

/// The first `SHORT_ID_LEN` characters of an identifier, or all of a shorter one.
pub fn shorten_id(id: &str) -> (r: String)
    ensures
        r@ == short_id(id@),
{
    let v = chars_of(id);
    if v.len() <= SHORT_ID_LEN {
        String::from_str(id)
    } else {
        let head = slice_chars(&v, 0, SHORT_ID_LEN);
        string_of(&head)
    }
}

} // verus!

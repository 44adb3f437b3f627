//! The bounds that content must keep before it is handed to the engine.

use vstd::prelude::*;
use crate::domain::text::{chars_of, decimal, decimal_digits};

verus! {

/// The most bytes that the content of one message may have: one mebibyte.
pub const MAX_CONTENT_SIZE: usize = 1_048_576;

/// Why content is refused.
#[derive(Debug, Clone, Copy, PartialEq, Eq, Structural)]
pub enum ContentError {
    /// It has this many bytes, which is more than the bound.
    TooLarge(usize),
    /// It holds a NUL.
    ContainsNul,
}

/// Where the content came from, which decides the wording of a refusal.
#[derive(Debug, Clone, Copy, PartialEq, Eq, Structural)]
pub enum ContentOrigin {
    /// It was given as an argument.
    Argument,
    /// It was read from standard input.
    Input,
}

impl ContentError {
    /// The message of the refusal.
    pub open spec fn text(&self, origin: ContentOrigin) -> Seq<char> {
        match (self, origin) {
            (ContentError::TooLarge(n), ContentOrigin::Argument) => "内容が 1MB の上限を超えています（"@
                + decimal_digits(*n as nat) + " バイト）"@,
            (ContentError::TooLarge(n), ContentOrigin::Input) => "入力が 1MB の上限を超えています（"@
                + decimal_digits(*n as nat) + " バイト）"@,
            (ContentError::ContainsNul, ContentOrigin::Argument) => "内容に NUL バイトが含まれています"@,
            (ContentError::ContainsNul, ContentOrigin::Input) => "入力に NUL バイトが含まれています"@,
        }
    }

    /// The message of the refusal.
    pub fn message(&self, origin: ContentOrigin) -> (s: String)
        ensures
            s@ == self.text(origin),
    {
        match self {
            ContentError::TooLarge(n) => {
                let mut s = match origin {
                    ContentOrigin::Argument => String::from_str("内容が 1MB の上限を超えています（"),
                    ContentOrigin::Input => String::from_str("入力が 1MB の上限を超えています（"),
                };
                let count = decimal(*n);
                s.append(count.as_str());
                s.append(" バイト）");
                s
            },
            ContentError::ContainsNul => match origin {
                ContentOrigin::Argument => String::from_str("内容に NUL バイトが含まれています"),
                ContentOrigin::Input => String::from_str("入力に NUL バイトが含まれています"),
            },
        }
    }
}

/// The number of bytes of a text in UTF-8.
pub open spec fn byte_size(s: Seq<char>) -> nat {
    (vstd::utf8::encode_utf8(s).len() as usize) as nat
}

/// What checking content of `size` bytes answers, given whether it holds a NUL: the
/// size is judged first.
pub open spec fn content_verdict(size: nat, has_nul: bool) -> Result<(), ContentError> {
    if size > MAX_CONTENT_SIZE {
        Err(ContentError::TooLarge(size as usize))
    } else if has_nul {
        Err(ContentError::ContainsNul)
    } else {
        Ok(())
    }
}

/// Whether `content` keeps the bounds: at most `MAX_CONTENT_SIZE` bytes in UTF-8,
/// and no NUL character.
pub fn validate_content(content: &str) -> (r: Result<(), ContentError>)
    ensures
        r == content_verdict(byte_size(content@), content@.contains('\0')),
{
    let size = content.len();
    if size > MAX_CONTENT_SIZE {
        return Err(ContentError::TooLarge(size));
    }
    let v = chars_of(content);
    let mut i: usize = 0;
    while i < v.len()
        invariant
            i <= v.len(),
            v@ == content@,
            byte_size(content@) <= MAX_CONTENT_SIZE,
            forall|k: int| 0 <= k < i ==> v@[k] != '\0',
        decreases v.len() - i,
    {
        if v[i] == '\0' {
            assert(content@[i as int] == '\0');
            return Err(ContentError::ContainsNul);
        }
        i += 1;
    }
    Ok(())
}

/// Whether bytes that were read as input keep the bounds: at most
/// `MAX_CONTENT_SIZE` of them, and no zero byte.
pub fn validate_input(bytes: &[u8]) -> (r: Result<(), ContentError>)
    ensures
        r == content_verdict(bytes@.len(), bytes@.contains(0u8)),
{
    let size = bytes.len();
    if size > MAX_CONTENT_SIZE {
        return Err(ContentError::TooLarge(size));
    }
    let mut i: usize = 0;
    while i < bytes.len()
        invariant
            i <= bytes@.len(),
            bytes@.len() <= MAX_CONTENT_SIZE,
            forall|k: int| 0 <= k < i ==> bytes@[k] != 0u8,
        decreases bytes@.len() - i,
    {
        if bytes[i] == 0 {
            assert(bytes@[i as int] == 0u8);
            return Err(ContentError::ContainsNul);
        }
        i += 1;
    }
    Ok(())
}

} // verus!

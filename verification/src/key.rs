//! The private key of an interface: a validated, opaque piece of text.

use vstd::prelude::*;
use vstd::string::StrSliceExecFns;
use vstd::string::StringExecFns;
use crate::error::WgConfError;
use crate::error::WgConfErrorView;

verus! {

/// Number of characters in the text of a key: 32 bytes in base64, padding included.
pub const KEY_TEXT_LEN: usize = 44;

/// Whether `c` belongs to the base64 alphabet.
pub open spec fn is_base64_char(c: char) -> bool {
    ||| ('A' <= c && c <= 'Z')
    ||| ('a' <= c && c <= 'z')
    ||| ('0' <= c && c <= '9')
    ||| c == '+'
    ||| c == '/'
}

/// Whether `c` is a base64 character whose two lowest bits are zero.
///
/// Thirty-two bytes fill forty-two characters and four bits of the next, so the last
/// character before the padding must leave its two lowest bits unused. In the alphabet
/// those are the characters at positions 0, 4, 8, ..., 60.
pub open spec fn is_final_base64_char(c: char) -> bool {
    ||| c == 'A' || c == 'E' || c == 'I' || c == 'M' || c == 'Q' || c == 'U' || c == 'Y'
    ||| c == 'c' || c == 'g' || c == 'k' || c == 'o' || c == 's' || c == 'w'
    ||| c == '0' || c == '4' || c == '8'
}

/// Whether the character `c` may stand at position `i` of a key's text.
pub open spec fn is_key_char_at(i: int, c: char) -> bool {
    if i < 42 {
        is_base64_char(c)
    } else if i == 42 {
        is_final_base64_char(c)
    } else {
        c == '='
    }
}

/// Whether `text` is the canonical base64 encoding of some 32 bytes.
pub open spec fn is_key_text(text: Seq<char>) -> bool {
    &&& text.len() == KEY_TEXT_LEN
    &&& forall|i: int| 0 <= i < text.len() ==> is_key_char_at(i, #[trigger] text[i])
}

/// What reading `text` as a key gives: the key's text, or the reason for refusing it.
pub open spec fn key_of_text(text: Seq<char>) -> Result<Seq<char>, WgConfErrorView> {
    if text.len() != KEY_TEXT_LEN {
        Err(WgConfErrorView::KeyWrongLength)
    } else if !is_key_text(text) {
        Err(WgConfErrorView::KeyInvalidEncoding)
    } else {
        Ok(text)
    }
}

/// A private key, held as its canonical text. Every value of this type is a valid key.
#[derive(Debug, PartialEq, Eq)]
pub struct WgPrivateKey {
    text: String,
}

impl View for WgPrivateKey {
    type V = Seq<char>;

    closed spec fn view(&self) -> Seq<char> {
        self.text@
    }
}

impl Clone for WgPrivateKey {
    fn clone(&self) -> (key: WgPrivateKey)
        ensures
            key@ == self@,
    {
        proof {
            use_type_invariant(self);
        }
        WgPrivateKey { text: self.text.clone() }
    }
}

/// Decides whether `c` may stand at position `i` of a key's text.
fn key_char_allowed(i: usize, c: char) -> (allowed: bool)
    ensures
        allowed == is_key_char_at(i as int, c),
{
    if i < 42 {
        ('A' <= c && c <= 'Z') || ('a' <= c && c <= 'z') || ('0' <= c && c <= '9') || c == '+'
            || c == '/'
    } else if i == 42 {
        c == 'A' || c == 'E' || c == 'I' || c == 'M' || c == 'Q' || c == 'U' || c == 'Y'
            || c == 'c' || c == 'g' || c == 'k' || c == 'o' || c == 's' || c == 'w' || c == '0'
            || c == '4' || c == '8'
    } else {
        c == '='
    }
}

impl WgPrivateKey {
    /// Whether the key's text is a valid encoding. Holds of every key that exists.
    #[verifier::type_invariant]
    pub open spec fn wf(&self) -> bool {
        is_key_text(self@)
    }

    /// Reads a key from its text.
    ///
    /// Text of any other length than 44 characters is refused as
    /// [`WgConfError::KeyWrongLength`], text of that length that is not a canonical
    /// encoding as [`WgConfError::KeyInvalidEncoding`].
    pub fn parse(text: &str) -> (r: Result<WgPrivateKey, WgConfError>)
        ensures
            match r {
                Ok(key) => key.wf() && key_of_text(text@) == Ok::<Seq<char>, WgConfErrorView>(key@),
                Err(e) => key_of_text(text@) == Err::<Seq<char>, WgConfErrorView>(e@),
            },
    {
        if text.unicode_len() != KEY_TEXT_LEN {
            return Err(WgConfError::KeyWrongLength);
        }
        let mut i: usize = 0;
        for c in it: text.chars()
            invariant
                it.seq() == text@,
                text@.len() == KEY_TEXT_LEN,
                i == it.index(),
                forall|j: int| 0 <= j < i ==> is_key_char_at(j, #[trigger] text@[j]),
        {
            if !key_char_allowed(i, c) {
                return Err(WgConfError::KeyInvalidEncoding);
            }
            i = i + 1;
        }
        Ok(WgPrivateKey { text: String::from_str(text) })
    }

    /// The canonical text of the key, which reads back as the same key.
    pub fn to_string(&self) -> (text: String)
        ensures
            text@ == self@,
            key_of_text(text@) == Ok::<Seq<char>, WgConfErrorView>(self@),
    {
        proof {
            use_type_invariant(self);
        }
        self.text.clone()
    }
}

} // verus!

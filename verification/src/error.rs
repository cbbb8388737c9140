//! Errors reported while building a configuration section.

use vstd::prelude::*;

verus! {

/// Why a section could not be built.
#[derive(Debug, PartialEq, Eq)]
pub enum WgConfError {
    /// A field value broke one of the section's rules; the text says which.
    ValidationFailed(String),
    /// The private key text does not have the length of an encoded key.
    KeyWrongLength,
    /// The private key text has the right length but is not a canonical encoding.
    KeyInvalidEncoding,
}

/// Mathematical value of a [`WgConfError`].
pub enum WgConfErrorView {
    ValidationFailed(Seq<char>),
    KeyWrongLength,
    KeyInvalidEncoding,
}

impl View for WgConfError {
    type V = WgConfErrorView;

    open spec fn view(&self) -> WgConfErrorView {
        match self {
            WgConfError::ValidationFailed(reason) => WgConfErrorView::ValidationFailed(reason@),
            WgConfError::KeyWrongLength => WgConfErrorView::KeyWrongLength,
            WgConfError::KeyInvalidEncoding => WgConfErrorView::KeyInvalidEncoding,
        }
    }
}

impl Clone for WgConfError {
    fn clone(&self) -> (e: WgConfError)
        ensures
            e@ == self@,
    {
        match self {
            WgConfError::ValidationFailed(reason) => WgConfError::ValidationFailed(reason.clone()),
            WgConfError::KeyWrongLength => WgConfError::KeyWrongLength,
            WgConfError::KeyInvalidEncoding => WgConfError::KeyInvalidEncoding,
        }
    }
}

impl WgConfError {
    /// Builds a validation failure carrying `reason`.
    pub fn validation_failed(reason: &str) -> (e: WgConfError)
        ensures
            e@ == WgConfErrorView::ValidationFailed(reason@),
    {
        WgConfError::ValidationFailed(String::from_str(reason))
    }
}

} // verus!

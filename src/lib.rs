//! Developer utilities: timestamp conversion with fixed UTC offsets, Base64 and
//! URL encoding, and conversion between structured data formats.

pub mod base64_codec;
pub mod data_formats;
pub mod decimal;
pub mod offsets;
pub mod time_converter;
pub mod url_codec;

use vstd::prelude::*;

verus! {

/// The page shown in the context drawer.
#[derive(Clone, Copy, Debug, PartialEq, Eq, Structural)]
pub enum ContextPage {
    About,
}

impl Default for ContextPage {
    fn default() -> (r: Self)
        ensures
            r == ContextPage::About,
    {
        ContextPage::About
    }
}

} // verus!

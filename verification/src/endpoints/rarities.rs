//! The list of all rarities.

use crate::endpoints::{build_list_url, list_url};
use vstd::prelude::*;

verus! {

/// The name of the resource in a URL.
pub const OBJECT_NAME: &'static str = "rarities";

/// The URL under which the list of all rarities is read in the language
/// `lang`.
pub fn url(lang: &str) -> (url: String)
    ensures
        url@ == list_url(lang@, OBJECT_NAME@),
{
    build_list_url(lang, OBJECT_NAME)
}

} // verus!

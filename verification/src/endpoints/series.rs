//! Series: groups of sets.

use crate::endpoints::sets::SetBrief;
use crate::endpoints::{build_query_url, query_url};
use crate::is_empty::IsEmpty;
use crate::query::Query;
use vstd::prelude::*;

verus! {

/// The name of the resource in a URL.
pub const OBJECT_NAME: &'static str = "series";

/// Brief information about the serie.
#[derive(Debug, PartialEq, Eq)]
pub struct SerieBrief {
    /// Unique identifier for the object.
    pub id: String,
    /// The name of the serie.
    pub name: String,
    /// The url to the logo image.
    pub logo: String,
}

impl SerieBrief {
    /// Whether every field holds the value it has when nothing was filled in.
    pub open spec fn blank(&self) -> bool {
        self.id@.len() == 0 && self.name@.len() == 0 && self.logo@.len() == 0
    }
}

impl Default for SerieBrief {
    fn default() -> (r: SerieBrief)
        ensures
            r.blank(),
    {
        SerieBrief { id: String::new(), name: String::new(), logo: String::new() }
    }
}

/// Information about the serie.
#[derive(Debug, PartialEq, Eq)]
pub struct Serie {
    /// Unique identifier for the object.
    pub id: String,
    /// The name of the serie.
    pub name: String,
    /// The url to the logo image.
    pub logo: String,
    /// The list of sets linked to this serie.
    pub sets: Vec<SetBrief>,
}

impl Serie {
    /// Whether every field holds the value it has when nothing was filled in.
    pub open spec fn blank(&self) -> bool {
        &&& self.id@.len() == 0
        &&& self.name@.len() == 0
        &&& self.logo@.len() == 0
        &&& self.sets@.len() == 0
    }
}

impl Default for Serie {
    fn default() -> (r: Serie)
        ensures
            r.blank(),
            r.is_empty_spec(),
    {
        Serie { id: String::new(), name: String::new(), logo: String::new(), sets: Vec::new() }
    }
}

impl IsEmpty for Serie {
    /// A serie carries nothing when it has neither a name nor an id.
    open spec fn is_empty_spec(&self) -> bool {
        self.name@.len() == 0 && self.id@.len() == 0
    }

    fn is_empty(&self) -> (b: bool) {
        self.name.as_str().is_empty() && self.id.as_str().is_empty()
    }
}

impl IsEmpty for Vec<SerieBrief> {
    /// A list carries nothing when it has no entry.
    open spec fn is_empty_spec(&self) -> bool {
        self@.len() == 0
    }

    fn is_empty(&self) -> (b: bool) {
        self.len() == 0
    }
}

/// The URL under which series are read in the language `lang`: the one that
/// `query` selects, or the list of all series without one.
pub fn url(lang: &str, query: Option<&Query>) -> (url: String)
    ensures
        url@ == query_url(
            lang@,
            OBJECT_NAME@,
            match query {
                Some(q) => q@.render(),
                None => Seq::<char>::empty(),
            },
        ),
{
    let rendered = match query {
        Some(q) => q.to_string(),
        None => String::new(),
    };
    build_query_url(lang, OBJECT_NAME, rendered.as_str())
}

} // verus!

//! Sets: groups of cards.

use crate::endpoints::cards::CardBrief;
use crate::endpoints::series::SerieBrief;
use crate::endpoints::{build_query_url, query_url};
use crate::is_empty::IsEmpty;
use crate::query::Query;
use vstd::prelude::*;

verus! {

/// The name of the resource in a URL.
pub const OBJECT_NAME: &'static str = "sets";

/// Contain brief information about the number of cards in the set
#[derive(Debug, PartialEq, Eq, Clone, Copy)]
pub struct CardCountBrief {
    /// The total amount of cards in set including hidden.
    pub total: u16,
    /// The amount of cards in set.
    pub official: u16,
}

impl CardCountBrief {
    /// Whether every count is zero.
    pub open spec fn blank(&self) -> bool {
        self.total == 0 && self.official == 0
    }
}

impl Default for CardCountBrief {
    fn default() -> (r: CardCountBrief)
        ensures
            r.blank(),
    {
        CardCountBrief { total: 0, official: 0 }
    }
}

/// Contain information about the number of cards in the set.
#[derive(Debug, PartialEq, Eq, Clone, Copy)]
pub struct CardCount {
    /// The total amount of cards in set including hidden.
    pub total: u16,
    /// The amount of cards in set.
    pub official: u16,
    /// The amount of cards in this set that can be found in reverse holo.
    pub reverse: u16,
    /// The amount of cards in this set that can be found in holo.
    pub holo: u16,
    /// The amount of cards in this set that can be found with the firstEdition Tag.
    pub first_ed: u16,
}

impl CardCount {
    /// Whether every count is zero.
    pub open spec fn blank(&self) -> bool {
        &&& self.total == 0
        &&& self.official == 0
        &&& self.reverse == 0
        &&& self.holo == 0
        &&& self.first_ed == 0
    }
}

impl Default for CardCount {
    fn default() -> (r: CardCount)
        ensures
            r.blank(),
    {
        CardCount { total: 0, official: 0, reverse: 0, holo: 0, first_ed: 0 }
    }
}

/// Set usability in competitions.
#[derive(Debug, PartialEq, Eq, Clone, Copy)]
pub struct Legal {
    /// Ability to use this set in standard competitions.
    pub standard: bool,
    /// Ability to use this set in expanded competitions.
    pub expanded: bool,
}

impl Legal {
    /// Whether the set is usable nowhere.
    pub open spec fn blank(&self) -> bool {
        !self.standard && !self.expanded
    }
}

impl Default for Legal {
    fn default() -> (r: Legal)
        ensures
            r.blank(),
    {
        Legal { standard: false, expanded: false }
    }
}

/// Contains a brief set representation.
#[derive(Debug, PartialEq, Eq)]
pub struct SetBrief {
    /// Unique identifier for the object.
    pub id: String,
    /// The name of the set.
    pub name: String,
    /// The url to the logo image.
    pub logo: String,
    /// The url to the symbol image.
    pub symbol: String,
    /// Number of cards in the set.
    pub card_count: CardCountBrief,
}

impl SetBrief {
    /// Whether every field holds the value it has when nothing was filled in.
    pub open spec fn blank(&self) -> bool {
        &&& self.id@.len() == 0
        &&& self.name@.len() == 0
        &&& self.logo@.len() == 0
        &&& self.symbol@.len() == 0
        &&& self.card_count.blank()
    }
}

impl Default for SetBrief {
    fn default() -> (r: SetBrief)
        ensures
            r.blank(),
    {
        SetBrief {
            id: String::new(),
            name: String::new(),
            logo: String::new(),
            symbol: String::new(),
            card_count: CardCountBrief::default(),
        }
    }
}

/// Contains set Data.
#[derive(Debug, PartialEq, Eq)]
pub struct CardSet {
    /// Unique identifier for the object.
    pub id: String,
    /// The name of the set.
    pub name: String,
    /// The url to the logo image.
    pub logo: String,
    /// The url to the symbol image.
    pub symbol: String,
    /// Number of cards in the set.
    pub card_count: CardCount,
    /// Information about the serie.
    pub serie: SerieBrief,
    /// Pokémon TCG Online Set code.
    pub tcg_online: String,
    /// The set release date in the form yyyy-mm-dd.
    pub release_date: String,
    /// Set usability in competitions.
    pub legal: Legal,
    /// List of cards in this set.
    pub cards: Vec<CardBrief>,
}

impl CardSet {
    /// Whether every field holds the value it has when nothing was filled in.
    pub open spec fn blank(&self) -> bool {
        &&& self.id@.len() == 0
        &&& self.name@.len() == 0
        &&& self.logo@.len() == 0
        &&& self.symbol@.len() == 0
        &&& self.card_count.blank()
        &&& self.serie.blank()
        &&& self.tcg_online@.len() == 0
        &&& self.release_date@.len() == 0
        &&& self.legal.blank()
        &&& self.cards@.len() == 0
    }
}

impl Default for CardSet {
    fn default() -> (r: CardSet)
        ensures
            r.blank(),
            r.is_empty_spec(),
    {
        CardSet {
            id: String::new(),
            name: String::new(),
            logo: String::new(),
            symbol: String::new(),
            card_count: CardCount::default(),
            serie: SerieBrief::default(),
            tcg_online: String::new(),
            release_date: String::new(),
            legal: Legal::default(),
            cards: Vec::new(),
        }
    }
}

impl IsEmpty for CardSet {
    /// A set carries nothing when it has neither a name nor an id.
    open spec fn is_empty_spec(&self) -> bool {
        self.name@.len() == 0 && self.id@.len() == 0
    }

    fn is_empty(&self) -> (b: bool) {
        self.name.as_str().is_empty() && self.id.as_str().is_empty()
    }
}

impl IsEmpty for Vec<SetBrief> {
    /// A list carries nothing when it has no entry.
    open spec fn is_empty_spec(&self) -> bool {
        self@.len() == 0
    }

    fn is_empty(&self) -> (b: bool) {
        self.len() == 0
    }
}

/// The URL under which sets are read in the language `lang`: the one that
/// `query` selects, or the list of all sets without one.
pub fn url(lang: &str, query: Option<&Query>) -> (url: String)
    ensures
        url@ == query_url(
            lang@,
            OBJECT_NAME@,
            match query {
                Some(q) => q@.render(),
                None => Seq::<char>::empty(),
            },
        ),
{
    let rendered = match query {
        Some(q) => q.to_string(),
        None => String::new(),
    };
    build_query_url(lang, OBJECT_NAME, rendered.as_str())
}

} // verus!

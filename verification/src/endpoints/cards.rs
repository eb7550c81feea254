//! Cards.

use crate::endpoints::sets::SetBrief;
use crate::endpoints::{build_query_url, query_url};
use crate::is_empty::IsEmpty;
use crate::query::Query;
use vstd::prelude::*;

verus! {

/// The name of the resource in a URL.
pub const OBJECT_NAME: &'static str = "cards";

/// The variants a card is available in.
#[derive(Debug, PartialEq, Eq)]
pub struct Variants {
    /// Card available without any shines.
    pub normal: bool,
    /// Card available in Reverse.
    pub reverse: bool,
    /// Card available in Holo.
    pub holo: bool,
    /// Card has a small 1st edition in the middle left.
    pub first_edition: bool,
}

impl Variants {
    /// Whether the card is available in no variant.
    pub open spec fn blank(&self) -> bool {
        !self.normal && !self.reverse && !self.holo && !self.first_edition
    }
}

impl Default for Variants {
    fn default() -> (r: Variants)
        ensures
            r.blank(),
    {
        Variants { normal: false, reverse: false, holo: false, first_edition: false }
    }
}

/// An attack of a Pokémon.
#[derive(Debug, PartialEq, Eq)]
pub struct Attack {
    /// The name of the attack.
    pub name: String,
    /// The effect of the attack.
    pub effect: String,
    /// The damages of the attack.
    pub damage: u16,
}

impl Attack {
    /// Whether every field holds the value it has when nothing was filled in.
    pub open spec fn blank(&self) -> bool {
        self.name@.len() == 0 && self.effect@.len() == 0 && self.damage == 0
    }
}

impl Default for Attack {
    fn default() -> (r: Attack)
        ensures
            r.blank(),
    {
        Attack { name: String::new(), effect: String::new(), damage: 0 }
    }
}

/// An item of a Pokémon.
#[derive(Debug, PartialEq, Eq)]
pub struct Item {
    /// The Item name.
    pub name: String,
    /// The Item effect.
    pub effect: String,
}

impl Item {
    /// Whether every field holds the value it has when nothing was filled in.
    pub open spec fn blank(&self) -> bool {
        self.name@.len() == 0 && self.effect@.len() == 0
    }
}

impl Default for Item {
    fn default() -> (r: Item)
        ensures
            r.blank(),
    {
        Item { name: String::new(), effect: String::new() }
    }
}

/// A weakness of a Pokémon.
#[derive(Debug, PartialEq, Eq)]
pub struct Weakness {
    /// The weakness type.
    pub _type: String,
    /// The weakness value.
    pub value: String,
}

impl Weakness {
    /// Whether every field holds the value it has when nothing was filled in.
    pub open spec fn blank(&self) -> bool {
        self._type@.len() == 0 && self.value@.len() == 0
    }
}

impl Default for Weakness {
    fn default() -> (r: Weakness)
        ensures
            r.blank(),
    {
        Weakness { _type: String::new(), value: String::new() }
    }
}

/// Contains a brief card representation.
#[derive(Debug, PartialEq, Eq)]
pub struct CardBrief {
    /// Unique identifier for the object.
    pub id: String,
    /// Card local ID.
    pub local_id: String,
    /// The name of the card.
    pub name: String,
    /// The url to the card image.
    pub image: String,
}

impl CardBrief {
    /// Whether every field holds the value it has when nothing was filled in.
    pub open spec fn blank(&self) -> bool {
        &&& self.id@.len() == 0
        &&& self.local_id@.len() == 0
        &&& self.name@.len() == 0
        &&& self.image@.len() == 0
    }
}

impl Default for CardBrief {
    fn default() -> (r: CardBrief)
        ensures
            r.blank(),
    {
        CardBrief {
            id: String::new(),
            local_id: String::new(),
            name: String::new(),
            image: String::new(),
        }
    }
}

/// Contains card data.
#[derive(Debug, PartialEq, Eq)]
pub struct Card {
    /// Unique identifier for the object.
    pub id: String,
    /// Card local ID.
    pub local_id: String,
    /// The name of the card.
    pub name: String,
    /// The url to the card image.
    pub image: String,
    /// Card category.
    pub category: String,
    /// Card illustrator.
    pub illustrator: String,
    /// Card rarity.
    pub rarity: String,
    /// The possible variants of this card.
    pub variants: Variants,
    /// Basic information about the card set.
    pub set: SetBrief,
    /// The National Pokedex ID of the Pokémon on the card.
    pub dex_id: Vec<u16>,
    /// The Pokémon HP.
    pub hp: u16,
    /// The types of the Pokémon.
    pub types: Vec<String>,
    /// The Pokémon name it evolve from.
    pub evolve_from: String,
    /// The card description.
    pub description: String,
    /// The Pokémon level (if it’s a lv.X the level is X).
    pub level: String,
    /// The Pokémon stage.
    pub stage: String,
    /// The card suffix.
    pub suffix: String,
    /// The Pokémon item.
    pub item: Item,
    /// The Pokémon attacks.
    pub attacks: Vec<Attack>,
    /// The Pokémon weaknesses.
    pub weaknesses: Vec<Weakness>,
    /// The Pokémon regulation mark.
    pub regulation_mark: String,
    /// The trainer card effect.
    pub effect: String,
    /// The type of trainer card.
    pub trainer_type: String,
    /// The type of energy card.
    pub energy_type: String,
}

impl Card {
    /// Whether every field holds the value it has when nothing was filled in.
    pub open spec fn blank(&self) -> bool {
        &&& self.id@.len() == 0
        &&& self.local_id@.len() == 0
        &&& self.name@.len() == 0
        &&& self.image@.len() == 0
        &&& self.category@.len() == 0
        &&& self.illustrator@.len() == 0
        &&& self.rarity@.len() == 0
        &&& self.variants.blank()
        &&& self.set.blank()
        &&& self.dex_id@.len() == 0
        &&& self.hp == 0
        &&& self.types@.len() == 0
        &&& self.evolve_from@.len() == 0
        &&& self.description@.len() == 0
        &&& self.level@.len() == 0
        &&& self.stage@.len() == 0
        &&& self.suffix@.len() == 0
        &&& self.item.blank()
        &&& self.attacks@.len() == 0
        &&& self.weaknesses@.len() == 0
        &&& self.regulation_mark@.len() == 0
        &&& self.effect@.len() == 0
        &&& self.trainer_type@.len() == 0
        &&& self.energy_type@.len() == 0
    }
}

impl Default for Card {
    fn default() -> (r: Card)
        ensures
            r.blank(),
            r.is_empty_spec(),
    {
        Card {
            id: String::new(),
            local_id: String::new(),
            name: String::new(),
            image: String::new(),
            category: String::new(),
            illustrator: String::new(),
            rarity: String::new(),
            variants: Variants::default(),
            set: SetBrief::default(),
            dex_id: Vec::new(),
            hp: 0,
            types: Vec::new(),
            evolve_from: String::new(),
            description: String::new(),
            level: String::new(),
            stage: String::new(),
            suffix: String::new(),
            item: Item::default(),
            attacks: Vec::new(),
            weaknesses: Vec::new(),
            regulation_mark: String::new(),
            effect: String::new(),
            trainer_type: String::new(),
            energy_type: String::new(),
        }
    }
}

impl IsEmpty for Card {
    /// A card carries nothing when it has neither a name nor an id.
    open spec fn is_empty_spec(&self) -> bool {
        self.name@.len() == 0 && self.id@.len() == 0
    }

    fn is_empty(&self) -> (b: bool) {
        self.name.as_str().is_empty() && self.id.as_str().is_empty()
    }
}

impl IsEmpty for Vec<CardBrief> {
    /// A list carries nothing when it has no entry.
    open spec fn is_empty_spec(&self) -> bool {
        self@.len() == 0
    }

    fn is_empty(&self) -> (b: bool) {
        self.len() == 0
    }
}

/// The URL under which cards are read in the language `lang`: the one that
/// `query` selects, or the list of all cards without one.
pub fn url(lang: &str, query: Option<&Query>) -> (url: String)
    ensures
        url@ == query_url(
            lang@,
            OBJECT_NAME@,
            match query {
                Some(q) => q@.render(),
                None => Seq::<char>::empty(),
            },
        ),
{
    let rendered = match query {
        Some(q) => q.to_string(),
        None => String::new(),
    };
    build_query_url(lang, OBJECT_NAME, rendered.as_str())
}

} // verus!

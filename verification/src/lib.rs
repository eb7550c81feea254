//! Typed building blocks for a client of the TCGdex card database.
//!
//! The crate holds everything about a request that can be decided without
//! touching the network: how a [`Query`] is assembled and rendered, which URL
//! an endpoint is reached under, and how a decoded response is classified as
//! a payload, an error reported by the server, or an empty result.
//! Every function comes with a contract that Verus proves.

use vstd::prelude::*;

pub mod endpoints;
pub mod errors;
pub mod is_empty;
pub mod query;
pub mod text;

pub use crate::endpoints::cards::{Attack, Card, CardBrief, Variants, Weakness};
pub use crate::endpoints::series::{Serie, SerieBrief};
pub use crate::endpoints::sets::{CardSet, SetBrief};
pub use crate::query::Query;

verus! {

/// Languages the database is published in.
#[derive(Debug, Clone, Copy)]
pub enum Lang {
    /// English
    EN,
    /// French
    FR,
    /// Deutsch
    DE,
    /// Italian
    IT,
    /// Portuguese
    PT,
    /// Spanish
    ES,
}

impl Lang {
    /// The upper-case name of the language, as the variant is written.
    pub open spec fn name(self) -> Seq<char> {
        match self {
            Lang::EN => "EN"@,
            Lang::FR => "FR"@,
            Lang::DE => "DE"@,
            Lang::IT => "IT"@,
            Lang::PT => "PT"@,
            Lang::ES => "ES"@,
        }
    }

    /// The two-letter segment that stands for the language in a URL.
    pub open spec fn code(self) -> Seq<char> {
        match self {
            Lang::EN => "en"@,
            Lang::FR => "fr"@,
            Lang::DE => "de"@,
            Lang::IT => "it"@,
            Lang::PT => "pt"@,
            Lang::ES => "es"@,
        }
    }

    /// The lower-case form of an ASCII capital, and any other character as it
    /// is.
    pub open spec fn lower(c: char) -> char {
        if 'A' <= c <= 'Z' {
            ((c as u8) + 32) as char
        } else {
            c
        }
    }

    /// The URL segment of a language is its name in lower case, two letters
    /// long.
    pub proof fn lemma_code_is_lower_case_name(self)
        ensures
            self.code().len() == 2,
            self.code() == self.name().map_values(|c: char| Self::lower(c)),
    {
        reveal_strlit("EN");
        reveal_strlit("FR");
        reveal_strlit("DE");
        reveal_strlit("IT");
        reveal_strlit("PT");
        reveal_strlit("ES");
        reveal_strlit("en");
        reveal_strlit("fr");
        reveal_strlit("de");
        reveal_strlit("it");
        reveal_strlit("pt");
        reveal_strlit("es");
        assert(self.code() =~= self.name().map_values(|c: char| Self::lower(c)));
    }

    /// Renders the language by its upper-case name.
    pub fn to_string(&self) -> (s: String)
        ensures
            s@ == self.name(),
    {
        match self {
            Lang::EN => String::from_str("EN"),
            Lang::FR => String::from_str("FR"),
            Lang::DE => String::from_str("DE"),
            Lang::IT => String::from_str("IT"),
            Lang::PT => String::from_str("PT"),
            Lang::ES => String::from_str("ES"),
        }
    }

    /// Renders the language as the lower-case segment used in URLs.
    pub fn url_segment(&self) -> (s: String)
        ensures
            s@ == self.code(),
    {
        match self {
            Lang::EN => String::from_str("en"),
            Lang::FR => String::from_str("fr"),
            Lang::DE => String::from_str("de"),
            Lang::IT => String::from_str("it"),
            Lang::PT => String::from_str("pt"),
            Lang::ES => String::from_str("es"),
        }
    }
}

} // verus!

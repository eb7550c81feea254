use tcgdex_api::endpoints::cards::{Attack, Card, CardBrief, Item, Variants, Weakness};
use tcgdex_api::endpoints::series::{Serie, SerieBrief};
use tcgdex_api::endpoints::sets::{CardCount, CardCountBrief, CardSet, Legal, SetBrief};
use tcgdex_api::errors::{set_error, ApiError, TcgdexError};
use tcgdex_api::is_empty::IsEmpty;
use tcgdex_api::query::Response;

fn not_found() -> TcgdexError {
    TcgdexError {
        _type: "https://tcgdex.dev/errors/not-found".to_string(),
        title: "The resource you are trying to reach does not exists".to_string(),
        status: 404,
        endpoint: "/en/cards/sih3-136".to_string(),
        method: "GET".to_string(),
        lang: "en".to_string(),
        details: String::new(),
    }
}

fn transport_error() -> reqwest::Error {
    reqwest::blocking::Client::new().get("not a url").build().unwrap_err()
}

fn furret() -> Card {
    Card {
        id: "swsh3-136".to_string(),
        local_id: "136".to_string(),
        name: "Furret".to_string(),
        illustrator: "tetsuya koizumi".to_string(),
        hp: 110,
        types: vec!["Colorless".to_string()],
        set: SetBrief {
            id: "swsh3".to_string(),
            name: "Darkness Ablaze".to_string(),
            card_count: CardCountBrief { total: 201, official: 189 },
            ..SetBrief::default()
        },
        weaknesses: vec![Weakness { _type: "Fighting".to_string(), value: "×2".to_string() }],
        ..Card::default()
    }
}

fn darkness_ablaze() -> CardSet {
    CardSet {
        id: "swsh3".to_string(),
        name: "Darkness Ablaze".to_string(),
        release_date: "2020-08-14".to_string(),
        serie: SerieBrief {
            id: "swsh".to_string(),
            name: "Sword & Shield".to_string(),
            logo: String::new(),
        },
        legal: Legal { standard: false, expanded: true },
        ..CardSet::default()
    }
}

#[test]
fn reported_error_comes_out_unchanged() {
    let result = set_error(Response::<Card>::Error(not_found()));
    let error = result.err().unwrap();
    assert!(error.is_tcgdexapi());
    assert!(!error.is_reqwest());
    assert!(!error.is_empty_response());
    assert_eq!(
        error.to_string(),
        "Tcgdex error : The resource you are trying to reach does not exists"
    );
    let message = error.get_tcgdex_error().unwrap();
    assert_eq!(message._type, "https://tcgdex.dev/errors/not-found");
    assert_eq!(message.title, "The resource you are trying to reach does not exists");
    assert_eq!(message.status, 404);
    assert_eq!(message.endpoint, "/en/cards/sih3-136");
    assert_eq!(message.method, "GET");
    assert_eq!(message.lang, "en");
    assert_eq!(message.details, "");
    assert_eq!(message, not_found());
}

#[test]
fn reported_error_wins_for_a_list_too() {
    let result = set_error(Response::<Vec<CardBrief>>::Error(not_found()));
    assert_eq!(result, Err(ApiError::TcgdexApi(not_found())));
}

#[test]
fn blank_card_is_an_empty_result() {
    let result = set_error(Response::Data(Card::default()));
    assert_eq!(result, Err(ApiError::EmptyResponse));
}

#[test]
fn card_without_id_and_name_is_an_empty_result() {
    let card = Card { id: String::new(), name: String::new(), ..furret() };
    let result = set_error(Response::Data(card));
    let error = result.err().unwrap();
    assert!(error.is_empty_response());
    assert!(!error.is_tcgdexapi());
    assert_eq!(error.to_string(), "Response is empty");
    assert_eq!(error.get_tcgdex_error(), None);
}

#[test]
fn blank_set_and_serie_are_empty_results() {
    assert_eq!(set_error(Response::Data(CardSet::default())), Err(ApiError::EmptyResponse));
    assert_eq!(set_error(Response::Data(Serie::default())), Err(ApiError::EmptyResponse));
    let set = CardSet { id: String::new(), name: String::new(), ..darkness_ablaze() };
    assert_eq!(set_error(Response::Data(set)), Err(ApiError::EmptyResponse));
}

#[test]
fn empty_lists_are_empty_results() {
    assert_eq!(set_error(Response::Data(Vec::<CardBrief>::new())), Err(ApiError::EmptyResponse));
    assert_eq!(set_error(Response::Data(Vec::<SetBrief>::new())), Err(ApiError::EmptyResponse));
    assert_eq!(set_error(Response::Data(Vec::<SerieBrief>::new())), Err(ApiError::EmptyResponse));
}

#[test]
fn card_comes_out_unchanged() {
    let card = set_error(Response::Data(furret())).unwrap();
    assert_eq!(card, furret());
    assert_eq!(card.id, "swsh3-136");
    assert_eq!(card.illustrator, "tetsuya koizumi");
    assert_eq!(card.name, "Furret");
    assert_eq!(card.set.card_count.official, 189);
    assert_eq!(card.hp, 110);
    assert_eq!(card.types, vec!["Colorless"]);
    assert_eq!(card.weaknesses[0]._type, "Fighting");
}

#[test]
fn set_comes_out_unchanged() {
    let set = set_error(Response::Data(darkness_ablaze())).unwrap();
    assert_eq!(set.id, "swsh3");
    assert_eq!(set.release_date, "2020-08-14");
    assert_eq!(set.serie.name, "Sword & Shield");
    assert_eq!(set.serie.id, "swsh");
    assert!(set.legal.expanded);
    assert_eq!(set.name, "Darkness Ablaze");
}

#[test]
fn serie_comes_out_unchanged() {
    let serie = Serie {
        id: "swsh".to_string(),
        name: "Sword & Shield".to_string(),
        logo: String::new(),
        sets: vec![SetBrief { id: "swsh3".to_string(), ..SetBrief::default() }],
    };
    let out = set_error(Response::Data(serie)).unwrap();
    assert_eq!(out.id, "swsh");
    assert_eq!(out.name, "Sword & Shield");
    assert_eq!(out.sets.len(), 1);
}

#[test]
fn id_or_name_alone_makes_a_record() {
    let only_id = Card { id: "swsh3-136".to_string(), ..Card::default() };
    assert!(!only_id.is_empty());
    assert!(set_error(Response::Data(only_id)).is_ok());
    let only_name = Card { name: "Furret".to_string(), ..Card::default() };
    assert!(!only_name.is_empty());
    assert!(set_error(Response::Data(only_name)).is_ok());
    let only_name = CardSet { name: "Darkness Ablaze".to_string(), ..CardSet::default() };
    assert!(set_error(Response::Data(only_name)).is_ok());
    let only_id = Serie { id: "swsh".to_string(), ..Serie::default() };
    assert!(set_error(Response::Data(only_id)).is_ok());
}

#[test]
fn lists_with_entries_come_out_unchanged() {
    let cards = vec![
        CardBrief { id: "ex7-22".to_string(), ..CardBrief::default() },
        CardBrief { id: "ex12-33".to_string(), ..CardBrief::default() },
    ];
    let out = set_error(Response::Data(cards)).unwrap();
    assert_eq!(out.len(), 2);
    assert_eq!(out[0].id, "ex7-22");
    assert_eq!(out[1].id, "ex12-33");
    let blank_entry = vec![SerieBrief::default()];
    assert_eq!(set_error(Response::Data(blank_entry)).unwrap().len(), 1);
}

#[test]
fn emptiness_of_each_payload() {
    assert!(Card::default().is_empty());
    assert!(CardSet::default().is_empty());
    assert!(Serie::default().is_empty());
    assert!(!furret().is_empty());
    assert!(!darkness_ablaze().is_empty());
    assert!(IsEmpty::is_empty(&Vec::<CardBrief>::new()));
    assert!(!IsEmpty::is_empty(&vec![SetBrief::default()]));
}

#[test]
fn default_records_are_blank() {
    assert_eq!(
        Variants::default(),
        Variants { normal: false, reverse: false, holo: false, first_edition: false }
    );
    assert_eq!(
        Attack::default(),
        Attack { name: String::new(), effect: String::new(), damage: 0 }
    );
    assert_eq!(Item::default(), Item { name: String::new(), effect: String::new() });
    assert_eq!(Weakness::default(), Weakness { _type: String::new(), value: String::new() });
    assert_eq!(CardCountBrief::default(), CardCountBrief { total: 0, official: 0 });
    assert_eq!(
        CardCount::default(),
        CardCount { total: 0, official: 0, reverse: 0, holo: 0, first_ed: 0 }
    );
    assert_eq!(Legal::default(), Legal { standard: false, expanded: false });
    let card = Card::default();
    assert_eq!(card.id, "");
    assert_eq!(card.hp, 0);
    assert!(card.dex_id.is_empty() && card.types.is_empty() && card.attacks.is_empty());
    assert_eq!(card.set, SetBrief::default());
    let set = CardSet::default();
    assert_eq!(set.serie, SerieBrief::default());
    assert!(set.cards.is_empty());
}

#[test]
fn errors_compare_by_their_fields() {
    assert_eq!(ApiError::TcgdexApi(not_found()), ApiError::TcgdexApi(not_found()));
    let other = TcgdexError { status: 500, ..not_found() };
    assert_ne!(ApiError::TcgdexApi(not_found()), ApiError::TcgdexApi(other));
    let other = TcgdexError { details: "more".to_string(), ..not_found() };
    assert_ne!(not_found(), other);
    assert_eq!(ApiError::EmptyResponse, ApiError::EmptyResponse);
    assert_ne!(ApiError::EmptyResponse, ApiError::TcgdexApi(not_found()));
}

#[test]
fn transport_errors_equal_nothing() {
    assert_ne!(ApiError::Reqwest(transport_error()), ApiError::Reqwest(transport_error()));
    assert_ne!(ApiError::Reqwest(transport_error()), ApiError::EmptyResponse);
    assert_ne!(ApiError::TcgdexApi(not_found()), ApiError::Reqwest(transport_error()));
}

#[test]
fn transport_error_is_carried_and_described() {
    let error = ApiError::from(transport_error());
    assert!(error.is_reqwest());
    assert!(!error.is_tcgdexapi());
    assert!(!error.is_empty_response());
    let text = transport_error().to_string();
    assert!(!text.is_empty());
    assert_eq!(error.to_string(), format!("Reqwest error : {}", text));
    assert_eq!(error.get_tcgdex_error(), None);
}

#[test]
fn description_takes_the_transport_text() {
    let error = ApiError::from(transport_error());
    assert_eq!(error.describe("connection refused"), "Reqwest error : connection refused");
    assert_eq!(error.describe(""), "Reqwest error : ");
    let reported = ApiError::TcgdexApi(not_found());
    assert_eq!(
        reported.describe("ignored"),
        "Tcgdex error : The resource you are trying to reach does not exists"
    );
    assert_eq!(ApiError::EmptyResponse.describe("ignored"), "Response is empty");
}

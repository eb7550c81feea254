use tcgdex_api::endpoints::{build_list_url, build_query_url, URL_BASE};
use tcgdex_api::endpoints::{
    cards, categories, hps, illustrators, rarities, retreats, series, sets, types,
};
use tcgdex_api::query::{Order, Query};
use tcgdex_api::Lang;

#[test]
fn base_url_is_the_second_version_of_the_api() {
    assert_eq!(URL_BASE, "https://api.tcgdex.net/v2/");
}

#[test]
fn list_urls_name_language_and_resource() {
    assert_eq!(types::url("en"), "https://api.tcgdex.net/v2/en/types");
    assert_eq!(categories::url("en"), "https://api.tcgdex.net/v2/en/categories");
    assert_eq!(hps::url("fr"), "https://api.tcgdex.net/v2/fr/hp");
    assert_eq!(illustrators::url("de"), "https://api.tcgdex.net/v2/de/illustrators");
    assert_eq!(rarities::url("it"), "https://api.tcgdex.net/v2/it/rarities");
    assert_eq!(retreats::url("pt"), "https://api.tcgdex.net/v2/pt/retreats");
}

#[test]
fn resources_have_their_names() {
    assert_eq!(cards::OBJECT_NAME, "cards");
    assert_eq!(sets::OBJECT_NAME, "sets");
    assert_eq!(series::OBJECT_NAME, "series");
    assert_eq!(types::OBJECT_NAME, "types");
    assert_eq!(categories::OBJECT_NAME, "categories");
    assert_eq!(hps::OBJECT_NAME, "hp");
    assert_eq!(illustrators::OBJECT_NAME, "illustrators");
    assert_eq!(rarities::OBJECT_NAME, "rarities");
    assert_eq!(retreats::OBJECT_NAME, "retreats");
}

#[test]
fn url_without_query_ends_in_a_slash() {
    assert_eq!(cards::url("en", None), "https://api.tcgdex.net/v2/en/cards/");
    assert_eq!(sets::url("en", None), "https://api.tcgdex.net/v2/en/sets/");
    assert_eq!(series::url("en", None), "https://api.tcgdex.net/v2/en/series/");
}

#[test]
fn url_with_empty_query_is_the_list() {
    let query = Query::new();
    assert_eq!(cards::url("es", Some(&query)), "https://api.tcgdex.net/v2/es/cards/");
}

#[test]
fn id_is_a_path_segment() {
    let card = Query::new().with_id("swsh3-136");
    assert_eq!(cards::url("en", Some(&card)), "https://api.tcgdex.net/v2/en/cards/swsh3-136");
    let set = Query::new().with_id("swsh3");
    assert_eq!(sets::url("en", Some(&set)), "https://api.tcgdex.net/v2/en/sets/swsh3");
    let serie = Query::new().with_id("swsh");
    assert_eq!(series::url("en", Some(&serie)), "https://api.tcgdex.net/v2/en/series/swsh");
}

#[test]
fn filters_are_a_query_string() {
    let query = Query::new().with_filtering(vec!["cardCount.total=201"]);
    assert_eq!(
        sets::url("en", Some(&query)),
        "https://api.tcgdex.net/v2/en/sets?cardCount.total=201"
    );
    let query = Query::new().with_filtering(vec!["name=furret", "id=ex"]);
    assert_eq!(
        cards::url("en", Some(&query)),
        "https://api.tcgdex.net/v2/en/cards?name=furret&id=ex"
    );
    let query = Query::new().with_filtering(vec!["name=Sword & Shield"]);
    assert_eq!(
        series::url("en", Some(&query)),
        "https://api.tcgdex.net/v2/en/series?name=Sword"
    );
}

#[test]
fn sorting_and_pagination_are_a_query_string() {
    let query = Query::new().with_sorting("name", &Order::ASC).with_pagination(3, 5);
    assert_eq!(
        cards::url("fr", Some(&query)),
        "https://api.tcgdex.net/v2/fr/cards?pagination:page=3&pagination:itemsPerPage=5&sort:field=name&sort:order=ASC"
    );
}

#[test]
fn id_with_equals_sign_is_read_as_a_query_string() {
    let query = Query::new().with_id("a=b");
    assert_eq!(cards::url("en", Some(&query)), "https://api.tcgdex.net/v2/en/cards?a=b");
    let query = Query::new().with_id("a&b");
    assert_eq!(cards::url("en", Some(&query)), "https://api.tcgdex.net/v2/en/cards?a&b");
}

#[test]
fn filter_without_equals_sign_is_a_path_segment() {
    let query = Query::new().with_filtering(vec!["furret"]);
    assert_eq!(cards::url("en", Some(&query)), "https://api.tcgdex.net/v2/en/cards/furret");
}

#[test]
fn general_assembly() {
    assert_eq!(build_list_url("en", "cards"), "https://api.tcgdex.net/v2/en/cards");
    assert_eq!(build_list_url("", ""), "https://api.tcgdex.net/v2//");
    assert_eq!(build_query_url("en", "cards", ""), "https://api.tcgdex.net/v2/en/cards/");
    assert_eq!(build_query_url("en", "cards", "x"), "https://api.tcgdex.net/v2/en/cards/x");
    assert_eq!(build_query_url("en", "cards", "x=1"), "https://api.tcgdex.net/v2/en/cards?x=1");
    assert_eq!(build_query_url("en", "cards", "&"), "https://api.tcgdex.net/v2/en/cards?&");
}

#[test]
fn language_segment_comes_from_the_language() {
    let lang = Lang::FR;
    assert_eq!(
        types::url(lang.url_segment().as_str()),
        "https://api.tcgdex.net/v2/fr/types"
    );
}

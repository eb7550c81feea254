//! The endpoints of the database, one module each, and the assembly of the
//! URL under which an endpoint is reached.

use crate::query::{extend, lemma_id_renders_alone, lemma_render_unfolds, Order, QueryView};
use crate::text::contains_char;
use vstd::prelude::*;

pub mod cards;
pub mod categories;
pub mod hps;
pub mod illustrators;
pub mod rarities;
pub mod retreats;
pub mod series;
pub mod sets;
pub mod types;

verus! {

/// Constant part of the URL of every request.
pub const URL_BASE: &'static str = "https://api.tcgdex.net/v2/";

/// What stands between the resource and the query in a URL: `?` before a
/// query that holds `&` or `=`, and `/` before any other, which is then read
/// as one more path segment.
pub open spec fn separator(query: Seq<char>) -> Seq<char> {
    if query.contains('&') || query.contains('=') {
        "?"@
    } else {
        "/"@
    }
}

/// The URL of the list that `resource` names, in the language `lang`.
pub open spec fn list_url(lang: Seq<char>, resource: Seq<char>) -> Seq<char> {
    URL_BASE@ + lang + "/"@ + resource
}

/// The URL that `query` selects within `resource`, in the language `lang`.
pub open spec fn query_url(lang: Seq<char>, resource: Seq<char>, query: Seq<char>) -> Seq<char> {
    list_url(lang, resource) + separator(query) + query
}

/// Assembles the URL of a list endpoint.
pub fn build_list_url(lang: &str, resource: &str) -> (url: String)
    ensures
        url@ == list_url(lang@, resource@),
{
    let mut url = String::from_str(URL_BASE);
    url.append(lang);
    url.append("/");
    url.append(resource);
    url
}

/// Assembles the URL of an endpoint that takes a query.
pub fn build_query_url(lang: &str, resource: &str, query: &str) -> (url: String)
    ensures
        url@ == query_url(lang@, resource@, query@),
{
    let mut url = build_list_url(lang, resource);
    if contains_char(query, '&') || contains_char(query, '=') {
        url.append("?");
    } else {
        url.append("/");
    }
    url.append(query);
    url
}

/// A query that sets only an id, free of `&` and `=`, is addressed as one
/// more path segment behind the resource.
pub proof fn lemma_bare_id_is_path_segment(
    lang: Seq<char>,
    resource: Seq<char>,
    v: QueryView,
    id: Seq<char>,
)
    requires
        v.unrefined(),
        !id.contains('&'),
        !id.contains('='),
    ensures
        query_url(lang, resource, v.with_id(id).render()) == list_url(lang, resource) + "/"@ + id,
{
    lemma_id_renders_alone(v, id);
}

proof fn lemma_extend_keeps_characters(acc: Seq<char>, part: Seq<char>, c: char)
    requires
        acc.contains(c) || part.contains(c),
    ensures
        extend(acc, part).contains(c),
{
    if part.len() > 0 && acc.len() > 0 {
        let whole = acc + "&"@ + part;
        if acc.contains(c) {
            let i = choose|i: int| 0 <= i < acc.len() && acc[i] == c;
            assert(whole[i] == c);
        } else {
            let i = choose|i: int| 0 <= i < part.len() && part[i] == c;
            assert(whole[acc.len() + "&"@.len() + i] == c);
        }
    }
}

proof fn lemma_render_keeps_characters(v: QueryView, c: char)
    requires
        v.id.contains(c) || v.filtering.contains(c) || v.pagination.contains(c)
            || v.sorting.contains(c),
    ensures
        v.render().contains(c),
{
    lemma_render_unfolds(v);
    let none = Seq::<char>::empty();
    let first = extend(none, v.id);
    let second = extend(first, v.filtering);
    let third = extend(second, v.pagination);
    if v.id.contains(c) {
        lemma_extend_keeps_characters(none, v.id, c);
    }
    if first.contains(c) || v.filtering.contains(c) {
        lemma_extend_keeps_characters(first, v.filtering, c);
    }
    if second.contains(c) || v.pagination.contains(c) {
        lemma_extend_keeps_characters(second, v.pagination, c);
    }
    lemma_extend_keeps_characters(third, v.sorting, c);
}

/// A query on which a page or a sort order took effect is addressed as a
/// query string, behind `?`.
pub proof fn lemma_page_or_order_is_query_string(
    v: QueryView,
    page: nat,
    items_per_page: nat,
    field: Seq<char>,
    order: Order,
)
    requires
        v.id.len() == 0,
    ensures
        separator(v.with_pagination(page, items_per_page).render()) == "?"@,
        separator(v.with_sorting(field, order).render()) == "?"@,
{
    reveal_strlit("pagination:page=");
    reveal_strlit("sort:field=");
    let paged = v.with_pagination(page, items_per_page);
    assert(paged.pagination[15] == '=');
    lemma_render_keeps_characters(paged, '=');
    let sorted = v.with_sorting(field, order);
    assert(sorted.sorting[10] == '=');
    lemma_render_keeps_characters(sorted, '=');
}

} // verus!

//! Building the query part of a request.
//!
//! A [`Query`] selects either one resource by its id, or a list narrowed by
//! filters, a sort order and a page. The two ways exclude each other: once an
//! id is set the other setters change nothing, and once any of them is set
//! the id can no longer be set.

use crate::errors::TcgdexError;
use crate::text::{decimal, decimal_string, first_token, first_token_of, has_token, join};
use crate::text::{lemma_first_token_nonempty, lemma_join_nonempty, lemma_join_push};
use vstd::prelude::*;

verus! {

/// Used to set sorting order.
#[derive(Debug, Copy, Clone)]
pub enum Order {
    /// Ascending sorting.
    ASC,
    /// Descending sorting.
    DESC,
}

impl Order {
    /// The keyword that stands for the order in a query.
    pub open spec fn name(self) -> Seq<char> {
        match self {
            Order::ASC => "ASC"@,
            Order::DESC => "DESC"@,
        }
    }

    /// Renders the order as its keyword.
    pub fn to_string(&self) -> (s: String)
        ensures
            s@ == self.name(),
    {
        match self {
            Order::ASC => String::from_str("ASC"),
            Order::DESC => String::from_str("DESC"),
        }
    }
}

/// The views of the texts in `terms`, in order.
pub open spec fn texts(terms: Seq<&str>) -> Seq<Seq<char>> {
    terms.map_values(|term: &str| term@)
}

/// The filter text that `terms` stand for: the first token of each, joined
/// with `&`.
pub open spec fn filtering_text(terms: Seq<Seq<char>>) -> Seq<char> {
    join(terms.map_values(|term: Seq<char>| first_token(term)), "&"@)
}

/// The pagination text for page `page` with `items_per_page` items a page.
pub open spec fn pagination_text(page: nat, items_per_page: nat) -> Seq<char> {
    "pagination:page="@ + decimal(page) + "&pagination:itemsPerPage="@ + decimal(items_per_page)
}

/// The sorting text for sorting by `field` in the given order.
pub open spec fn sorting_text(field: Seq<char>, order: Order) -> Seq<char> {
    "sort:field="@ + field + "&sort:order="@ + order.name()
}

/// `acc` with `part` behind it, set apart by `&`; an empty `part` adds
/// nothing, and an empty `acc` needs no separator.
pub open spec fn extend(acc: Seq<char>, part: Seq<char>) -> Seq<char> {
    if part.len() == 0 {
        acc
    } else if acc.len() == 0 {
        part
    } else {
        acc + "&"@ + part
    }
}

/// Those of `parts` that are not empty, in order.
pub open spec fn present(parts: Seq<Seq<char>>) -> Seq<Seq<char>> {
    parts.filter(|part: Seq<char>| part.len() > 0)
}

/// What a [`Query`] holds: the text of each of its four fields.
pub struct QueryView {
    pub id: Seq<char>,
    pub filtering: Seq<char>,
    pub pagination: Seq<char>,
    pub sorting: Seq<char>,
}

impl QueryView {
    /// The query with every field empty.
    pub open spec fn empty() -> QueryView {
        QueryView {
            id: Seq::empty(),
            filtering: Seq::empty(),
            pagination: Seq::empty(),
            sorting: Seq::empty(),
        }
    }

    /// Whether none of filtering, pagination and sorting is set.
    pub open spec fn unrefined(self) -> bool {
        self.filtering.len() == 0 && self.pagination.len() == 0 && self.sorting.len() == 0
    }

    /// The id and the other three fields are never set together.
    pub open spec fn exclusive(self) -> bool {
        self.id.len() > 0 ==> self.unrefined()
    }

    /// Sets the id, unless filtering, pagination or sorting is set.
    pub open spec fn with_id(self, id: Seq<char>) -> QueryView {
        if self.unrefined() {
            QueryView { id, ..self }
        } else {
            self
        }
    }

    /// Sets the filters, unless an id is set.
    pub open spec fn with_filtering(self, terms: Seq<Seq<char>>) -> QueryView {
        if self.id.len() == 0 {
            QueryView { filtering: filtering_text(terms), ..self }
        } else {
            self
        }
    }

    /// Sets the page, unless an id is set.
    pub open spec fn with_pagination(self, page: nat, items_per_page: nat) -> QueryView {
        if self.id.len() == 0 {
            QueryView { pagination: pagination_text(page, items_per_page), ..self }
        } else {
            self
        }
    }

    /// Sets the sort order, unless an id is set.
    pub open spec fn with_sorting(self, field: Seq<char>, order: Order) -> QueryView {
        if self.id.len() == 0 {
            QueryView { sorting: sorting_text(field, order), ..self }
        } else {
            self
        }
    }

    /// The four fields in the order in which they are rendered.
    pub open spec fn fields(self) -> Seq<Seq<char>> {
        seq![self.id, self.filtering, self.pagination, self.sorting]
    }

    /// The query as it appears in a URL: the fields that are set, joined with
    /// `&`.
    pub open spec fn render(self) -> Seq<char> {
        join(present(self.fields()), "&"@)
    }
}

/// Rendering one field more extends the text by it.
pub proof fn lemma_render_push(parts: Seq<Seq<char>>, part: Seq<char>)
    ensures
        join(present(parts.push(part)), "&"@) == extend(join(present(parts), "&"@), part),
{
    broadcast use vstd::seq_lib::group_filter_ensures;

    let kept = |part: Seq<char>| part.len() > 0;
    assert(parts.push(part).drop_last() =~= parts);
    assert(present(parts.push(part)) == if part.len() > 0 {
        present(parts).push(part)
    } else {
        present(parts)
    }) by {
        reveal(Seq::filter);
    }
    if part.len() > 0 {
        lemma_join_push(present(parts), part, "&"@);
        if present(parts).len() > 0 {
            assert forall|i: int| 0 <= i < present(parts).len() implies (
            #[trigger] present(parts)[i]).len() > 0 by {
                assert(kept(parts.filter(kept)[i]));
            }
            lemma_join_nonempty(present(parts), "&"@);
        }
    }
}

/// A query renders as its fields taken one after the other.
pub proof fn lemma_render_unfolds(v: QueryView)
    ensures
        v.render() == extend(
            extend(extend(extend(Seq::empty(), v.id), v.filtering), v.pagination),
            v.sorting,
        ),
{
    let none = Seq::<Seq<char>>::empty();
    assert(present(none) =~= none) by {
        reveal(Seq::filter);
    }
    lemma_render_push(none, v.id);
    lemma_render_push(none.push(v.id), v.filtering);
    lemma_render_push(none.push(v.id).push(v.filtering), v.pagination);
    lemma_render_push(none.push(v.id).push(v.filtering).push(v.pagination), v.sorting);
    assert(v.fields() =~= none.push(v.id).push(v.filtering).push(v.pagination).push(v.sorting));
}

/// The query with nothing set renders as the empty text.
pub proof fn lemma_empty_renders_empty()
    ensures
        QueryView::empty().exclusive(),
        QueryView::empty().render() == Seq::<char>::empty(),
{
    lemma_render_unfolds(QueryView::empty());
}

/// Every setter keeps the id and the other three fields from being set
/// together.
pub proof fn lemma_setters_keep_exclusive(
    v: QueryView,
    id: Seq<char>,
    terms: Seq<Seq<char>>,
    page: nat,
    items_per_page: nat,
    field: Seq<char>,
    order: Order,
)
    requires
        v.exclusive(),
    ensures
        v.with_id(id).exclusive(),
        v.with_filtering(terms).exclusive(),
        v.with_pagination(page, items_per_page).exclusive(),
        v.with_sorting(field, order).exclusive(),
{
}

/// A query on which only an id was set renders as exactly that id.
pub proof fn lemma_id_renders_alone(v: QueryView, id: Seq<char>)
    requires
        v.unrefined(),
    ensures
        v.with_id(id).render() == id,
{
    lemma_render_unfolds(v.with_id(id));
    assert(v.with_id(id).render() =~= id);
}

/// Once an id is set, setting filters, a page or a sort order changes
/// nothing.
pub proof fn lemma_id_locks_refinements(
    v: QueryView,
    id: Seq<char>,
    terms: Seq<Seq<char>>,
    page: nat,
    items_per_page: nat,
    field: Seq<char>,
    order: Order,
)
    requires
        v.unrefined(),
        id.len() > 0,
    ensures
        v.with_id(id).with_filtering(terms) == v.with_id(id),
        v.with_id(id).with_pagination(page, items_per_page) == v.with_id(id),
        v.with_id(id).with_sorting(field, order) == v.with_id(id),
        v.with_id(id).with_filtering(terms).filtering.len() == 0,
{
}

/// Once filters, a page or a sort order is set, setting an id changes
/// nothing.
pub proof fn lemma_refinements_lock_id(v: QueryView, id: Seq<char>)
    requires
        !v.unrefined(),
    ensures
        v.with_id(id) == v,
{
}

/// Filters that each hold a token give a filter text that is empty only for
/// an empty list.
pub proof fn lemma_filtering_text_nonempty(terms: Seq<Seq<char>>)
    requires
        forall|i: int| 0 <= i < terms.len() ==> has_token(#[trigger] terms[i]),
    ensures
        filtering_text(terms).len() == 0 <==> terms.len() == 0,
{
    let tokens = terms.map_values(|term: Seq<char>| first_token(term));
    if terms.len() > 0 {
        assert forall|i: int| 0 <= i < tokens.len() implies (#[trigger] tokens[i]).len() > 0 by {
            assert(has_token(terms[i]));
            lemma_first_token_nonempty(terms[i]);
        }
        lemma_join_nonempty(tokens, "&"@);
    }
}

/// Setting filters after an id leaves the filter text empty exactly when the
/// id took effect or there was no filter to set.
pub proof fn lemma_filtering_after_id(v: QueryView, id: Seq<char>, terms: Seq<Seq<char>>)
    requires
        v.exclusive(),
        forall|i: int| 0 <= i < terms.len() ==> has_token(#[trigger] terms[i]),
    ensures
        v.with_id(id).with_filtering(terms).filtering.len() == 0 <==> (v.unrefined() && id.len()
            > 0) || terms.len() == 0,
{
    lemma_filtering_text_nonempty(terms);
}

/// To build a query with specified parameters.
///
/// If the id is already set, setting filtering, sorting or pagination has no
/// effect. If at least one of filtering, sorting and pagination is already
/// set, setting the id has no effect.
#[derive(Debug)]
pub struct Query {
    id: String,
    filtering: String,
    pagination: String,
    sorting: String,
}

impl View for Query {
    type V = QueryView;

    closed spec fn view(&self) -> QueryView {
        QueryView {
            id: self.id@,
            filtering: self.filtering@,
            pagination: self.pagination@,
            sorting: self.sorting@,
        }
    }
}

fn append_part(out: &mut String, part: &str)
    ensures
        final(out)@ == extend(old(out)@, part@),
{
    if !part.is_empty() {
        if !out.as_str().is_empty() {
            out.append("&");
        }
        out.append(part);
    }
}

impl Query {
    #[verifier::type_invariant]
    spec fn well_formed(&self) -> bool {
        self@.exclusive()
    }

    /// Create a query with all fields empty.
    #[must_use]
    pub fn new() -> (q: Query)
        ensures
            q@ == QueryView::empty(),
    {
        Query {
            id: String::new(),
            filtering: String::new(),
            pagination: String::new(),
            sorting: String::new(),
        }
    }

    /// Set the id of the resource to get.
    ///
    /// Has no effect once filtering, pagination or sorting is set.
    #[must_use]
    pub fn with_id(self, id: &str) -> (q: Query)
        ensures
            q@ == self@.with_id(id@),
            q@.exclusive(),
    {
        let mut q = self;
        if q.filtering.as_str().is_empty() && q.sorting.as_str().is_empty()
            && q.pagination.as_str().is_empty() {
            q.id = String::from_str(id);
        }
        proof {
            use_type_invariant(&q);
        }
        q
    }

    /// Set the filters to use, each of the form `field=value`.
    ///
    /// Only the first whitespace-delimited token of each filter is kept, so a
    /// filter must hold one. Has no effect once an id is set.
    #[must_use]
    pub fn with_filtering(self, filter: Vec<&str>) -> (q: Query)
        requires
            self@.id.len() == 0 ==> forall|i: int|
                0 <= i < filter@.len() ==> has_token(#[trigger] filter@[i]@),
        ensures
            q@ == self@.with_filtering(texts(filter@)),
            q@.exclusive(),
    {
        let mut q = self;
        if q.id.as_str().is_empty() {
            let ghost tokens = texts(filter@).map_values(|term: Seq<char>| first_token(term));
            let mut joined = String::new();
            let mut i: usize = 0;
            while i < filter.len()
                invariant
                    i <= filter.len(),
                    tokens == texts(filter@).map_values(|term: Seq<char>| first_token(term)),
                    joined@ == join(tokens.take(i as int), "&"@),
                decreases filter.len() - i,
            {
                if i > 0 {
                    joined.append("&");
                }
                joined.append(first_token_of(filter[i]));
                proof {
                    lemma_join_push(tokens.take(i as int), tokens[i as int], "&"@);
                    assert(tokens.take(i + 1) =~= tokens.take(i as int).push(tokens[i as int]));
                }
                i += 1;
            }
            assert(tokens.take(i as int) =~= tokens);
            q.filtering = joined;
        }
        proof {
            use_type_invariant(&q);
        }
        q
    }

    /// Set the page to read and the number of items a page holds.
    ///
    /// Has no effect once an id is set.
    #[must_use]
    pub fn with_pagination(self, page: u8, items_per_page: u16) -> (q: Query)
        ensures
            q@ == self@.with_pagination(page as nat, items_per_page as nat),
            q@.exclusive(),
    {
        let mut q = self;
        if q.id.as_str().is_empty() {
            let mut text = String::from_str("pagination:page=");
            text.append(decimal_string(page as u16).as_str());
            text.append("&pagination:itemsPerPage=");
            text.append(decimal_string(items_per_page).as_str());
            q.pagination = text;
        }
        proof {
            use_type_invariant(&q);
        }
        q
    }

    /// Set the field to sort by and the order.
    ///
    /// Has no effect once an id is set.
    #[must_use]
    pub fn with_sorting(self, field: &str, order: &Order) -> (q: Query)
        ensures
            q@ == self@.with_sorting(field@, *order),
            q@.exclusive(),
    {
        let mut q = self;
        if q.id.as_str().is_empty() {
            let mut text = String::from_str("sort:field=");
            text.append(field);
            text.append("&sort:order=");
            text.append(order.to_string().as_str());
            q.sorting = text;
        }
        proof {
            use_type_invariant(&q);
        }
        q
    }

    /// Renders the query as it appears in a URL.
    pub fn to_string(&self) -> (s: String)
        ensures
            s@ == self@.render(),
    {
        let mut out = String::new();
        append_part(&mut out, self.id.as_str());
        append_part(&mut out, self.filtering.as_str());
        append_part(&mut out, self.pagination.as_str());
        append_part(&mut out, self.sorting.as_str());
        proof {
            lemma_render_unfolds(self@);
        }
        out
    }
}

impl Default for Query {
    fn default() -> (q: Query)
        ensures
            q@ == QueryView::empty(),
    {
        Query::new()
    }
}

/// A decoded response: either the error that the server reported, or the
/// payload that was asked for.
#[derive(Debug)]
pub enum Response<T> {
    /// The server reported an error.
    Error(TcgdexError),
    /// The server sent a payload.
    Data(T),
}

} // verus!

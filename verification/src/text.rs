//! Character and string helpers shared by the query builder and the URL
//! assembly: whitespace, tokens, joining and decimal numerals.

use vstd::prelude::*;

verus! {

/// Whether `c` carries the Unicode `White_Space` property.
pub open spec fn is_whitespace(c: char) -> bool {
    ||| '\u{9}' <= c <= '\u{D}'
    ||| c == ' '
    ||| c == '\u{85}'
    ||| c == '\u{A0}'
    ||| c == '\u{1680}'
    ||| '\u{2000}' <= c <= '\u{200A}'
    ||| c == '\u{2028}'
    ||| c == '\u{2029}'
    ||| c == '\u{202F}'
    ||| c == '\u{205F}'
    ||| c == '\u{3000}'
}

/// Decides whether `c` is a whitespace character.
pub fn char_is_whitespace(c: char) -> (b: bool)
    ensures
        b == is_whitespace(c),
{
    ('\u{9}' <= c && c <= '\u{D}') || c == ' ' || c == '\u{85}' || c == '\u{A0}' || c == '\u{1680}'
        || ('\u{2000}' <= c && c <= '\u{200A}') || c == '\u{2028}' || c == '\u{2029}' || c
        == '\u{202F}' || c == '\u{205F}' || c == '\u{3000}'
}

/// `s` without its leading whitespace.
pub open spec fn trim_start(s: Seq<char>) -> Seq<char>
    decreases s.len(),
{
    if s.len() > 0 && is_whitespace(s[0]) {
        trim_start(s.drop_first())
    } else {
        s
    }
}

/// The longest prefix of `s` that holds no whitespace.
pub open spec fn leading_word(s: Seq<char>) -> Seq<char>
    decreases s.len(),
{
    if s.len() > 0 && !is_whitespace(s[0]) {
        seq![s[0]] + leading_word(s.drop_first())
    } else {
        Seq::empty()
    }
}

/// The first whitespace-delimited token of `s`: what remains of `s` once the
/// leading whitespace is dropped and the text is cut at the next whitespace.
/// It is empty exactly when `s` holds nothing but whitespace.
pub open spec fn first_token(s: Seq<char>) -> Seq<char> {
    leading_word(trim_start(s))
}

/// Whether `s` holds at least one character that is not whitespace.
pub open spec fn has_token(s: Seq<char>) -> bool {
    exists|i: int| 0 <= i < s.len() && !is_whitespace(#[trigger] s[i])
}

proof fn lemma_trim_start_at(s: Seq<char>, a: int)
    requires
        0 <= a <= s.len(),
        forall|i: int| 0 <= i < a ==> is_whitespace(#[trigger] s[i]),
        a == s.len() || !is_whitespace(s[a]),
    ensures
        trim_start(s) == s.subrange(a, s.len() as int),
    decreases a,
{
    if a == 0 {
        assert(s.subrange(0, s.len() as int) =~= s);
    } else {
        let rest = s.drop_first();
        assert forall|i: int| 0 <= i < a - 1 implies is_whitespace(#[trigger] rest[i]) by {
            assert(rest[i] == s[i + 1]);
        }
        lemma_trim_start_at(rest, a - 1);
        assert(rest.subrange(a - 1, rest.len() as int) =~= s.subrange(a, s.len() as int));
    }
}

proof fn lemma_leading_word_at(s: Seq<char>, b: int)
    requires
        0 <= b <= s.len(),
        forall|i: int| 0 <= i < b ==> !is_whitespace(#[trigger] s[i]),
        b == s.len() || is_whitespace(s[b]),
    ensures
        leading_word(s) == s.subrange(0, b),
    decreases b,
{
    if b == 0 {
        assert(s.subrange(0, 0) =~= Seq::<char>::empty());
    } else {
        let rest = s.drop_first();
        assert forall|i: int| 0 <= i < b - 1 implies !is_whitespace(#[trigger] rest[i]) by {
            assert(rest[i] == s[i + 1]);
        }
        lemma_leading_word_at(rest, b - 1);
        assert(seq![s[0]] + rest.subrange(0, b - 1) =~= s.subrange(0, b));
    }
}

/// The first token of `s` lies between `a` and `b` when everything before
/// `a` is whitespace, nothing from `a` up to `b` is, and the token cannot be
/// extended at either end.
pub proof fn lemma_first_token_at(s: Seq<char>, a: int, b: int)
    requires
        0 <= a <= b <= s.len(),
        forall|i: int| 0 <= i < a ==> is_whitespace(#[trigger] s[i]),
        forall|i: int| a <= i < b ==> !is_whitespace(#[trigger] s[i]),
        a < b || a == s.len(),
        b == s.len() || is_whitespace(s[b]),
    ensures
        first_token(s) == s.subrange(a, b),
{
    lemma_trim_start_at(s, a);
    let tail = s.subrange(a, s.len() as int);
    assert forall|i: int| 0 <= i < b - a implies !is_whitespace(#[trigger] tail[i]) by {
        assert(tail[i] == s[a + i]);
    }
    lemma_leading_word_at(tail, b - a);
    assert(tail.subrange(0, b - a) =~= s.subrange(a, b));
}

/// Returns the first whitespace-delimited token of `term`, or the empty
/// string where `term` holds none.
pub fn first_token_of<'a>(term: &'a str) -> (token: &'a str)
    ensures
        token@ == first_token(term@),
{
    let len = term.unicode_len();
    let mut start: usize = 0;
    let mut end: usize = 0;
    let mut in_word = false;
    let mut closed = false;
    for c in it: term.chars()
        invariant
            it.seq() == term@,
            len == term@.len(),
            start <= end <= it.index(),
            forall|i: int| 0 <= i < start ==> is_whitespace(#[trigger] term@[i]),
            forall|i: int| start <= i < end ==> !is_whitespace(#[trigger] term@[i]),
            !in_word ==> !closed && start == end == it.index(),
            in_word ==> start < end,
            in_word && !closed ==> end == it.index(),
            closed ==> in_word && end < len && is_whitespace(term@[end as int]),
    {
        if !closed {
            if char_is_whitespace(c) {
                if in_word {
                    closed = true;
                } else {
                    start += 1;
                    end += 1;
                }
            } else {
                in_word = true;
                end += 1;
            }
        }
    }
    proof {
        lemma_first_token_at(term@, start as int, end as int);
    }
    term.substring_char(start, end)
}

/// Decides whether `term` holds a character that is not whitespace, that is,
/// whether it has a first token.
pub fn contains_token(term: &str) -> (b: bool)
    ensures
        b == has_token(term@),
{
    let mut found = false;
    for c in it: term.chars()
        invariant
            it.seq() == term@,
            found == exists|i: int| 0 <= i < it.index() && !is_whitespace(#[trigger] term@[i]),
    {
        if !char_is_whitespace(c) {
            found = true;
        }
    }
    found
}

proof fn lemma_trim_start_stops_at_word(s: Seq<char>)
    ensures
        trim_start(s).len() == 0 || !is_whitespace(trim_start(s)[0]),
        trim_start(s).len() > 0 <==> has_token(s),
    decreases s.len(),
{
    if s.len() > 0 && is_whitespace(s[0]) {
        let rest = s.drop_first();
        lemma_trim_start_stops_at_word(rest);
        if has_token(rest) {
            let i = choose|i: int| 0 <= i < rest.len() && !is_whitespace(#[trigger] rest[i]);
            assert(!is_whitespace(s[i + 1]));
        }
        if has_token(s) {
            let i = choose|i: int| 0 <= i < s.len() && !is_whitespace(#[trigger] s[i]);
            assert(!is_whitespace(rest[i - 1]));
        }
    } else if s.len() > 0 {
        assert(!is_whitespace(s[0]));
    }
}

proof fn lemma_leading_word_is_a_word(s: Seq<char>)
    ensures
        forall|i: int|
            0 <= i < leading_word(s).len() ==> !is_whitespace(#[trigger] leading_word(s)[i]),
    decreases s.len(),
{
    if s.len() > 0 && !is_whitespace(s[0]) {
        let rest = leading_word(s.drop_first());
        lemma_leading_word_is_a_word(s.drop_first());
        assert forall|i: int| 0 <= i < leading_word(s).len() implies !is_whitespace(
            #[trigger] leading_word(s)[i],
        ) by {
            if i > 0 {
                assert(leading_word(s)[i] == rest[i - 1]);
            }
        }
    }
}

/// A first token holds no whitespace.
pub proof fn lemma_first_token_holds_no_whitespace(s: Seq<char>)
    ensures
        forall|i: int|
            0 <= i < first_token(s).len() ==> !is_whitespace(#[trigger] first_token(s)[i]),
{
    lemma_leading_word_is_a_word(trim_start(s));
}

/// The first token is empty exactly when the text holds only whitespace.
pub proof fn lemma_first_token_nonempty(s: Seq<char>)
    ensures
        first_token(s).len() > 0 <==> has_token(s),
{
    lemma_trim_start_stops_at_word(s);
}

/// A text without whitespace is its own first token.
pub proof fn lemma_first_token_of_word(s: Seq<char>)
    requires
        forall|i: int| 0 <= i < s.len() ==> !is_whitespace(#[trigger] s[i]),
    ensures
        first_token(s) == s,
{
    lemma_first_token_at(s, 0, s.len() as int);
    assert(s.subrange(0, s.len() as int) =~= s);
}

/// The parts in order, with `sep` between each two neighbours.
pub open spec fn join(parts: Seq<Seq<char>>, sep: Seq<char>) -> Seq<char>
    decreases parts.len(),
{
    if parts.len() == 0 {
        Seq::empty()
    } else if parts.len() == 1 {
        parts[0]
    } else {
        join(parts.drop_last(), sep) + sep + parts.last()
    }
}

/// Joining one part more appends it, behind a separator unless it is the
/// first.
pub proof fn lemma_join_push(parts: Seq<Seq<char>>, part: Seq<char>, sep: Seq<char>)
    ensures
        join(parts.push(part), sep) == if parts.len() == 0 {
            part
        } else {
            join(parts, sep) + sep + part
        },
{
    assert(parts.push(part).drop_last() =~= parts);
}

/// Parts that are not empty join to a text that is not empty.
pub proof fn lemma_join_nonempty(parts: Seq<Seq<char>>, sep: Seq<char>)
    requires
        parts.len() > 0,
        forall|i: int| 0 <= i < parts.len() ==> (#[trigger] parts[i]).len() > 0,
    ensures
        join(parts, sep).len() > 0,
{
    assert(parts.last().len() > 0);
}

/// The character that stands for a digit below ten.
pub open spec fn digit(d: nat) -> char
    recommends
        d < 10,
{
    "0123456789"@[d as int]
}

/// The decimal numeral of `n`, without sign or leading zeros.
pub open spec fn decimal(n: nat) -> Seq<char>
    decreases n,
{
    if n < 10 {
        seq![digit(n)]
    } else {
        decimal(n / 10).push(digit(n % 10))
    }
}

/// Renders `n` as a decimal numeral.
pub fn decimal_string(n: u16) -> (s: String)
    ensures
        s@ == decimal(n as nat),
    decreases n,
{
    proof {
        reveal_strlit("0123456789");
    }
    if n < 10 {
        let d: usize = n as usize;
        let digits = "0123456789".substring_char(d, d + 1);
        assert(digits@ =~= seq![digit(n as nat)]);
        String::from_str(digits)
    } else {
        let mut s = decimal_string(n / 10);
        let d: usize = (n % 10) as usize;
        let digits = "0123456789".substring_char(d, d + 1);
        s.append(digits);
        assert(s@ =~= decimal((n / 10) as nat).push(digit((n % 10) as nat)));
        s
    }
}

/// Decides whether `needle` occurs in `text`.
pub fn contains_char(text: &str, needle: char) -> (b: bool)
    ensures
        b == text@.contains(needle),
{
    let mut found = false;
    for c in it: text.chars()
        invariant
            it.seq() == text@,
            found == exists|i: int| 0 <= i < it.index() && #[trigger] text@[i] == needle,
    {
        if c == needle {
            found = true;
        }
    }
    found
}

} // verus!

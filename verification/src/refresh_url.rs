//! URLs that carry the token of a refresh attempt in their query.

use crate::decimal::{parse_decimal, to_decimal};
#[allow(unused_imports)]
use crate::url_query;
use crate::url_query::{append_query_pair, clear_query, query_pairs};
use crate::text::same_text;
#[allow(unused_imports)]
use crate::url_size;
use crate::url_size::{form_query_fits, is_supported};
use url::Url;
use vstd::prelude::*;
use vstd::string::*;
use vstd::utf8::*;

verus! {

/// The query parameter that holds the token.
pub const REFRESH_PARAMETER: &'static str = "__gcal_refresh";

/// Whether a pair is not the reserved parameter.
pub open spec fn is_retained(pair: (Seq<char>, Seq<char>)) -> bool {
    pair.0 != REFRESH_PARAMETER@
}

/// The pairs that are not the reserved parameter, in their order.
pub open spec fn retained(pairs: Seq<(Seq<char>, Seq<char>)>) -> Seq<(Seq<char>, Seq<char>)> {
    pairs.filter(|pair: (Seq<char>, Seq<char>)| is_retained(pair))
}

/// The pair that carries a token.
pub open spec fn token_pair(token: u64) -> (Seq<char>, Seq<char>) {
    (REFRESH_PARAMETER@, crate::decimal::decimal(token as nat))
}

/// The pairs of a URL once it carries `token`: what is retained, then the token.
pub open spec fn refreshed_pairs(
    pairs: Seq<(Seq<char>, Seq<char>)>,
    token: u64,
) -> Seq<(Seq<char>, Seq<char>)> {
    retained(pairs).push(token_pair(token))
}

/// The token that a list of pairs carries: the number in the value of the first
/// reserved parameter, if there is one and its value is a number.
pub open spec fn pairs_token(pairs: Seq<(Seq<char>, Seq<char>)>) -> Option<u64>
    decreases pairs.len(),
{
    if pairs.len() == 0 {
        None
    } else if is_retained(pairs[0]) {
        pairs_token(pairs.skip(1))
    } else {
        crate::decimal::parsed(pairs[0].1)
    }
}

/// The query text of a URL once it carries `token`.
pub open spec fn refreshed_query(base: Url, token: u64) -> Seq<char> {
    url_query::form_query(refreshed_pairs(url_query::url_pairs(base), token))
}

/// Whether `base` still is short enough once it carries `token`.
pub open spec fn refresh_fits(base: Url, token: u64) -> bool {
    &&& url_query::url_supported(base)
    &&& url_query::text_supported(
        url_query::joined(
            url_query::url_front(base),
            Some(refreshed_query(base, token)),
            url_query::url_fragment(base),
        ),
    )
}

/// Keeps the pairs that are not the reserved parameter, in their order.
pub fn retained_pairs(pairs: &Vec<(String, String)>) -> (kept: Vec<(String, String)>)
    ensures
        url_query::pair_texts(kept@) == retained(url_query::pair_texts(pairs@)),
{
    let mut kept: Vec<(String, String)> = Vec::new();
    let ghost texts = url_query::pair_texts(pairs@);
    let ghost keep = |pair: (Seq<char>, Seq<char>)| is_retained(pair);
    let mut i: usize = 0;
    assert(texts.take(0) =~= Seq::<(Seq<char>, Seq<char>)>::empty());
    reveal(Seq::filter);
    while i < pairs.len()
        invariant
            i <= pairs.len(),
            texts == url_query::pair_texts(pairs@),
            keep == (|pair: (Seq<char>, Seq<char>)| is_retained(pair)),
            url_query::pair_texts(kept@) == texts.take(i as int).filter(keep),
        decreases pairs.len() - i,
    {
        assert(texts.take(i + 1).drop_last() =~= texts.take(i as int));
        assert(texts.take(i + 1).last() == (pairs[i as int].0@, pairs[i as int].1@));
        reveal(Seq::filter);
        let ghost before = kept@;
        if !same_text(pairs[i].0.as_str(), REFRESH_PARAMETER) {
            kept.push((pairs[i].0.clone(), pairs[i].1.clone()));
            assert(url_query::pair_texts(kept@) =~= url_query::pair_texts(before).push(
                (pairs[i as int].0@, pairs[i as int].1@),
            ));
        }
        i = i + 1;
    }
    assert(texts.take(texts.len() as int) =~= texts);
    kept
}

/// Reads the token from a list of pairs.
pub fn token_of_pairs(pairs: &Vec<(String, String)>) -> (token: Option<u64>)
    ensures
        token == pairs_token(url_query::pair_texts(pairs@)),
{
    let ghost texts = url_query::pair_texts(pairs@);
    let mut i: usize = 0;
    assert(texts.skip(0) =~= texts);
    while i < pairs.len()
        invariant
            i <= pairs.len(),
            texts == url_query::pair_texts(pairs@),
            pairs_token(texts) == pairs_token(texts.skip(i as int)),
        decreases pairs.len() - i,
    {
        assert(texts.skip(i as int)[0] == (pairs[i as int].0@, pairs[i as int].1@));
        assert(texts.skip(i as int).skip(1) =~= texts.skip(i + 1));
        if same_text(pairs[i].0.as_str(), REFRESH_PARAMETER) {
            return parse_decimal(pairs[i].1.as_str());
        }
        i = i + 1;
    }
    None
}

/// Reads the token that a URL carries.
pub fn refresh_token(url: &Url) -> (token: Option<u64>)
    requires
        url_query::url_supported(*url),
    ensures
        token == pairs_token(url_query::url_pairs(*url)),
{
    let pairs = query_pairs(url);
    token_of_pairs(&pairs)
}

/// Puts the token after the pairs that are not the reserved parameter.
pub fn pairs_with_token(pairs: &Vec<(String, String)>, token: u64) -> (fresh: Vec<(String, String)>)
    ensures
        url_query::pair_texts(fresh@) == refreshed_pairs(url_query::pair_texts(pairs@), token),
{
    let mut fresh = retained_pairs(pairs);
    let ghost kept = fresh@;
    fresh.push((REFRESH_PARAMETER.to_owned(), to_decimal(token)));
    assert(url_query::pair_texts(fresh@) =~= url_query::pair_texts(kept).push(token_pair(token)));
    fresh
}

/// What a URL is once `base` carries `token`: the reserved parameter is replaced,
/// the other pairs and the fragment stay, and so does all before the query, but
/// for the trailing spaces of an opaque path.
pub open spec fn is_refreshed(base: Url, token: u64, url: Url) -> bool {
    &&& url_query::url_front(url) == url_query::cleared_front(
        url_query::url_front(base),
        url_query::url_fragment(base),
    )
    &&& url_query::url_query(url) == Some(refreshed_query(base, token))
    &&& url_query::url_fragment(url) == url_query::url_fragment(base)
    &&& url_query::url_pairs(url) == refreshed_pairs(url_query::url_pairs(base), token)
}

/// Gives `base` the token of a refresh attempt.
pub fn refresh_url(base: &Url, token: u64) -> (url: Url)
    requires
        refresh_fits(*base, token),
    ensures
        is_refreshed(*base, token, url),
        url_query::url_supported(url),
{
    let read = query_pairs(base);
    let pairs = pairs_with_token(&read, token);
    let mut url = base.clone();
    clear_query(&mut url);
    let ghost texts = url_query::pair_texts(pairs@);
    let ghost front = url_query::url_front(url);
    let ghost fragment = url_query::url_fragment(*base);
    let ghost full = url_query::form_query(texts);
    let mut i: usize = 0;
    proof {
        assert(texts.take(0) =~= Seq::<(Seq<char>, Seq<char>)>::empty());
        url_size::lemma_cleared_front_len(url_query::url_front(*base), fragment);
        url_size::lemma_joined_len(front, Some(full), fragment);
        url_size::lemma_joined_len(url_query::url_front(*base), Some(full), fragment);
    }
    while i < pairs.len()
        invariant
            i <= pairs.len(),
            texts == url_query::pair_texts(pairs@),
            full == url_query::form_query(texts),
            url_query::text_supported(url_query::joined(front, Some(full), fragment)),
            url_query::url_front(url) == front,
            url_query::url_fragment(url) == fragment,
            url_query::query_text(url) == url_query::form_query(texts.take(i as int)),
            url_query::url_pairs(url) == texts.take(i as int),
            i > 0 ==> url_query::url_query(url) is Some,
        decreases pairs.len() - i,
    {
        proof {
            assert(texts.take(i + 1).drop_last() =~= texts.take(i as int));
            assert(texts.take(i + 1) =~= texts.take(i as int).push(texts[i as int]));
            url_size::lemma_form_query_prefix(texts, i + 1);
            url_size::lemma_joined_len(front, Some(full), fragment);
            url_size::lemma_joined_len(
                front,
                Some(url_query::form_query(texts.take(i + 1))),
                fragment,
            );
        }
        append_query_pair(&mut url, pairs[i].0.as_str(), pairs[i].1.as_str());
        i = i + 1;
    }
    assert(texts.take(texts.len() as int) =~= texts);
    url
}

/// Gives `base` the token of a refresh attempt, if the URL is and stays short
/// enough for that.
pub fn checked_refresh_url(base: &Url, token: u64) -> (url: Option<Url>)
    ensures
        url is Some == refresh_fits(*base, token),
        url is Some ==> is_refreshed(*base, token, url->0),
        url is Some ==> url_query::url_supported(url->0),
{
    if !is_supported(base) {
        return None;
    }
    let read = query_pairs(base);
    let pairs = pairs_with_token(&read, token);
    let total: u64 = base.as_str().as_bytes().len() as u64;
    proof {
        url_size::lemma_joined_len(
            url_query::url_front(*base),
            url_query::url_query(*base),
            url_query::url_fragment(*base),
        );
        url_size::lemma_joined_len(
            url_query::url_front(*base),
            Some(refreshed_query(*base, token)),
            url_query::url_fragment(*base),
        );
    }
    let replaced: u64 = match base.query() {
        Some(query) => query.as_bytes().len() as u64 + 1,
        None => 0,
    };
    let rest: u64 = total - replaced;
    if rest + 2 > u32::MAX as u64 {
        return None;
    }
    let limit: u32 = (u32::MAX as u64 - 2 - rest) as u32;
    if form_query_fits(&pairs, limit) {
        Some(refresh_url(base, token))
    } else {
        None
    }
}

/// Of pairs that are all retained, none is dropped.
proof fn lemma_all_retained(pairs: Seq<(Seq<char>, Seq<char>)>)
    requires
        forall|i: int| 0 <= i < pairs.len() ==> is_retained(#[trigger] pairs[i]),
    ensures
        retained(pairs) == pairs,
    decreases pairs.len(),
{
    reveal(Seq::filter);
    if pairs.len() > 0 {
        lemma_all_retained(pairs.drop_last());
        assert(is_retained(pairs[pairs.len() - 1]));
        assert(pairs =~= pairs.drop_last().push(pairs.last()));
    }
}

/// A token that follows retained pairs only is the one that is read.
proof fn lemma_token_after_retained(pairs: Seq<(Seq<char>, Seq<char>)>, token: u64)
    requires
        forall|i: int| 0 <= i < pairs.len() ==> is_retained(#[trigger] pairs[i]),
    ensures
        pairs_token(pairs.push(token_pair(token))) == Some(token),
    decreases pairs.len(),
{
    let all = pairs.push(token_pair(token));
    if pairs.len() == 0 {
        crate::decimal::law_decimal_reads_back(token);
    } else {
        assert(all[0] == pairs[0]);
        assert(all.skip(1) =~= pairs.skip(1).push(token_pair(token)));
        lemma_token_after_retained(pairs.skip(1), token);
    }
}

/// The reserved parameter is never among the retained pairs.
proof fn lemma_retained_holds(pairs: Seq<(Seq<char>, Seq<char>)>)
    ensures
        forall|i: int|
            0 <= i < retained(pairs).len() ==> is_retained(#[trigger] retained(pairs)[i]),
{
    let keep = |pair: (Seq<char>, Seq<char>)| is_retained(pair);
    assert forall|i: int| 0 <= i < retained(pairs).len() implies is_retained(
        #[trigger] retained(pairs)[i],
    ) by {
        pairs.lemma_filter_pred(keep, i);
        assert(keep(pairs.filter(keep)[i]));
    }
}

/// The token that was put into a list of pairs is the one that is read from it.
pub proof fn law_token_reads_back(pairs: Seq<(Seq<char>, Seq<char>)>, token: u64)
    ensures
        pairs_token(refreshed_pairs(pairs, token)) == Some(token),
{
    lemma_retained_holds(pairs);
    lemma_token_after_retained(retained(pairs), token);
}

/// After a refresh the reserved parameter occurs exactly once, at the end.
pub proof fn law_reserved_parameter_once(pairs: Seq<(Seq<char>, Seq<char>)>, token: u64)
    ensures
        forall|i: int|
            0 <= i < refreshed_pairs(pairs, token).len() ==> (refreshed_pairs(pairs, token)[i].0
                == REFRESH_PARAMETER@ <==> i == refreshed_pairs(pairs, token).len() - 1),
        refreshed_pairs(pairs, token).len() > 0,
{
    lemma_retained_holds(pairs);
    let kept = retained(pairs);
    assert forall|i: int| 0 <= i < refreshed_pairs(pairs, token).len() implies (refreshed_pairs(
        pairs,
        token,
    )[i].0 == REFRESH_PARAMETER@ <==> i == refreshed_pairs(pairs, token).len() - 1) by {
        if i < kept.len() {
            assert(is_retained(kept[i]));
            assert(refreshed_pairs(pairs, token)[i] == kept[i]);
        }
    }
}

/// A refresh leaves every other pair where it was, in order.
pub proof fn law_other_pairs_stay(pairs: Seq<(Seq<char>, Seq<char>)>, token: u64)
    ensures
        retained(refreshed_pairs(pairs, token)) == retained(pairs),
{
    lemma_retained_holds(pairs);
    lemma_all_retained(retained(pairs));
    reveal(Seq::filter);
    assert(refreshed_pairs(pairs, token).drop_last() =~= retained(pairs));
}

/// Clearing the query of a URL that has none changes nothing more.
proof fn lemma_cleared_front_twice(front: Seq<char>, fragment: Option<Seq<char>>)
    ensures
        url_query::cleared_front(url_query::cleared_front(front, fragment), fragment)
            == url_query::cleared_front(front, fragment),
{
    lemma_trimmed_end_twice(front);
}

proof fn lemma_trimmed_end_twice(text: Seq<char>)
    ensures
        url_query::trimmed_end(url_query::trimmed_end(text)) == url_query::trimmed_end(text),
    decreases text.len(),
{
    if text.len() > 0 && text.last() == ' ' {
        lemma_trimmed_end_twice(text.drop_last());
    }
}

/// A refreshed URL carries the token of its attempt, whatever the calendar's URL
/// carried before.
pub proof fn law_refreshed_url_carries_token(base: Url, token: u64, url: Url)
    requires
        is_refreshed(base, token, url),
    ensures
        pairs_token(url_query::url_pairs(url)) == Some(token),
{
    law_token_reads_back(url_query::url_pairs(base), token);
}

/// A refreshed URL keeps everything before the query, and the fragment, unless the
/// calendar's URL has an opaque path that ends in a space and no fragment.
pub proof fn law_refreshed_url_keeps_path_and_fragment(base: Url, token: u64, url: Url)
    requires
        is_refreshed(base, token, url),
        !(url_query::opaque_path(url_query::url_front(base)) && url_query::url_front(base).len() > 0
            && url_query::url_front(base).last() == ' ' && url_query::url_fragment(base) is None),
    ensures
        url_query::url_front(url) == url_query::url_front(base),
        url_query::url_fragment(url) == url_query::url_fragment(base),
{
}

/// Refreshing a refreshed URL gives what refreshing the first URL with the later
/// token gives: tokens replace one another.
pub proof fn law_later_token_replaces_earlier(
    base: Url,
    first: u64,
    url: Url,
    second: u64,
    again: Url,
)
    requires
        is_refreshed(base, first, url),
        is_refreshed(url, second, again),
    ensures
        is_refreshed(base, second, again),
{
    law_other_pairs_stay(url_query::url_pairs(base), first);
    lemma_cleared_front_twice(url_query::url_front(base), url_query::url_fragment(base));
}

/// Pairs are kept or dropped one by one, by their names alone: a pair is dropped if and
/// only if its name is the reserved one, whatever its value is, and what is kept of two
/// lists in a row is what is kept of each, in a row.
pub proof fn law_pairs_are_kept_by_their_names(
    a: Seq<(Seq<char>, Seq<char>)>,
    b: Seq<(Seq<char>, Seq<char>)>,
    pair: (Seq<char>, Seq<char>),
)
    ensures
        retained(Seq::empty()) == Seq::<(Seq<char>, Seq<char>)>::empty(),
        pair.0 == "__gcal_refresh"@ ==> retained(seq![pair]) == Seq::<
            (Seq<char>, Seq<char>),
        >::empty(),
        pair.0 != "__gcal_refresh"@ ==> retained(seq![pair]) == seq![pair],
        retained(a + b) == retained(a) + retained(b),
{
    reveal(Seq::filter);
    assert(seq![pair].drop_last() =~= Seq::<(Seq<char>, Seq<char>)>::empty());
    assert(Seq::<(Seq<char>, Seq<char>)>::empty().push(pair) =~= seq![pair]);
    Seq::filter_distributes_over_add(a, b, |pair: (Seq<char>, Seq<char>)| is_retained(pair));
}

/// How often a pair occurs in a list.
pub open spec fn occurrences(
    pairs: Seq<(Seq<char>, Seq<char>)>,
    pair: (Seq<char>, Seq<char>),
) -> nat
    decreases pairs.len(),
{
    if pairs.len() == 0 {
        0
    } else {
        occurrences(pairs.drop_last(), pair) + (if pairs.last() == pair {
            1nat
        } else {
            0
        })
    }
}

/// A pair with any other name than the reserved one occurs as often after a refresh as
/// before it, and one with the reserved name only as the token.
pub proof fn law_every_other_pair_is_kept(
    pairs: Seq<(Seq<char>, Seq<char>)>,
    token: u64,
    pair: (Seq<char>, Seq<char>),
)
    ensures
        pair.0 != "__gcal_refresh"@ ==> occurrences(refreshed_pairs(pairs, token), pair)
            == occurrences(pairs, pair),
        pair.0 == "__gcal_refresh"@ ==> occurrences(refreshed_pairs(pairs, token), pair) == (
        if pair.1 == crate::decimal::decimal(token as nat) {
            1nat
        } else {
            0
        }),
{
    lemma_retained_occurrences(pairs, pair);
    assert(refreshed_pairs(pairs, token).drop_last() =~= retained(pairs));
}

proof fn lemma_retained_occurrences(
    pairs: Seq<(Seq<char>, Seq<char>)>,
    pair: (Seq<char>, Seq<char>),
)
    ensures
        occurrences(retained(pairs), pair) == (if pair.0 == "__gcal_refresh"@ {
            0
        } else {
            occurrences(pairs, pair)
        }),
    decreases pairs.len(),
{
    reveal(Seq::filter);
    if pairs.len() > 0 {
        lemma_retained_occurrences(pairs.drop_last(), pair);
        let kept = retained(pairs.drop_last());
        assert(kept.push(pairs.last()).drop_last() =~= kept);
    }
}

/// The token is the number in the first pair with the reserved name, whatever stands
/// before and behind it; without such a pair there is none.
pub proof fn law_token_is_in_the_first_reserved_pair(pairs: Seq<(Seq<char>, Seq<char>)>, i: int)
    requires
        0 <= i <= pairs.len(),
        forall|j: int| 0 <= j < i ==> (#[trigger] pairs[j]).0 != "__gcal_refresh"@,
        i < pairs.len() ==> pairs[i].0 == "__gcal_refresh"@,
    ensures
        pairs_token(pairs) == (if i < pairs.len() {
            crate::decimal::parsed(pairs[i].1)
        } else {
            None
        }),
    decreases pairs.len(),
{
    if i > 0 {
        let rest = pairs.skip(1);
        assert forall|j: int| 0 <= j < i - 1 implies (#[trigger] rest[j]).0
            != "__gcal_refresh"@ by {
            assert(rest[j] == pairs[j + 1]);
        }
        assert(pairs[0].0 != "__gcal_refresh"@);
        law_token_is_in_the_first_reserved_pair(rest, i - 1);
    }
}

/// The query of a refreshed URL, for every URL and token: the pairs that were there and
/// are not named like the token, in their order, then the token in decimal, as the text
/// to which these pairs are encoded.
pub proof fn law_refreshed_url_holds_the_other_pairs_and_the_token(base: Url, token: u64, url: Url)
    requires
        is_refreshed(base, token, url),
    ensures
        ({
            let kept = url_query::url_pairs(base).filter(
                |pair: (Seq<char>, Seq<char>)| pair.0 != "__gcal_refresh"@,
            );
            let all = kept.push(("__gcal_refresh"@, crate::decimal::decimal(token as nat)));
            &&& url_query::url_pairs(url) == all
            &&& url_query::url_query(url) == Some(url_query::form_query(all))
        }),
{
    let by_name = |pair: (Seq<char>, Seq<char>)| pair.0 != "__gcal_refresh"@;
    let by_rule = |pair: (Seq<char>, Seq<char>)| is_retained(pair);
    assert(by_name =~= by_rule);
}

/// Pairs are written one behind the other, joined by ampersands, each with its name, an
/// equals sign and its value, both encoded; the first stands alone.
pub proof fn law_query_text_grows_pair_by_pair(
    pairs: Seq<(Seq<char>, Seq<char>)>,
    pair: (Seq<char>, Seq<char>),
)
    ensures
        ({
            let text = url_query::form_encoded(pair.0) + seq!['='] + url_query::form_encoded(
                pair.1,
            );
            &&& url_query::form_query(seq![pair]) == text
            &&& pairs.len() > 0 ==> url_query::form_query(pairs.push(pair))
                == url_query::form_query(pairs) + seq!['&'] + text
        }),
{
    reveal_with_fuel(url_query::form_query, 2);
    assert(seq![pair].drop_last() =~= Seq::<(Seq<char>, Seq<char>)>::empty());
    assert(pairs.push(pair).drop_last() =~= pairs);
    let text = url_query::form_encoded(pair.0) + seq!['='] + url_query::form_encoded(pair.1);
    assert(url_query::form_query(seq![pair]) =~= text);
    if pairs.len() > 0 {
        assert(url_query::form_query(pairs).len() > 0);
        assert(url_query::form_query(pairs.push(pair)) =~= url_query::form_query(pairs)
            + seq!['&'] + text);
    }
}

/// A URL can be refreshed, with any token, exactly when it is below 4 GB now and then,
/// in bytes.
pub proof fn law_urls_below_the_limit_can_be_refreshed(base: Url, token: u64)
    ensures
        ({
            let query = url_query::form_query(
                url_query::url_pairs(base).filter(
                    |pair: (Seq<char>, Seq<char>)| pair.0 != "__gcal_refresh"@,
                ).push(("__gcal_refresh"@, crate::decimal::decimal(token as nat))),
            );
            let text = url_query::url_front(base) + seq!['?'] + query + (
            match url_query::url_fragment(base) {
                Some(fragment) => seq!['#'] + fragment,
                None => Seq::empty(),
            });
            refresh_fits(base, token) <==> encode_utf8(url_query::url_text(base)).len()
                < 0xffff_ffff && encode_utf8(text).len() < 0xffff_ffff
        }),
{
    let by_name = |pair: (Seq<char>, Seq<char>)| pair.0 != "__gcal_refresh"@;
    let by_rule = |pair: (Seq<char>, Seq<char>)| is_retained(pair);
    assert(by_name =~= by_rule);
    let query = refreshed_query(base, token);
    let front = url_query::url_front(base) + seq!['?'] + query;
    match url_query::url_fragment(base) {
        Some(fragment) => {
            assert(front + (seq!['#'] + fragment) =~= front + seq!['#'] + fragment);
        },
        None => {
            assert(front + Seq::<char>::empty() =~= front);
        },
    }
}

} // verus!

//! The calls into the `url` crate, with what is relied on of each of them.
//!
//! A [`Url`] is described by what it holds, three pieces of its text: what stands
//! before the query, the query, and the fragment. The query in turn holds a list of
//! name and value pairs.

use url::Url;
use vstd::prelude::*;
use vstd::string::*;
use vstd::utf8::*;

verus! {

/// A parsed URL of the `url` crate. Its fields stay hidden; the names below
/// speak of what its accessors return.
#[verifier::external_type_specification]
#[verifier::external_body]
pub struct ExUrl(url::Url);

/// The text of a URL up to the end of its path: `&url[..Position::AfterPath]`.
pub uninterp spec fn url_front(url: Url) -> Seq<char>;

/// The text of a URL's query, without the question mark: `Url::query`.
pub uninterp spec fn url_query(url: Url) -> Option<Seq<char>>;

/// The text of a URL's fragment, without the number sign: `Url::fragment`.
pub uninterp spec fn url_fragment(url: Url) -> Option<Seq<char>>;

/// The decoded name and value pairs of a query text:
/// `form_urlencoded::parse`, which `Url::query_pairs` applies to the query.
pub uninterp spec fn form_pairs(query: Seq<char>) -> Seq<(Seq<char>, Seq<char>)>;

/// A URL's query, or the empty text where it has none.
pub open spec fn query_text(url: Url) -> Seq<char> {
    match url_query(url) {
        Some(query) => query,
        None => Seq::empty(),
    }
}

/// The name and value pairs in a URL's query.
pub open spec fn url_pairs(url: Url) -> Seq<(Seq<char>, Seq<char>)> {
    form_pairs(query_text(url))
}

/// The whole text made of the three pieces of a URL.
pub open spec fn joined(
    front: Seq<char>,
    query: Option<Seq<char>>,
    fragment: Option<Seq<char>>,
) -> Seq<char> {
    let with_query = match query {
        Some(query) => front + seq!['?'] + query,
        None => front,
    };
    match fragment {
        Some(fragment) => with_query + seq!['#'] + fragment,
        None => with_query,
    }
}

/// The whole text of a URL.
pub open spec fn url_text(url: Url) -> Seq<char> {
    joined(url_front(url), url_query(url), url_fragment(url))
}

/// Whether a URL with this text is short enough for the `url` crate, which
/// keeps positions as 32-bit numbers and supports no URL beyond 4 GB.
pub open spec fn text_supported(text: Seq<char>) -> bool {
    crate::url_size::byte_len(text) < u32::MAX
}

/// Whether a URL is short enough for every accessor and setter.
pub open spec fn url_supported(url: Url) -> bool {
    text_supported(url_text(url))
}

/// Whether a byte is written unchanged in a form-encoded query.
pub open spec fn form_unreserved(byte: u8) -> bool {
    ||| 48 <= byte <= 57
    ||| 65 <= byte <= 90
    ||| 97 <= byte <= 122
    ||| byte == 42
    ||| byte == 45
    ||| byte == 46
    ||| byte == 95
}

/// The upper-case hexadecimal digit for a number below sixteen.
pub open spec fn hex_digit(n: int) -> char {
    (if n < 10 { 48 + n } else { 55 + n }) as u32 as char
}

/// What one byte becomes in a form-encoded query.
pub open spec fn form_encoded_byte(byte: u8) -> Seq<char> {
    if form_unreserved(byte) {
        seq![byte as char]
    } else if byte == 32 {
        seq!['+']
    } else {
        seq!['%', hex_digit(byte as int / 16), hex_digit(byte as int % 16)]
    }
}

/// What a run of bytes becomes in a form-encoded query.
pub open spec fn form_encoded_bytes(bytes: Seq<u8>) -> Seq<char>
    decreases bytes.len(),
{
    if bytes.len() == 0 {
        Seq::empty()
    } else {
        form_encoded_bytes(bytes.drop_last()) + form_encoded_byte(bytes.last())
    }
}

/// What a name or a value becomes in a form-encoded query.
pub open spec fn form_encoded(text: Seq<char>) -> Seq<char> {
    form_encoded_bytes(encode_utf8(text))
}

/// The query text once a pair is appended to it.
pub open spec fn form_append(query: Seq<char>, name: Seq<char>, value: Seq<char>) -> Seq<char> {
    let start = if query.len() > 0 {
        query + seq!['&']
    } else {
        query
    };
    start + form_encoded(name) + seq!['='] + form_encoded(value)
}

/// The query text that holds the given pairs, each appended in turn.
pub open spec fn form_query(pairs: Seq<(Seq<char>, Seq<char>)>) -> Seq<char>
    decreases pairs.len(),
{
    if pairs.len() == 0 {
        Seq::empty()
    } else {
        form_append(
            form_query(pairs.drop_last()),
            pairs.last().0,
            pairs.last().1,
        )
    }
}

/// Whether a URL with this front has an opaque path: no slash after the scheme's
/// colon, as in `mailto:someone`.
pub open spec fn opaque_path(front: Seq<char>) -> bool {
    let after_scheme = front.index_of_first(':').unwrap() + 1;
    front.len() == after_scheme || front[after_scheme] != '/'
}

/// A text without the spaces at its end.
pub open spec fn trimmed_end(text: Seq<char>) -> Seq<char>
    decreases text.len(),
{
    if text.len() > 0 && text.last() == ' ' {
        trimmed_end(text.drop_last())
    } else {
        text
    }
}

/// The front of a URL once its query is removed: an opaque path with nothing
/// after it loses its trailing spaces.
pub open spec fn cleared_front(front: Seq<char>, fragment: Option<Seq<char>>) -> Seq<char> {
    if fragment is None && opaque_path(front) {
        trimmed_end(front)
    } else {
        front
    }
}

/// The texts of owned pairs.
pub open spec fn pair_texts(pairs: Seq<(String, String)>) -> Seq<(Seq<char>, Seq<char>)> {
    pairs.map_values(|pair: (String, String)| (pair.0@, pair.1@))
}

/// `Url::as_str` returns the whole text: front, query and fragment with their
/// delimiters.
pub assume_specification[ Url::as_str ](url: &Url) -> (text: &str)
    ensures
        text@ == url_text(*url),
;

/// `Url::query` returns the query without its question mark, if there is one.
pub assume_specification[ Url::query ](url: &Url) -> (query: Option<&str>)
    requires
        url_supported(*url),
    ensures
        query is Some == url_query(*url) is Some,
        query is Some ==> query->0@ == url_query(*url)->0,
;

/// `Url::clone` copies a URL.
pub assume_specification[ <Url as Clone>::clone ](url: &Url) -> (copy: Url)
    ensures
        copy == *url,
;

/// Collects what `Url::query_pairs` yields: the decoded pairs of the query, in
/// their order, none where there is no query.
#[verifier::external_body]
pub(crate) fn query_pairs(url: &Url) -> (pairs: Vec<(String, String)>)
    requires
        url_supported(*url),
    ensures
        pair_texts(pairs@) == form_pairs(query_text(*url)),
{
    url.query_pairs().into_owned().collect()
}

/// Calls `Url::set_query` with `None`: the query goes, the fragment stays, and so
/// does the front but for the trailing spaces of an opaque path. Without a query
/// there are no pairs.
#[verifier::external_body]
pub(crate) fn clear_query(url: &mut Url)
    requires
        url_supported(*old(url)),
    ensures
        url_query(*final(url)) is None,
        url_fragment(*final(url)) == url_fragment(*old(url)),
        url_front(*final(url)) == cleared_front(url_front(*old(url)), url_fragment(*old(url))),
        url_pairs(*final(url)) == Seq::<(Seq<char>, Seq<char>)>::empty(),
{
    url.set_query(None);
}

/// Calls `append_pair` on what `Url::query_pairs_mut` returns: the pair is
/// form-encoded at the end of the query, which is created where there was none,
/// and reads back after the pairs that were there. Nothing else changes.
#[verifier::external_body]
pub(crate) fn append_query_pair(url: &mut Url, name: &str, value: &str)
    requires
        text_supported(
            joined(
                url_front(*old(url)),
                Some(form_append(query_text(*old(url)), name@, value@)),
                url_fragment(*old(url)),
            ),
        ),
    ensures
        url_front(*final(url)) == url_front(*old(url)),
        url_query(*final(url)) == Some(form_append(query_text(*old(url)), name@, value@)),
        url_fragment(*final(url)) == url_fragment(*old(url)),
        url_pairs(*final(url)) == url_pairs(*old(url)).push((name@, value@)),
{
    url.query_pairs_mut().append_pair(name, value);
}

} // verus!

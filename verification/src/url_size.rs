//! How long a URL is, and how long it becomes.

#[allow(unused_imports)]
use crate::url_query;
use url::Url;
use vstd::prelude::*;
use vstd::string::*;
use vstd::utf8::*;

verus! {

/// How many bytes a text takes up.
pub open spec fn byte_len(text: Seq<char>) -> nat {
    encode_utf8(text).len()
}

proof fn lemma_byte_len_concat(a: Seq<char>, b: Seq<char>)
    ensures
        byte_len(a + b) == byte_len(a) + byte_len(b),
    decreases a.len(),
{
    if a.len() == 0 {
        assert(a + b =~= b);
    } else {
        lemma_byte_len_concat(a.drop_first(), b);
        assert((a + b).drop_first() =~= a.drop_first() + b);
    }
}

proof fn lemma_byte_len_ascii(c: char)
    requires
        c < '\u{80}',
    ensures
        byte_len(seq![c]) == 1,
{
    is_ascii_chars_encode_utf8(seq![c]);
}

pub(crate) proof fn lemma_joined_len(
    front: Seq<char>,
    query: Option<Seq<char>>,
    fragment: Option<Seq<char>>,
)
    ensures
        byte_len(url_query::joined(front, query, fragment)) == byte_len(front) + (match query {
            Some(query) => 1 + byte_len(query),
            None => 0,
        }) + (match fragment {
            Some(fragment) => 1 + byte_len(fragment),
            None => 0,
        }),
{
    lemma_byte_len_ascii('?');
    lemma_byte_len_ascii('#');
    let with_query = match query {
        Some(query) => {
            lemma_byte_len_concat(front, seq!['?']);
            lemma_byte_len_concat(front + seq!['?'], query);
            front + seq!['?'] + query
        },
        None => front,
    };
    if fragment is Some {
        lemma_byte_len_concat(with_query, seq!['#']);
        lemma_byte_len_concat(with_query + seq!['#'], fragment->0);
    }
}

proof fn lemma_trimmed_end_len(text: Seq<char>)
    ensures
        byte_len(url_query::trimmed_end(text)) <= byte_len(text),
    decreases text.len(),
{
    if text.len() > 0 && text.last() == ' ' {
        lemma_trimmed_end_len(text.drop_last());
        lemma_byte_len_concat(text.drop_last(), seq![' ']);
        assert(text =~= text.drop_last() + seq![' ']);
    }
}

pub(crate) proof fn lemma_cleared_front_len(front: Seq<char>, fragment: Option<Seq<char>>)
    ensures
        byte_len(url_query::cleared_front(front, fragment)) <= byte_len(front),
{
    lemma_trimmed_end_len(front);
}

/// Appending a pair lengthens the query by the encoded pair, an equals sign and,
/// where there was something before it, an ampersand.
proof fn lemma_form_append_len(query: Seq<char>, name: Seq<char>, value: Seq<char>)
    ensures
        byte_len(url_query::form_append(query, name, value)) == byte_len(query) + (
        if query.len() > 0 {
            1nat
        } else {
            0
        }) + byte_len(url_query::form_encoded(name)) + 1 + byte_len(
            url_query::form_encoded(value),
        ),
{
    let start = if query.len() > 0 {
        query + seq!['&']
    } else {
        query
    };
    let name = url_query::form_encoded(name);
    let value = url_query::form_encoded(value);
    lemma_byte_len_ascii('&');
    lemma_byte_len_ascii('=');
    lemma_byte_len_concat(query, seq!['&']);
    lemma_byte_len_concat(start, name);
    lemma_byte_len_concat(start + name, seq!['=']);
    lemma_byte_len_concat(start + name + seq!['='], value);
}

/// Pairs that come later only lengthen the query.
pub(crate) proof fn lemma_form_query_prefix(pairs: Seq<(Seq<char>, Seq<char>)>, n: int)
    requires
        0 <= n <= pairs.len(),
    ensures
        byte_len(url_query::form_query(pairs.take(n))) <= byte_len(
            url_query::form_query(pairs),
        ),
    decreases pairs.len(),
{
    if n < pairs.len() {
        lemma_form_query_prefix(pairs.drop_last(), n);
        assert(pairs.drop_last().take(n) =~= pairs.take(n));
        lemma_form_append_len(
            url_query::form_query(pairs.drop_last()),
            pairs.last().0,
            pairs.last().1,
        );
    } else {
        assert(pairs.take(n) =~= pairs);
    }
}

proof fn lemma_form_encoded_len(bytes: Seq<u8>)
    ensures
        byte_len(url_query::form_encoded_bytes(bytes)) == url_query::form_encoded_bytes(
            bytes,
        ).len(),
        url_query::form_encoded_bytes(bytes).len() <= 3 * bytes.len(),
    decreases bytes.len(),
{
    if bytes.len() > 0 {
        let rest = url_query::form_encoded_bytes(bytes.drop_last());
        let last = url_query::form_encoded_byte(bytes.last());
        lemma_form_encoded_len(bytes.drop_last());
        lemma_byte_len_concat(rest, last);
        assert(is_ascii_chars(last));
        is_ascii_chars_encode_utf8(last);
    }
}

/// Counts the bytes that a name or a value takes up in a query.
fn form_encoded_len(text: &str) -> (len: u128)
    ensures
        len == byte_len(url_query::form_encoded(text@)),
        len <= 3 * usize::MAX,
{
    let bytes = text.as_bytes();
    let mut len: u128 = 0;
    let mut i: usize = 0;
    while i < bytes.len()
        invariant
            i <= bytes@.len(),
            bytes@ == encode_utf8(text@),
            len == url_query::form_encoded_bytes(bytes@.take(i as int)).len(),
            len <= 3 * i,
        decreases bytes@.len() - i,
    {
        let byte = bytes[i];
        assert(bytes@.take(i + 1).drop_last() =~= bytes@.take(i as int));
        let unchanged = (48 <= byte && byte <= 57) || (65 <= byte && byte <= 90) || (97 <= byte
            && byte <= 122) || byte == 42 || byte == 45 || byte == 46 || byte == 95;
        if unchanged || byte == 32 {
            len = len + 1;
        } else {
            len = len + 3;
        }
        i = i + 1;
    }
    proof {
        assert(bytes@.take(bytes@.len() as int) =~= bytes@);
        lemma_form_encoded_len(bytes@);
    }
    len
}

/// Tells whether the query text that holds the given pairs takes up no more than
/// `limit` bytes.
pub(crate) fn form_query_fits(pairs: &Vec<(String, String)>, limit: u32) -> (fits: bool)
    ensures
        fits == (byte_len(url_query::form_query(url_query::pair_texts(pairs@)))
            <= limit),
{
    let ghost texts = url_query::pair_texts(pairs@);
    let mut len: u32 = 0;
    let mut i: usize = 0;
    assert(texts.take(0) =~= Seq::<(Seq<char>, Seq<char>)>::empty());
    while i < pairs.len()
        invariant
            i <= pairs.len(),
            texts == url_query::pair_texts(pairs@),
            len == byte_len(url_query::form_query(texts.take(i as int))),
            len <= limit,
            (i > 0) == (url_query::form_query(texts.take(i as int)).len() > 0),
        decreases pairs.len() - i,
    {
        proof {
            assert(texts.take(i + 1).drop_last() =~= texts.take(i as int));
            lemma_form_append_len(
                url_query::form_query(texts.take(i as int)),
                texts[i as int].0,
                texts[i as int].1,
            );
            lemma_form_query_prefix(texts, i + 1);
        }
        let separator: u128 = if i > 0 {
            1
        } else {
            0
        };
        let next: u128 = len as u128 + separator + form_encoded_len(pairs[i].0.as_str()) + 1
            + form_encoded_len(pairs[i].1.as_str());
        if next > limit as u128 {
            return false;
        }
        len = next as u32;
        i = i + 1;
    }
    assert(texts.take(texts.len() as int) =~= texts);
    true
}

/// Tells whether a URL is short enough for every accessor and setter.
pub fn is_supported(url: &Url) -> (supported: bool)
    ensures
        supported == url_query::url_supported(*url),
{
    (url.as_str().as_bytes().len() as u64) < u32::MAX as u64
}

/// The text of a URL is what stands before its query, the query behind a question mark and
/// the fragment behind a number sign, each if there is one; the URL is supported exactly
/// when that takes up less than 4 GB.
pub proof fn law_urls_below_the_limit_are_supported(url: Url)
    ensures
        ({
            let query = match url_query::url_query(url) {
                Some(query) => seq!['?'] + query,
                None => Seq::empty(),
            };
            let fragment = match url_query::url_fragment(url) {
                Some(fragment) => seq!['#'] + fragment,
                None => Seq::empty(),
            };
            let text = url_query::url_front(url) + query + fragment;
            &&& url_query::url_text(url) == text
            &&& url_query::url_supported(url) <==> encode_utf8(text).len() < 0xffff_ffff
        }),
{
    let front = url_query::url_front(url);
    let query = match url_query::url_query(url) {
        Some(query) => seq!['?'] + query,
        None => Seq::empty(),
    };
    let fragment = match url_query::url_fragment(url) {
        Some(fragment) => seq!['#'] + fragment,
        None => Seq::empty(),
    };
    assert(url_query::url_text(url) =~= front + query + fragment);
}

} // verus!

//! Properties of the widget that hold over every state and event.

use vstd::prelude::*;
use crate::model::{outcome, redraws, step, FetchError, Model, Msg};
use crate::response::DataFromFile;
use crate::url::{is_unreserved, percent_encoding, search_url_of, SEARCH_ENDPOINT};
use vstd::utf8::{encode_utf8, is_ascii_chars, is_ascii_chars_encode_utf8};

verus! {

/// Editing the text sets it to exactly the new value, keeps the rest of the
/// state, and redraws.
pub proof fn lemma_edit_sets_text(m: Model, s: String)
    ensures
        step(m, Msg::UpdateSearchText(s)).text_search == s,
        step(m, Msg::UpdateSearchText(s)).fetching == m.fetching,
        step(m, Msg::UpdateSearchText(s)).data == m.data,
        redraws(Msg::UpdateSearchText(s)),
{
}

/// Submitting marks a fetch in flight, keeps text and results, and redraws.
pub proof fn lemma_submit_starts_fetch(m: Model)
    ensures
        step(m, Msg::FetchData).fetching,
        step(m, Msg::FetchData).text_search == m.text_search,
        step(m, Msg::FetchData).data == m.data,
        redraws(Msg::FetchData),
{
}

/// The request URL for a term is the endpoint followed by the percent-encoded
/// UTF-8 bytes of the term.
pub proof fn lemma_url_holds_encoded_term(term: Seq<char>)
    ensures
        search_url_of(term).take(SEARCH_ENDPOINT@.len() as int) == SEARCH_ENDPOINT@,
        search_url_of(term).skip(SEARCH_ENDPOINT@.len() as int) == percent_encoding(
            encode_utf8(term),
        ),
{
    let u = search_url_of(term);
    assert(u.take(SEARCH_ENDPOINT@.len() as int) =~= SEARCH_ENDPOINT@);
    assert(u.skip(SEARCH_ENDPOINT@.len() as int) =~= percent_encoding(encode_utf8(term)));
}

/// Whether a character is a letter or digit of ASCII, or one of `-_.~`.
pub open spec fn is_plain_char(c: char) -> bool {
    ('A' <= c && c <= 'Z') || ('a' <= c && c <= 'z') || ('0' <= c && c <= '9') || c == '-' || c
        == '_' || c == '.' || c == '~'
}

proof fn lemma_plain_bytes_unchanged(bytes: Seq<u8>)
    requires
        forall|i: int| 0 <= i < bytes.len() ==> is_unreserved(#[trigger] bytes[i]),
    ensures
        percent_encoding(bytes) == Seq::new(bytes.len(), |i: int| bytes[i] as char),
    decreases bytes.len(),
{
    if bytes.len() > 0 {
        let rest = bytes.drop_last();
        assert(forall|i: int| 0 <= i < rest.len() ==> rest[i] == bytes[i]);
        lemma_plain_bytes_unchanged(rest);
        assert(percent_encoding(bytes) =~= Seq::new(bytes.len(), |i: int| bytes[i] as char));
    }
}

/// A term made only of ASCII letters, digits and `-_.~` stands in its request
/// URL as it is.
pub proof fn lemma_plain_term_unchanged(term: Seq<char>)
    requires
        forall|i: int| 0 <= i < term.len() ==> is_plain_char(#[trigger] term[i]),
    ensures
        search_url_of(term) == SEARCH_ENDPOINT@ + term,
{
    assert(is_ascii_chars(term));
    is_ascii_chars_encode_utf8(term);
    let bytes = encode_utf8(term);
    assert forall|i: int| 0 <= i < bytes.len() implies is_unreserved(#[trigger] bytes[i]) by {
        assert(bytes[i] == term[i] as u8);
    }
    lemma_plain_bytes_unchanged(bytes);
    assert forall|i: int| 0 <= i < term.len() implies (bytes[i] as char) == #[trigger] term[i] by {
        assert(bytes[i] == term[i] as u8);
    }
    assert(percent_encoding(bytes) =~= term);
}

/// A success ends the fetch and keeps exactly the answer's items, in order.
pub proof fn lemma_success_sets_results(m: Model, d: DataFromFile)
    ensures
        !step(m, Msg::FetchReady(Ok(d))).fetching,
        step(m, Msg::FetchReady(Ok(d))).data == Some(d.query.search),
        step(m, Msg::FetchReady(Ok(d))).text_search == m.text_search,
{
}

/// A failure ends the fetch and leaves the results as they were; in
/// particular a failure after a success keeps that success's items.
pub proof fn lemma_failure_keeps_results(m: Model, d: DataFromFile, e: FetchError)
    ensures
        !step(m, Msg::FetchReady(Err(e))).fetching,
        step(m, Msg::FetchReady(Err(e))).data == m.data,
        step(step(m, Msg::FetchReady(Ok(d))), Msg::FetchReady(Err(e))).data == Some(
            d.query.search,
        ),
{
}

/// An answer that did not decode, whatever its status, becomes a failure:
/// the fetch ends and the results stay as they were.
pub proof fn lemma_undecodable_answer_fails(m: Model, status: u16)
    ensures
        outcome(status, None) matches Msg::FetchReady(Err(_)),
        !step(m, outcome(status, None)).fetching,
        step(m, outcome(status, None)).data == m.data,
{
}

} // verus!

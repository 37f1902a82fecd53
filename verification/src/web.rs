// SPDX-License-Identifier: GPL-3.0

//! Web search for augmenting answers.
//!
//! The search goes to an instant-answer endpoint, which returns a short
//! summary and loosely related topics. This module says what is asked and
//! what the response comes to; the request itself is left to the caller.

use crate::text::{followed_by, join, joined};
use vstd::prelude::*;
use vstd::utf8::encode_utf8;

verus! {

/// The instant-answer endpoint.
pub const SEARCH_URL: &'static str = "https://api.duckduckgo.com/";

/// Number of related items kept beside a summary.
pub const MAX_RELATED: usize = 3;

/// Number of related topics that stand in for a missing summary.
pub const MAX_FALLBACK_TOPICS: usize = 5;

/// One related topic of a response; its text may be missing.
#[derive(Debug, Clone)]
pub struct RelatedTopic {
    pub text: Option<String>,
}

/// The fields that are read of a response of the endpoint.
#[derive(Debug, Clone)]
pub struct DdgResponse {
    pub abstract_text: String,
    pub abstract_source: String,
    pub abstract_url: String,
    pub related_topics: Vec<RelatedTopic>,
}

/// Search result, ready for formatting.
#[derive(Debug, Clone)]
pub struct SearchResult {
    pub summary: String,
    pub source: String,
    pub url: String,
    pub related: Vec<String>,
}

impl View for RelatedTopic {
    type V = Option<Seq<char>>;

    /// A topic is its text, where it has one.
    open spec fn view(&self) -> Option<Seq<char>> {
        self.text.deep_view()
    }
}

impl DeepView for RelatedTopic {
    type V = Option<Seq<char>>;

    open spec fn deep_view(&self) -> Option<Seq<char>> {
        self@
    }
}

/// The mathematical value of a [`DdgResponse`].
#[verifier::ext_equal]
pub ghost struct ResponseView {
    pub abstract_text: Seq<char>,
    pub abstract_source: Seq<char>,
    pub abstract_url: Seq<char>,
    pub related_topics: Seq<Option<Seq<char>>>,
}

impl View for DdgResponse {
    type V = ResponseView;

    open spec fn view(&self) -> ResponseView {
        ResponseView {
            abstract_text: self.abstract_text@,
            abstract_source: self.abstract_source@,
            abstract_url: self.abstract_url@,
            related_topics: self.related_topics.deep_view(),
        }
    }
}

/// The mathematical value of a [`SearchResult`].
#[verifier::ext_equal]
pub ghost struct ResultView {
    pub summary: Seq<char>,
    pub source: Seq<char>,
    pub url: Seq<char>,
    pub related: Seq<Seq<char>>,
}

impl View for SearchResult {
    type V = ResultView;

    open spec fn view(&self) -> ResultView {
        ResultView {
            summary: self.summary@,
            source: self.source@,
            url: self.url@,
            related: self.related.deep_view(),
        }
    }
}

impl DeepView for SearchResult {
    type V = ResultView;

    open spec fn deep_view(&self) -> ResultView {
        self@
    }
}

// ---------------------------------------------------------------------
// The request
// ---------------------------------------------------------------------

/// The query parameters of a search for `query`: the query itself, JSON as
/// the format, no HTML in the texts, and no disambiguation pages.
pub open spec fn parameters_for(query: Seq<char>) -> Seq<(Seq<char>, Seq<char>)> {
    seq![("q"@, query), ("format"@, "json"@), ("no_html"@, "1"@), ("skip_disambig"@, "1"@)]
}

/// The query parameters to send with a search for `query`.
pub fn search_parameters(query: &str) -> (parameters: Vec<(String, String)>)
    ensures
        parameters.deep_view() == parameters_for(query@),
{
    let mut parameters: Vec<(String, String)> = Vec::new();
    parameters.push(("q".to_owned(), query.to_owned()));
    parameters.push(("format".to_owned(), "json".to_owned()));
    parameters.push(("no_html".to_owned(), "1".to_owned()));
    parameters.push(("skip_disambig".to_owned(), "1".to_owned()));
    parameters
}

// ---------------------------------------------------------------------
// Percent encoding
// ---------------------------------------------------------------------

/// The bytes that stand for themselves in a percent-encoded text: the
/// ASCII letters and digits, `-`, `.`, `_` and `~`.
pub open spec fn is_unreserved(byte: u8) -> bool {
    ||| 0x30 <= byte <= 0x39
    ||| 0x41 <= byte <= 0x5a
    ||| 0x61 <= byte <= 0x7a
    ||| byte == 0x2d
    ||| byte == 0x2e
    ||| byte == 0x5f
    ||| byte == 0x7e
}

/// The upper-case hexadecimal digit of a value below 16.
pub open spec fn hex_digit(value: u8) -> char {
    if value < 10 {
        (0x30 + value) as u8 as char
    } else {
        (0x41 + value - 10) as u8 as char
    }
}

/// One byte, percent-encoded: itself where it is unreserved, else `%` and
/// its two hexadecimal digits.
pub open spec fn escaped_byte(byte: u8) -> Seq<char> {
    if is_unreserved(byte) {
        seq![byte as char]
    } else {
        seq!['%', hex_digit(byte / 16), hex_digit(byte % 16)]
    }
}

/// Bytes, percent-encoded one by one.
pub open spec fn escaped_bytes(bytes: Seq<u8>) -> Seq<char>
    decreases bytes.len(),
{
    if bytes.len() == 0 {
        Seq::empty()
    } else {
        escaped_byte(bytes[0]) + escaped_bytes(bytes.drop_first())
    }
}

/// A text, percent-encoded: the bytes of its UTF-8 encoding, one by one.
pub open spec fn percent_encoded(text: Seq<char>) -> Seq<char> {
    escaped_bytes(encode_utf8(text))
}

/// `urlencoding::encode` percent-encodes every byte of the UTF-8 encoding
/// of a text except ASCII letters and digits, `-`, `_`, `.` and `~`, with
/// upper-case hexadecimal digits.
#[verifier::external_body]
fn url_encode(text: &str) -> (encoded: String)
    ensures
        encoded@ == percent_encoded(text@),
{
    urlencoding::encode(text).into_owned()
}

// ---------------------------------------------------------------------
// The result
// ---------------------------------------------------------------------

/// The texts of those topics that have one, in order.
pub open spec fn present_texts(topics: Seq<Option<Seq<char>>>) -> Seq<Seq<char>> {
    topics.filter_map(|topic: Option<Seq<char>>| topic)
}

/// The first `limit` of the texts of `topics`, or all where there are
/// fewer.
pub open spec fn first_texts(topics: Seq<Option<Seq<char>>>, limit: nat) -> Seq<Seq<char>> {
    let texts = present_texts(topics);
    if texts.len() > limit {
        texts.take(limit as int)
    } else {
        texts
    }
}

/// The page to point to where the response names none.
pub open spec fn fallback_url(query: Seq<char>) -> Seq<char> {
    "https://duckduckgo.com/?q="@ + percent_encoded(query)
}

/// What a response to a search for `query` comes to.
///
/// A response with an abstract gives that abstract with its source and
/// URL, and up to [`MAX_RELATED`] related items. Without an abstract the
/// first [`MAX_FALLBACK_TOPICS`] related topics, separated by blank lines,
/// are the summary. A response with neither gives nothing.
pub open spec fn result_of(response: ResponseView, query: Seq<char>) -> Option<ResultView> {
    if response.abstract_text.len() > 0 {
        Some(
            ResultView {
                summary: response.abstract_text,
                source: response.abstract_source,
                url: response.abstract_url,
                related: first_texts(response.related_topics, MAX_RELATED as nat),
            },
        )
    } else {
        let related = first_texts(response.related_topics, MAX_FALLBACK_TOPICS as nat);
        if related.len() > 0 {
            Some(
                ResultView {
                    summary: joined(related, "\n\n"@),
                    source: "DuckDuckGo"@,
                    url: fallback_url(query),
                    related: Seq::empty(),
                },
            )
        } else {
            None
        }
    }
}

/// A result never has more than [`MAX_RELATED`] related items, and a
/// result that stands in for a missing abstract has none.
pub proof fn lemma_related_is_bounded(response: ResponseView, query: Seq<char>)
    ensures
        result_of(response, query) matches Some(result) ==> result.related.len() <= MAX_RELATED && (
        response.abstract_text.len() == 0 ==> result.related.len() == 0),
{
}

/// Collect the first `limit` texts of `topics`.
pub fn take_texts(topics: Vec<RelatedTopic>, limit: usize) -> (texts: Vec<String>)
    ensures
        texts.deep_view() == first_texts(topics.deep_view(), limit as nat),
{
    let ghost all = topics.deep_view();
    let ghost pick = |topic: Option<Seq<char>>| topic;
    let mut texts: Vec<String> = Vec::new();
    for topic in it: topics
        invariant
            it.seq().len() == all.len(),
            forall|j: int| 0 <= j < all.len() ==> (#[trigger] it.seq()[j])@ == all[j],
            pick == |topic: Option<Seq<char>>| topic,
            texts.deep_view() == all.take(it.index()).filter_map(pick),
    {
        assert(all.take(it.index() + 1).drop_last() =~= all.take(it.index()));
        match topic.text {
            Some(text) => {
                texts.push(text);
            },
            None => {},
        }
    }
    assert(all.take(all.len() as int) =~= all);
    texts.truncate(limit);
    texts
}

/// Decide what a response to a search for `query` comes to.
pub fn search_result(response: DdgResponse, query: &str) -> (result: Option<SearchResult>)
    ensures
        result.deep_view() == result_of(response@, query@),
{
    if !response.abstract_text.as_str().is_empty() {
        let related = take_texts(response.related_topics, MAX_RELATED);
        return Some(
            SearchResult {
                summary: response.abstract_text,
                source: response.abstract_source,
                url: response.abstract_url,
                related,
            },
        );
    }
    let related = take_texts(response.related_topics, MAX_FALLBACK_TOPICS);
    if related.len() > 0 {
        let encoded = url_encode(query);
        return Some(
            SearchResult {
                summary: join(&related, "\n\n"),
                source: "DuckDuckGo".to_owned(),
                url: followed_by("https://duckduckgo.com/?q=", encoded.as_str()),
                related: Vec::new(),
            },
        );
    }
    None
}

// ---------------------------------------------------------------------
// Formatting
// ---------------------------------------------------------------------

/// The related items as a bulleted list, one line each.
pub open spec fn related_list(items: Seq<Seq<char>>) -> Seq<char>
    decreases items.len(),
{
    if items.len() == 0 {
        Seq::empty()
    } else {
        related_list(items.drop_last()) + "- "@ + items.last() + "\n"@
    }
}

/// The attribution of a summary; nothing where the source is not named.
pub open spec fn source_line(source: Seq<char>, url: Seq<char>) -> Seq<char> {
    if source.len() > 0 {
        "\n\nSource: "@ + source + " ("@ + url + ")"@
    } else {
        Seq::empty()
    }
}

/// The related items under their heading; nothing where there are none.
pub open spec fn related_block(items: Seq<Seq<char>>) -> Seq<char> {
    if items.len() > 0 {
        "\n\nRelated info:\n"@ + related_list(items)
    } else {
        Seq::empty()
    }
}

/// The context section that a search result is shown as: the heading and
/// the summary, then the attribution, then the related items.
pub open spec fn formatted_result(result: ResultView) -> Seq<char> {
    "## Web Search Results\n\n"@ + result.summary + source_line(result.source, result.url)
        + related_block(result.related)
}

/// Format search results for inclusion in context.
pub fn format_results(result: &SearchResult) -> (output: String)
    ensures
        output@ == formatted_result(result@),
{
    let mut output = followed_by("## Web Search Results\n\n", result.summary.as_str());
    if !result.source.as_str().is_empty() {
        output.append("\n\nSource: ");
        output.append(result.source.as_str());
        output.append(" (");
        output.append(result.url.as_str());
        output.append(")");
    }
    let ghost headed = output@;
    if result.related.len() > 0 {
        let ghost items = result.related.deep_view();
        output.append("\n\nRelated info:\n");
        let mut i: usize = 0;
        while i < result.related.len()
            invariant
                i <= result.related@.len(),
                items == result.related.deep_view(),
                output@ == headed + "\n\nRelated info:\n"@ + related_list(items.take(i as int)),
            decreases result.related@.len() - i,
        {
            assert(items.take(i + 1).drop_last() =~= items.take(i as int));
            output.append("- ");
            output.append(result.related[i].as_str());
            output.append("\n");
            i += 1;
        }
        assert(items.take(items.len() as int) =~= items);
    }
    output
}

} // verus!

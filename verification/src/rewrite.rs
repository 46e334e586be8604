//! Links in text bodies, and how they are led through the proxy.

use regex::{Captures, Regex};
use vstd::prelude::*;
use vstd::string::*;
use vstd::utf8::*;

use crate::laws::bodies::links_are_led_through_the_proxy;

verus! {

#[verifier::external_type_specification]
#[verifier::external_body]
pub struct ExRegex(Regex);

/// Whether a regular expression matches somewhere in a text.
pub uninterp spec fn regex_matches(regex: Regex, text: Seq<char>) -> bool;

/// Where a regular expression matches in a text: the bounds, counted in characters, of its
/// successive matches that do not overlap.
pub uninterp spec fn regex_spans(regex: Regex, text: Seq<char>) -> Seq<(int, int)>;

/// The text that bytes stand for when what is not UTF-8 in them is replaced.
pub uninterp spec fn lossy_text(bytes: Seq<u8>) -> Seq<char>;

/// Whether spans follow one another within a text of length `len`, from `start` on.
pub open spec fn spans_in_order(spans: Seq<(int, int)>, start: int, len: int) -> bool
    decreases spans.len(),
{
    if spans.len() == 0 {
        start <= len
    } else {
        &&& start <= spans[0].0 <= spans[0].1
        &&& spans_in_order(spans.skip(1), spans[0].1, len)
    }
}

/// The link that leads to `host` through the proxy that is reached at `accessible_host`.
pub open spec fn link(accessible_host: Seq<char>, host: Seq<char>) -> Seq<char> {
    accessible_host + "/@"@ + host
}

/// `text` from `start` on, with the link in place of each span.
pub open spec fn relinked(
    text: Seq<char>,
    spans: Seq<(int, int)>,
    accessible_host: Seq<char>,
    start: int,
) -> Seq<char>
    decreases spans.len(),
{
    if spans.len() == 0 {
        text.skip(start)
    } else {
        text.subrange(start, spans[0].0) + link(
            accessible_host,
            text.subrange(spans[0].0, spans[0].1),
        ) + relinked(text, spans.skip(1), accessible_host, spans[0].1)
    }
}

/// Whether `replaced` is `text` with the link in place of each of `spans`, which follow one another
/// within it.
pub open spec fn is_relinked(
    replaced: Seq<char>,
    text: Seq<char>,
    spans: Seq<(int, int)>,
    accessible_host: Seq<char>,
) -> bool {
    &&& spans_in_order(spans, 0, text.len() as int)
    &&& replaced == relinked(text, spans, accessible_host, 0)
}

/// A body with its links led through the proxy.
pub open spec fn rewritten(body: Seq<u8>, jackbox_urls: Regex, accessible_host: Seq<char>) -> Seq<
    u8,
> {
    let text = lossy_text(body);
    encode_utf8(relinked(text, regex_spans(jackbox_urls, text), accessible_host, 0))
}

/// `Regex::is_match`.
#[verifier::external_body]
pub(crate) fn is_match(regex: &Regex, text: &str) -> (res: bool)
    ensures
        res == regex_matches(*regex, text@),
{
    regex.is_match(text)
}

/// `Regex::replace_all`, each match replaced by the link to what it matched. The matches follow
/// one another; where they are is named, not stated.
#[verifier::external_body]
pub(crate) fn replace_links(regex: &Regex, text: &str, accessible_host: &str) -> (res: String)
    ensures
        is_relinked(res@, text@, regex_spans(*regex, text@), accessible_host@),
{
    regex.replace_all(
        text,
        |found: &Captures<'_>| proxy_link(accessible_host, found.get_match().as_str()),
    ).into_owned()
}

/// `String::from_utf8_lossy`: the text that the bytes encode, where they are UTF-8.
#[verifier::external_body]
pub(crate) fn decode_lossy(bytes: &[u8]) -> (res: String)
    ensures
        res@ == lossy_text(bytes@),
        valid_utf8(bytes@) ==> res@ == decode_utf8(bytes@),
{
    String::from_utf8_lossy(bytes).into_owned()
}

/// The link that leads to `host` through the proxy that is reached at `accessible_host`.
pub fn proxy_link(accessible_host: &str, host: &str) -> (res: String)
    ensures
        res@ == link(accessible_host@, host@),
{
    accessible_host.to_owned().concat("/@").concat(host)
}

/// Leads the links in a body through the proxy.
pub fn rewrite_body(body: &[u8], jackbox_urls: &Regex, accessible_host: &str) -> (res: Vec<u8>)
    ensures
        res@ == rewritten(body@, *jackbox_urls, accessible_host@),
        valid_utf8(res@),
        spans_in_order(
            regex_spans(*jackbox_urls, lossy_text(body@)),
            0,
            lossy_text(body@).len() as int,
        ),
        valid_utf8(body@) ==> lossy_text(body@) == decode_utf8(body@),
        ({
            let text = lossy_text(body@);
            let spans = regex_spans(*jackbox_urls, text);
            let answer = decode_utf8(res@);
            let wide = accessible_host@.len() + 2;
            &&& answer.len() == text.len() + spans.len() * wide
            &&& forall|k: int|
                #![trigger spans[k]]
                0 <= k < spans.len() ==> answer.subrange(
                    spans[k].0 + k * wide,
                    spans[k].1 + (k + 1) * wide,
                ) == accessible_host@ + "/@"@ + text.subrange(spans[k].0, spans[k].1)
            &&& forall|k: int|
                #![trigger spans[k]]
                0 < k < spans.len() ==> answer.subrange(
                    spans[k - 1].1 + k * wide,
                    spans[k].0 + k * wide,
                ) == text.subrange(spans[k - 1].1, spans[k].0)
            &&& spans.len() > 0 ==> {
                &&& answer.take(spans[0].0) == text.take(spans[0].0)
                &&& answer.skip(spans.last().1 + spans.len() * wide) == text.skip(spans.last().1)
            }
            &&& spans.len() == 0 ==> answer == text
        }),
        valid_utf8(body@) && regex_spans(*jackbox_urls, decode_utf8(body@)).len() == 0 ==> res@
            == body@,
{
    let text = decode_lossy(body);
    let replaced = replace_links(jackbox_urls, text.as_str(), accessible_host);
    proof {
        encode_utf8_valid_utf8(replaced@);
        links_are_led_through_the_proxy(body@, *jackbox_urls, accessible_host@);
        if valid_utf8(body@) && regex_spans(*jackbox_urls, decode_utf8(body@)).len() == 0 {
            assert(text@.skip(0) =~= text@);
            decode_utf8_encode_utf8(body@);
        }
    }
    replaced.as_str().as_bytes_vec()
}

}

//! What becomes of bodies.

use regex::Regex;
use vstd::prelude::*;
use vstd::string::*;
use vstd::utf8::*;

use crate::coding::{brotli_plain, sent, stores};
use crate::laws::spans_are_within;
use crate::part::{directory, last_segment, names_file, part_of, path_with_extension, stem};
use crate::response::{told, JBHttpResponseView};
use crate::rewrite::{link, lossy_text, regex_spans, relinked, rewritten, spans_in_order};
use crate::session::{body_name, resumed, EventView, FoundView, ProgressView, SessionView};
use crate::text::{after_last, after_last_properties};

verus! {

/// Where spans follow one another within a text, each is within it and behind the one before.
pub proof fn spans_follow(spans: Seq<(int, int)>, start: int, len: int, k: int)
    requires
        spans_in_order(spans, start, len),
        0 <= k < spans.len(),
    ensures
        start <= spans[k].0 <= spans[k].1 <= len,
        k > 0 ==> spans[k - 1].1 <= spans[k].0,
    decreases spans.len(),
{
    spans_are_within(spans, start, len);
    if k > 0 {
        let rest = spans.skip(1);
        spans_follow(rest, spans[0].1, len, k - 1);
        assert(rest[k - 1] == spans[k]);
        if k > 1 {
            assert(rest[k - 2] == spans[k - 1]);
        }
    }
}

/// How long a text is with its links, and what it reads at a link, before it and behind it.
pub proof fn links_read(
    text: Seq<char>,
    spans: Seq<(int, int)>,
    host: Seq<char>,
    start: int,
    k: int,
)
    requires
        0 <= start,
        spans_in_order(spans, start, text.len() as int),
        0 <= k <= spans.len(),
    ensures
        ({
            let answer = relinked(text, spans, host, start);
            let wide = host.len() + 2;
            let low = if k == 0 {
                start
            } else {
                spans[k - 1].1
            };
            let high = if k == spans.len() {
                text.len() as int
            } else {
                spans[k].0
            };
            &&& answer.len() == text.len() - start + spans.len() * wide
            &&& answer.subrange(low - start + k * wide, high - start + k * wide) == text.subrange(
                low,
                high,
            )
            &&& k < spans.len() ==> answer.subrange(
                spans[k].0 - start + k * wide,
                spans[k].1 - start + (k + 1) * wide,
            ) == host + "/@"@ + text.subrange(spans[k].0, spans[k].1)
        }),
    decreases spans.len(),
{
    let answer = relinked(text, spans, host, start);
    let wide = host.len() + 2;
    let n = spans.len() as int;
    let len = text.len() as int;
    reveal_strlit("/@");
    spans_are_within(spans, start, len);
    if n == 0 {
        assert(text.skip(start) =~= text.subrange(start, len));
        assert(answer.subrange(0, len - start) =~= text.subrange(start, len));
    } else {
        let (first, last) = spans[0];
        let rest = spans.skip(1);
        let lead = text.subrange(start, first);
        let linked = host + "/@"@ + text.subrange(first, last);
        let tail = relinked(text, rest, host, last);
        assert(answer =~= lead + linked + tail);
        let cut = last - start + wide;
        assert(lead.len() + linked.len() == cut);
        if k == 0 {
            links_read(text, rest, host, last, 0);
            assert(n * wide == (n - 1) * wide + wide) by (nonlinear_arith);
            assert((k + 1) * wide == wide) by (nonlinear_arith)
                requires
                    k == 0,
            ;
            assert(k * wide == 0) by (nonlinear_arith)
                requires
                    k == 0,
            ;
            assert(answer.subrange(0, first - start) =~= lead);
            assert(answer.subrange(first - start, cut) =~= linked);
        } else {
            links_read(text, rest, host, last, k - 1);
            assert(n * wide == (n - 1) * wide + wide) by (nonlinear_arith);
            assert(k * wide == (k - 1) * wide + wide) by (nonlinear_arith);
            assert((k + 1) * wide == k * wide + wide) by (nonlinear_arith);
            assert(0 <= (k - 1) * wide) by (nonlinear_arith)
                requires
                    k >= 1,
                    wide >= 0,
            ;
            assert((n - 1) * wide - (k - 1) * wide == (n - k) * wide) by (nonlinear_arith);
            assert(0 <= (n - k) * wide) by (nonlinear_arith)
                requires
                    n >= k,
                    wide >= 0,
            ;
            assert(k < n ==> (n - k) * wide >= wide) by (nonlinear_arith)
                requires
                    wide >= 0,
            ;
            if k > 1 {
                assert(rest[k - 2] == spans[k - 1]);
            }
            spans_follow(spans, start, len, k - 1);
            let low = spans[k - 1].1;
            let high = if k == n {
                len
            } else {
                spans[k].0
            };
            if k < n {
                assert(rest[k - 1] == spans[k]);
                spans_follow(spans, start, len, k);
            }
            let from = low - last + (k - 1) * wide;
            let to = high - last + (k - 1) * wide;
            if k > 1 {
                spans_follow(rest, last, len, k - 2);
            }
            assert(0 <= from <= to <= tail.len());
            assert(answer.subrange(from + cut, to + cut) =~= tail.subrange(from, to));
            if k < n {
                let end = spans[k].1 - last + k * wide;
                assert(answer.subrange(to + cut, end + cut) =~= tail.subrange(to, end));
            }
        }
    }
}

/// A body with its links led through the proxy is UTF-8, longer by the proxy's host and two
/// characters for each match; at each match it reads the proxy's host, `/@` and what was matched;
/// and before, between and behind the matches it reads what it read before.
pub proof fn links_are_led_through_the_proxy(
    body: Seq<u8>,
    jackbox_urls: Regex,
    accessible_host: Seq<char>,
)
    requires
        spans_in_order(
            regex_spans(jackbox_urls, lossy_text(body)),
            0,
            lossy_text(body).len() as int,
        ),
    ensures
        ({
            let text = lossy_text(body);
            let spans = regex_spans(jackbox_urls, text);
            let answer = decode_utf8(rewritten(body, jackbox_urls, accessible_host));
            let wide = accessible_host.len() + 2;
            &&& valid_utf8(rewritten(body, jackbox_urls, accessible_host))
            &&& answer.len() == text.len() + spans.len() * wide
            &&& forall|k: int|
                #![trigger spans[k]]
                0 <= k < spans.len() ==> answer.subrange(
                    spans[k].0 + k * wide,
                    spans[k].1 + (k + 1) * wide,
                ) == accessible_host + "/@"@ + text.subrange(spans[k].0, spans[k].1)
            &&& forall|k: int|
                #![trigger spans[k]]
                0 < k < spans.len() ==> answer.subrange(
                    spans[k - 1].1 + k * wide,
                    spans[k].0 + k * wide,
                ) == text.subrange(spans[k - 1].1, spans[k].0)
            &&& spans.len() > 0 ==> {
                &&& answer.take(spans[0].0) == text.take(spans[0].0)
                &&& answer.skip(spans.last().1 + spans.len() * wide) == text.skip(spans.last().1)
            }
            &&& spans.len() == 0 ==> answer == text
        }),
{
    let text = lossy_text(body);
    let spans = regex_spans(jackbox_urls, text);
    let chars = relinked(text, spans, accessible_host, 0);
    let wide = accessible_host.len() + 2;
    let n = spans.len() as int;
    encode_utf8_valid_utf8(chars);
    encode_utf8_decode_utf8(chars);
    links_read(text, spans, accessible_host, 0, 0);
    links_read(text, spans, accessible_host, 0, n);
    assert forall|k: int| #![trigger spans[k]] 0 <= k < n implies chars.subrange(
        spans[k].0 + k * wide,
        spans[k].1 + (k + 1) * wide,
    ) == accessible_host + "/@"@ + text.subrange(spans[k].0, spans[k].1) by {
        links_read(text, spans, accessible_host, 0, k);
    }
    assert forall|k: int| #![trigger spans[k]] 0 < k < n implies chars.subrange(
        spans[k - 1].1 + k * wide,
        spans[k].0 + k * wide,
    ) == text.subrange(spans[k - 1].1, spans[k].0) by {
        links_read(text, spans, accessible_host, 0, k);
    }
    if n > 0 {
        spans_follow(spans, 0, text.len() as int, 0);
        spans_follow(spans, 0, text.len() as int, n - 1);
        assert(chars.take(spans[0].0) =~= chars.subrange(0, spans[0].0));
        assert(text.take(spans[0].0) =~= text.subrange(0, spans[0].0));
        let low = spans.last().1;
        assert(chars.skip(low + n * wide) =~= chars.subrange(low + n * wide, chars.len() as int));
        assert(text.skip(low) =~= text.subrange(low, text.len() as int));
    } else {
        assert(chars.subrange(0, text.len() as int) =~= chars);
        assert(text.subrange(0, text.len() as int) =~= text);
    }
}

/// A body that is none of HTML, JavaScript, JSON or CSS by its content type is stored as the
/// upstream sent it, all of it and byte for byte. One that is, is stored with its links led through
/// the proxy, and otherwise whole too. Nothing else about the session changes, and it goes on
/// exactly where there are headers to tell of the response.
pub proof fn bodies_are_kept_whole(session: SessionView, found: FoundView, bytes: Seq<u8>)
    requires
        session.progress == ProgressView::ReadBytes(found),
    ensures
        ({
            let res = resumed(session, EventView::Bytes(bytes));
            let content_type = found.response.content_type;
            let linked = content_type == Some("text/html"@) || content_type == Some(
                "text/javascript"@,
            ) || content_type == Some("application.json"@) || content_type == Some("text/css"@);
            match told(found.response) {
                Err(refusal) => res matches Err(error) && error == refusal,
                Ok(_) => res matches Ok(next) && next == (SessionView {
                    progress: next.progress,
                    ..session
                }) && (next.progress matches ProgressView::WritePart(kept, body) && {
                    &&& kept == found
                    &&& !linked ==> body.len() == bytes.len() && body == bytes
                    &&& linked ==> {
                        let text = lossy_text(bytes);
                        let spans = regex_spans(session.regexes.jackbox_urls, text);
                        let answer = decode_utf8(body);
                        let wide = session.accessible_host.len() + 2;
                        &&& body == encode_utf8(relinked(text, spans, session.accessible_host, 0))
                        &&& spans_in_order(spans, 0, text.len() as int) ==> {
                            &&& valid_utf8(body)
                            &&& answer.len() == text.len() + spans.len() * wide
                            &&& forall|k: int|
                                #![trigger spans[k]]
                                0 <= k < spans.len() ==> answer.subrange(
                                    spans[k].0 + k * wide,
                                    spans[k].1 + (k + 1) * wide,
                                ) == session.accessible_host + "/@"@ + text.subrange(
                                    spans[k].0,
                                    spans[k].1,
                                )
                            &&& forall|k: int|
                                #![trigger spans[k]]
                                0 < k < spans.len() ==> answer.subrange(
                                    spans[k - 1].1 + k * wide,
                                    spans[k].0 + k * wide,
                                ) == text.subrange(spans[k - 1].1, spans[k].0)
                            &&& spans.len() > 0 ==> answer.take(spans[0].0) == text.take(
                                spans[0].0,
                            ) && answer.skip(spans.last().1 + spans.len() * wide) == text.skip(
                                spans.last().1,
                            )
                            &&& spans.len() == 0 ==> answer == text
                        }
                    }
                }),
            }
        }),
{
    let text = lossy_text(bytes);
    let spans = regex_spans(session.regexes.jackbox_urls, text);
    if spans_in_order(spans, 0, text.len() as int) {
        links_are_led_through_the_proxy(
            bytes,
            session.regexes.jackbox_urls,
            session.accessible_host,
        );
    }
}

/// A link is the proxy's host, `/@` and what is linked to, whatever that is.
pub proof fn links_name_what_they_lead_to(accessible_host: Seq<char>, host: Seq<char>)
    ensures
        link(accessible_host, host).len() == accessible_host.len() + 2 + host.len(),
        link(accessible_host, host).take(accessible_host.len() as int) == accessible_host,
        link(accessible_host, host).subrange(
            accessible_host.len() as int,
            accessible_host.len() as int + 2,
        ) == "/@"@,
        link(accessible_host, host).skip(accessible_host.len() as int + 2) == host,
{
    reveal_strlit("/@");
    let found = link(accessible_host, host);
    let n = accessible_host.len() as int;
    assert(found.take(n) =~= accessible_host);
    assert(found.subrange(n, n + 2) =~= "/@"@);
    assert(found.skip(n + 2) =~= host);
}

/// What is stored compressed decompresses to the body, what is not is the body; and what is sent is
/// what is stored, decompressed where that is asked for.
pub proof fn bodies_are_coded_as_asked(stored: Seq<u8>, body: Seq<u8>)
    ensures
        stores(true, stored, body) <==> brotli_plain(stored) == Some(body),
        stores(false, stored, body) <==> stored == body,
        sent(true, stored) == brotli_plain(stored),
        sent(false, stored) == Some(stored),
{
}

/// Bodies of different hosts have different names.
pub proof fn bodies_are_kept_by_host(
    host: Seq<char>,
    response: JBHttpResponseView,
    other_host: Seq<char>,
    other: JBHttpResponseView,
)
    requires
        !host.contains('/'),
        !other_host.contains('/'),
        body_name(host, response) == body_name(other_host, other),
    ensures
        host == other_host,
{
    reveal_strlit("/");
    let name = body_name(host, response);
    let n = host.len() as int;
    let m = other_host.len() as int;
    assert(name[n] == '/' && name[m] == '/');
    if n < m {
        assert(other_host[n] == name[n]);
        assert(other_host.contains('/'));
    }
    if m < n {
        assert(host[m] == name[m]);
        assert(host.contains('/'));
    }
    assert(name.take(n) =~= host);
    assert(name.take(m) =~= other_host);
}

/// The part file of a body whose name has no dot, or none but at its beginning, is the body's name
/// with an extension. What becomes of a path that ends in no name is what `Path` makes of it.
pub proof fn part_files_add_an_extension(body: Seq<char>)
    ensures
        names_file(body) && !last_segment(body).skip(1).contains('.') ==> part_of(body) == body
            + ".part.br"@,
        !names_file(body) ==> part_of(body) == path_with_extension(body, "part.br"@),
{
    let name = last_segment(body);
    if names_file(body) && !name.skip(1).contains('.') {
        reveal_strlit(".");
        reveal_strlit("part.br");
        reveal_strlit(".part.br");
        after_last_properties(body, '/');
        after_last_properties(name, '.');
        let start = name.len() - after_last(name, '.').len();
        if stem(name) != name {
            assert(name[start - 1] == '.');
            assert(name.skip(1)[start - 2] == '.');
            assert(false);
        }
        assert(directory(body) + name =~= body);
        assert(part_of(body) =~= body + ".part.br"@);
    }
}

}

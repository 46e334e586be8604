//! Where requests go.

use regex::Regex;
use vstd::prelude::*;
use vstd::string::*;
use vstd::utf8::*;

use crate::accept::{blank, is_item, lists_br, says_br};
use crate::cache::begun;
use crate::fault::Fault;
use crate::http::{
    ascii_text, authority_parses, host_of, path_of, plain_host, query_of, target_parses,
    value_allowed, Entries,
};
use crate::laws::{links_lead_back, not_proxied};
use crate::rewrite::regex_matches;
use crate::route::{index_name, is_proxied, proxied_host, request_names_differ, routed};
use crate::session::{CacheMode, ProgressView, Regexes};
use crate::text::{after_last_is, position_is};

verus! {

/// A path and what follows it from the question mark on are told apart.
proof fn target_splits(path: Seq<char>, query: Seq<char>)
    requires
        !path.contains('?'),
        query.len() == 0 || query[0] == '?',
    ensures
        path_of(path + query) == if path.len() == 0 {
            seq!['/']
        } else {
            path
        },
        query_of(path + query) == query,
{
    let target = path + query;
    assert forall|j: int| 0 <= j < path.len() implies target[j] != '?' by {
        assert(path.contains(path[j]));
    }
    position_is(target, '?', path.len() as int);
    assert(target.take(path.len() as int) =~= path);
    assert(target.skip(path.len() as int) =~= query);
}

/// A request whose path does not begin with `/@` goes to `jackbox.tv`, for the path and query that
/// it has; and its index entry is under the whole of its path, or under `index.html` where the
/// path is the root.
pub proof fn usual_requests_keep_their_target(
    path: Seq<char>,
    query: Seq<char>,
    entries: Entries,
    jackbox_urls: Regex,
)
    requires
        !path.contains('?'),
        query.len() == 0 || query[0] == '?',
        !(path.len() >= 2 && path[0] == '/' && path[1] == '@'),
    ensures
        routed(Some(path + query), entries, jackbox_urls) matches Ok(route) && {
            &&& route.host == "jackbox.tv"@
            &&& path.len() > 0 ==> route.uri == "https://jackbox.tv"@ + path + query
            &&& path.len() == 0 ==> route.uri == "https://jackbox.tv/"@ + query
            &&& path.len() == 0 || path == "/"@ ==> route.index == "jackbox.tv/index.html"@
            &&& path.len() > 0 && path != "/"@ ==> route.index == "jackbox.tv/"@ + path
        },
{
    let target = path + query;
    reveal_strlit("/@");
    reveal_strlit("/");
    reveal_strlit("https");
    reveal_strlit("://");
    reveal_strlit("jackbox.tv");
    reveal_strlit("https://jackbox.tv");
    reveal_strlit("https://jackbox.tv/");
    reveal_strlit("jackbox.tv/");
    reveal_strlit("index.html");
    reveal_strlit("jackbox.tv/index.html");
    target_splits(path, query);
    if is_proxied(target) {
        assert("/@"@ =~= path_of(target).take(2));
        assert("/@"@[0] == path_of(target)[0] && "/@"@[1] == path_of(target)[1]);
        assert(false);
    }
    let host = "jackbox.tv"@;
    position_is(host, ':', 10);
    after_last_is(host, '@', 0);
    assert(host.skip(0) =~= host);
    assert(host.take(10) =~= host);
    assert(seq!['/'] =~= "/"@);
    let route = routed(Some(target), entries, jackbox_urls)->Ok_0;
    if path.len() > 0 {
        assert(route.uri =~= "https://jackbox.tv"@ + path + query);
        if path == "/"@ {
            assert(route.index =~= "jackbox.tv/index.html"@);
        } else {
            assert(route.index =~= "jackbox.tv/"@ + path);
        }
    } else {
        assert(route.uri =~= "https://jackbox.tv/"@ + query);
        assert(route.index =~= "jackbox.tv/index.html"@);
    }
}

/// A request for `/@` and a host goes to that host, over TLS, for the path and query that follow,
/// or for the root where nothing does; its index entry is under the host and the whole of its path,
/// or `index.html` for the root. It is refused where the host is none of Jackbox's, and where the
/// host or what follows cannot be what it has to be, in this order.
pub proof fn proxied_requests_go_to_their_host(
    host: Seq<char>,
    path: Seq<char>,
    query: Seq<char>,
    entries: Entries,
    jackbox_urls: Regex,
)
    requires
        !host.contains('/'),
        path.len() == 0 ==> query.len() == 0,
        path.len() > 0 ==> path[0] == '/',
        !path.contains('?'),
        query.len() > 0 ==> query[0] == '?',
        !path.contains('#'),
        !query.contains('#'),
    ensures
        ({
            let asked = if path.len() == 0 {
                "/"@
            } else {
                path
            };
            let res = routed(Some("/@"@ + host + path + query), entries, jackbox_urls);
            if !regex_matches(jackbox_urls, host) {
                res matches Err(error) && error.fault == Fault::NotJackbox && error.status == 400
                    && error.message == "Proxy can only be used with Jackbox services"@
            } else if !(plain_host(host) || authority_parses(host)) {
                res matches Err(error) && error.fault == Fault::HostAuthority && error.status == 500
                    && error.message == "Failed to convert host `"@ + host + "` into Authority"@
            } else if !value_allowed(encode_utf8(host)) {
                res matches Err(error) && error.fault == Fault::HostHeader && error.status == 500
                    && error.message == "Failed to convert host `"@ + host + "` into HeaderValue"@
            } else if !(asked + query == "/"@ || target_parses(asked + query)) {
                res matches Err(error) && error.fault == Fault::TargetPath && error.status == 500
                    && error.message == "Failed to convert `"@ + (asked + query)
                    + "` to a URI path & query"@
            } else {
                res matches Ok(route) && {
                    &&& route.uri == "https://"@ + host + asked + query
                    &&& route.host == host_of(host)
                    &&& route.index == route.host + "/"@ + if asked == "/"@ {
                        "index.html"@
                    } else {
                        asked
                    }
                }
            }
        }),
{
    reveal_strlit("/@");
    reveal_strlit("/");
    reveal_strlit("");
    reveal_strlit("https");
    reveal_strlit("://");
    reveal_strlit("https://");
    let asked = if path.len() == 0 {
        "/"@
    } else {
        path
    };
    let target = "/@"@ + host + path + query;
    let upstream = asked + query;
    let rest = path.skip(1) + query;
    links_lead_back(Seq::empty(), host, rest);
    if path.len() == 0 {
        assert(target =~= "/@"@ + host);
        assert(upstream =~= "/"@);
    } else {
        assert(path =~= "/"@ + path.skip(1));
        assert(target =~= "/@"@ + host + "/"@ + rest);
        assert(upstream =~= "/"@ + rest);
    }
    assert(is_proxied(target));
    assert(proxied_host(target) == host);
    assert forall|j: int| 0 <= j < upstream.len() implies upstream[j] != '#' by {
        if j < asked.len() {
            assert(path.len() > 0 ==> path.contains(path[j]));
        } else {
            assert(query.contains(query[j - asked.len()]));
        }
    }
    position_is(upstream, '#', upstream.len() as int);
    assert(upstream.take(upstream.len() as int) =~= upstream);
    assert(!asked.contains('?'));
    target_splits(asked, query);
    let res = routed(Some(target), entries, jackbox_urls);
    if res is Ok {
        assert(res->Ok_0.uri =~= "https://"@ + host + asked + query);
    } else {
        let error = res->Err_0;
        if error.fault == Fault::NotJackbox {
            assert(error.message =~= "Proxy can only be used with Jackbox services"@);
        } else if error.fault == Fault::HostAuthority {
            assert(error.message =~= "Failed to convert host `"@ + host + "` into Authority"@);
        } else if error.fault == Fault::HostHeader {
            assert(error.message =~= "Failed to convert host `"@ + host + "` into HeaderValue"@);
        } else {
            assert(error.message =~= "Failed to convert `"@ + upstream
                + "` to a URI path & query"@);
        }
    }
}

/// The host of an authority is what stands between the user information, which ends in `@`, and
/// the port, which begins with a colon.
pub proof fn hosts_are_between_user_and_port(user: Seq<char>, name: Seq<char>, port: Seq<char>)
    requires
        user.len() > 0 ==> user.last() == '@',
        !name.contains('@'),
        !port.contains('@'),
        port.len() > 0 ==> port[0] == ':',
    ensures
        !name.contains(':') && !(name.len() > 0 && name[0] == '[') ==> host_of(user + name + port)
            == name,
        name.len() > 1 && name[0] == '[' && name.last() == ']' && !name.drop_last().contains(']')
            ==> host_of(user + name + port) == name,
{
    let authority = user + name + port;
    let tail = name + port;
    let n = name.len() as int;
    assert forall|j: int| user.len() <= j < authority.len() implies authority[j] != '@' by {
        if j < user.len() + n {
            assert(name.contains(name[j - user.len()]));
        } else {
            assert(port.contains(port[j - user.len() - n]));
        }
    }
    after_last_is(authority, '@', user.len() as int);
    assert(authority.skip(user.len() as int) =~= tail);
    assert(tail.take(n) =~= name);
    if !name.contains(':') && !(n > 0 && name[0] == '[') {
        assert forall|j: int| 0 <= j < n implies tail[j] != ':' by {
            assert(name.contains(name[j]));
        }
        position_is(tail, ':', n);
    }
    if n > 1 && name[0] == '[' && name.last() == ']' && !name.drop_last().contains(']') {
        assert forall|j: int| 0 <= j < n - 1 implies tail[j] != ']' by {
            assert(name.drop_last().contains(name.drop_last()[j]));
        }
        position_is(tail, ']', n - 1);
    }
}

/// A request without a path and query is refused.
pub proof fn requests_without_a_target_are_refused(entries: Entries, jackbox_urls: Regex)
    ensures
        routed(None, entries, jackbox_urls) matches Err(error) && error.fault == Fault::UriParts
            && error.status == 500 && error.message == "URI parts did not make a valid URI"@,
{
    let error = routed(None, entries, jackbox_urls)->Err_0;
    reveal_strlit("");
    assert(error.message =~= "URI parts did not make a valid URI"@);
}

/// Whatever a request is routed to, it takes the client's headers along as they are, but for three:
/// the host is the one that the request goes to, and neither the client's encodings nor the time
/// of its last request go upstream.
pub proof fn client_headers_go_along(target: Seq<char>, entries: Entries, jackbox_urls: Regex)
    requires
        routed(Some(target), entries, jackbox_urls) is Ok,
    ensures
        ({
            let headers = routed(Some(target), entries, jackbox_urls)->Ok_0.headers;
            &&& forall|name: Seq<char>|
                name != "host"@ && name != "accept-encoding"@ && name != "if-modified-since"@ ==> (
                #[trigger] headers.contains_key(name) <==> entries.contains_key(name))
            &&& forall|name: Seq<char>|
                name != "host"@ && name != "accept-encoding"@ && name != "if-modified-since"@ && (
                #[trigger] headers.contains_key(name)) ==> headers[name] == entries[name]
            &&& !headers.contains_key("accept-encoding"@)
            &&& !headers.contains_key("if-modified-since"@)
            &&& headers.contains_key("host"@)
        }),
{
    request_names_differ();
}

/// The host header of a request is the authority that the request goes to, and nothing else.
pub proof fn host_headers_name_the_authority(
    target: Seq<char>,
    host: Seq<char>,
    rest: Seq<char>,
    entries: Entries,
    jackbox_urls: Regex,
)
    requires
        routed(Some(target), entries, jackbox_urls) is Ok,
    ensures
        !(target.len() >= 2 && target[0] == '/' && target[1] == '@') ==> routed(
            Some(target),
            entries,
            jackbox_urls,
        )->Ok_0.headers["host"@] == seq![encode_utf8("jackbox.tv"@)],
        target == "/@"@ + host + rest && !host.contains('/') && (rest.len() > 0 ==> rest[0] == '/')
            ==> routed(Some(target), entries, jackbox_urls)->Ok_0.headers["host"@] == seq![
            encode_utf8(host),
        ],
{
    request_names_differ();
    reveal_strlit("/@");
    reveal_strlit("/");
    if !(target.len() >= 2 && target[0] == '/' && target[1] == '@') {
        if "/@"@.is_prefix_of(target) {
            assert("/@"@[0] == target[0] && "/@"@[1] == target[1]);
        }
        not_proxied(target);
    }
    if target == "/@"@ + host + rest && !host.contains('/') && (rest.len() > 0 ==> rest[0] == '/') {
        links_lead_back(Seq::empty(), host, rest.skip(1));
        if rest.len() == 0 {
            assert(target =~= "/@"@ + host);
        } else {
            assert(rest =~= "/"@ + rest.skip(1));
            assert(target =~= "/@"@ + host + "/"@ + rest.skip(1));
        }
    }
}

/// Whether the bytes from `start` to `end` of a header value stand between two commas, or between a
/// comma and an end, and are `br` at `at` with nothing beside it but spaces and tabs.
pub open spec fn br_stands_at(value: Seq<u8>, start: int, at: int, end: int) -> bool {
    &&& 0 <= start <= at
    &&& at + 2 <= end <= value.len()
    &&& start == 0 || value[start - 1] == 44
    &&& end == value.len() || value[end] == 44
    &&& value[at] == 98
    &&& value[at + 1] == 114
    &&& forall|i: int|
        start <= i < end && i != at && i != at + 1 ==> (#[trigger] value[i] == 32 || value[i] == 9)
}

/// A client accepts brotli exactly where the first value of its `Accept-Encoding` is visible text
/// with `br` between two commas, or between a comma and an end, and nothing beside it there but
/// spaces and tabs.
pub proof fn clients_say_that_they_accept_brotli(
    target: Seq<char>,
    entries: Entries,
    jackbox_urls: Regex,
)
    requires
        routed(Some(target), entries, jackbox_urls) is Ok,
    ensures
        routed(Some(target), entries, jackbox_urls)->Ok_0.br <==> {
            let value = entries["accept-encoding"@][0];
            &&& entries.contains_key("accept-encoding"@)
            &&& forall|i: int|
                0 <= i < value.len() ==> (32 <= #[trigger] value[i] < 127) || value[i] == 9
            &&& exists|start: int, at: int, end: int| #[trigger] br_stands_at(value, start, at, end)
        },
{
    let value = entries["accept-encoding"@][0];
    if lists_br(ascii_text(value)) {
        listed_br_stands(value);
    }
    if exists|start: int, at: int, end: int| #[trigger] br_stands_at(value, start, at, end) {
        let (start, at, end) = choose|start: int, at: int, end: int| #[trigger]
            br_stands_at(value, start, at, end);
        standing_br_is_listed(value, start, at, end);
    }
}

/// Where a list has an item that says `br`, it says so somewhere.
proof fn listed_br_stands(value: Seq<u8>)
    requires
        lists_br(ascii_text(value)),
    ensures
        exists|start: int, at: int, end: int| #[trigger] br_stands_at(value, start, at, end),
{
    let list = ascii_text(value);
    let (start, end) = choose|start: int, end: int|
        #[trigger] is_item(list, start, end) && says_br(list.subrange(start, end));
    let item = list.subrange(start, end);
    let k = choose|k: int|
        {
            &&& 0 <= k
            &&& k + 2 <= item.len()
            &&& #[trigger] item[k] == 'b'
            &&& item[k + 1] == 'r'
            &&& forall|i: int|
                0 <= i < item.len() && i != k && i != k + 1 ==> blank(#[trigger] item[i])
        };
    let at = start + k;
    assert(item[k] == value[at] as char && item[k + 1] == value[at + 1] as char);
    assert forall|i: int| start <= i < end && i != at && i != at + 1 implies (#[trigger] value[i]
        == 32 || value[i] == 9) by {
        assert(blank(item[i - start]));
        assert(item[i - start] == value[i] as char);
    }
    assert(br_stands_at(value, start, at, end));
}

/// Where a value says `br` somewhere, the list has an item that says so.
proof fn standing_br_is_listed(value: Seq<u8>, start: int, at: int, end: int)
    requires
        br_stands_at(value, start, at, end),
    ensures
        lists_br(ascii_text(value)),
{
    let list = ascii_text(value);
    let item = list.subrange(start, end);
    assert forall|i: int| start <= i < end implies list[i] != ',' by {
        assert(list[i] == value[i] as char);
    }
    assert(is_item(list, start, end));
    assert(item[at - start] == 'b' && item[at - start + 1] == 'r');
    assert forall|i: int|
        0 <= i < item.len() && i != at - start && i != at - start + 1 implies blank(
        #[trigger] item[i],
    ) by {
        assert(item[i] == value[start + i] as char);
    }
    assert(says_br(item));
}

/// On one host, different paths have different index entries, unless one of them is the root.
pub proof fn index_entries_have_their_names(host: Seq<char>, one: Seq<char>, other: Seq<char>)
    requires
        index_name(host, one) == index_name(host, other),
        one != "/"@,
        other != "/"@,
    ensures
        one == other,
{
    let start = (host + "/"@).len() as int;
    assert(index_name(host, one).skip(start) =~= one);
    assert(index_name(host, other).skip(start) =~= other);
}

/// The paths that two requests of one authority name, other than the root, have different index
/// entries where they are different.
pub proof fn resources_have_their_index_entries(
    host: Seq<char>,
    one: Seq<char>,
    other: Seq<char>,
    entries: Entries,
    jackbox_urls: Regex,
)
    requires
        !host.contains('/'),
        one.len() > 1,
        one[0] == '/',
        !one.contains('?'),
        !one.contains('#'),
        other.len() > 1,
        other[0] == '/',
        !other.contains('?'),
        !other.contains('#'),
        routed(Some("/@"@ + host + one), entries, jackbox_urls) is Ok,
        routed(Some("/@"@ + host + other), entries, jackbox_urls) is Ok,
        routed(Some("/@"@ + host + one), entries, jackbox_urls)->Ok_0.index == routed(
            Some("/@"@ + host + other),
            entries,
            jackbox_urls,
        )->Ok_0.index,
    ensures
        one == other,
{
    reveal_strlit("/");
    proxied_requests_go_to_their_host(host, one, Seq::empty(), entries, jackbox_urls);
    proxied_requests_go_to_their_host(host, other, Seq::empty(), entries, jackbox_urls);
    assert("/@"@ + host + one + Seq::empty() =~= "/@"@ + host + one);
    assert("/@"@ + host + other + Seq::empty() =~= "/@"@ + host + other);
    let start = (host_of(host) + "/"@).len() as int;
    assert((host_of(host) + "/"@ + one).skip(start) =~= one);
    assert((host_of(host) + "/"@ + other).skip(start) =~= other);
}

/// A request begins as its mode says: online it asks the upstream, offline it reads the index
/// entry, and in oneshot mode it sees first whether there is one. It keeps the mode, the host that
/// the client reaches the proxy at, and the expressions that it was given; and it is refused
/// exactly where it cannot be routed, for the same reason.
pub proof fn requests_begin_by_mode(
    target: Option<Seq<char>>,
    entries: Entries,
    cache_mode: CacheMode,
    accessible_host: Seq<char>,
    regexes: Regexes,
)
    ensures
        match routed(target, entries, regexes.jackbox_urls) {
            Err(refusal) => begun(target, entries, cache_mode, accessible_host, regexes)
                matches Err(error) && error == refusal,
            Ok(route) => begun(target, entries, cache_mode, accessible_host, regexes) matches Ok(
                session,
            ) && {
                &&& session.route == route
                &&& session.cache_mode == cache_mode
                &&& session.accessible_host == accessible_host
                &&& session.regexes == regexes
                &&& cache_mode == CacheMode::Online ==> session.progress == ProgressView::Fetch(
                    None,
                )
                &&& cache_mode == CacheMode::Offline ==> session.progress
                    == ProgressView::ReadIndex(None)
                &&& cache_mode == CacheMode::Oneshot ==> session.progress
                    == ProgressView::ProbeIndex
            },
        },
{
}

}

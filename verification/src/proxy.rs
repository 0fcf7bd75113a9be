//! The forwarder: what a proxied request and its response carry.

use crate::headers::{
    append_value, appended_values, header_entries, insert_value, is_header_name,
    is_header_value, remove_header, text_value, values_of, values_under, HeaderFields,
};
use actix_web::http::HeaderMap;
use vstd::prelude::*;
use vstd::utf8::encode_utf8;

verus! {

/// The "hop-by-hop" headers, which are meaningful for a single connection
/// only and are not passed on by a proxy. They are written as header maps
/// store names, in lower case, so that a header is found whatever the case in
/// which it was sent.
pub const HOP_BY_HOP_HEADERS: [&'static str; 8] = [
    "connection",
    "keep-alive",
    "proxy-authenticate",
    "proxy-authorization",
    "te",
    "trailers",
    "transfer-encoding",
    "upgrade",
];

/// The names of the hop-by-hop headers, as a header map stores them.
pub open spec fn hop_by_hop_names() -> Seq<Seq<char>> {
    seq![
        "connection"@,
        "keep-alive"@,
        "proxy-authenticate"@,
        "proxy-authorization"@,
        "te"@,
        "trailers"@,
        "transfer-encoding"@,
        "upgrade"@,
    ]
}

/// Whether `name` is one of the hop-by-hop headers.
pub open spec fn is_hop_by_hop(name: Seq<char>) -> bool {
    hop_by_hop_names().contains(name)
}

/// The fields that are left once every field with one of `names` is gone.
pub open spec fn without_names(
    entries: HeaderFields,
    names: Seq<Seq<char>>,
) -> HeaderFields {
    Map::new(
        |name: Seq<char>| entries.dom().contains(name) && !names.contains(name),
        |name: Seq<char>| entries[name],
    )
}

/// The fields that are left once the hop-by-hop headers are gone.
pub open spec fn without_hop_headers(entries: HeaderFields) -> HeaderFields {
    without_names(entries, hop_by_hop_names())
}

/// Dropping one more name after some others.
proof fn lemma_without_one_more(entries: HeaderFields, names: Seq<Seq<char>>, i: int)
    requires
        0 <= i < names.len(),
    ensures
        without_names(entries, names.take(i)).remove(names[i]) == without_names(
            entries,
            names.take(i + 1),
        ),
{
    let before = names.take(i);
    let after = names.take(i + 1);
    assert forall|name: Seq<char>|
        after.contains(name) <==> (before.contains(name) || name == names[i]) by {
        if after.contains(name) {
            let k = choose|k: int| 0 <= k < after.len() && after[k] == name;
            if k < i {
                assert(before[k] == name);
            }
        }
        if before.contains(name) {
            let k = choose|k: int| 0 <= k < before.len() && before[k] == name;
            assert(after[k] == name);
        }
        if name == names[i] {
            assert(after[i] == name);
        }
    }
    assert(without_names(entries, before).remove(names[i]) =~= without_names(entries, after));
}

/// Every hop-by-hop name is a header name in stored form.
proof fn lemma_hop_names_are_header_names()
    ensures
        hop_by_hop_names().len() == 8,
        forall|i: int| 0 <= i < 8 ==> is_header_name(#[trigger] hop_by_hop_names()[i]),
{
    reveal_strlit("connection");
    reveal_strlit("keep-alive");
    reveal_strlit("proxy-authenticate");
    reveal_strlit("proxy-authorization");
    reveal_strlit("te");
    reveal_strlit("trailers");
    reveal_strlit("transfer-encoding");
    reveal_strlit("upgrade");
}

/// Drops the hop-by-hop headers from a header map.
fn drop_hop_headers(headers: &mut HeaderMap)
    ensures
        header_entries(*final(headers)) == without_hop_headers(header_entries(*old(headers))),
{
    proof {
        lemma_hop_names_are_header_names();
    }
    let mut i: usize = 0;
    while i < 8
        invariant
            i <= 8,
            hop_by_hop_names().len() == 8,
            forall|k: int| 0 <= k < 8 ==> is_header_name(#[trigger] hop_by_hop_names()[k]),
            forall|k: int|
                0 <= k < 8 ==> (#[trigger] HOP_BY_HOP_HEADERS[k])@ == hop_by_hop_names()[k],
            header_entries(*headers) == without_names(
                header_entries(*old(headers)),
                hop_by_hop_names().take(i as int),
            ),
        decreases 8 - i,
    {
        let name: &'static str = HOP_BY_HOP_HEADERS[i];
        remove_header(headers, name);
        proof {
            lemma_without_one_more(header_entries(*old(headers)), hop_by_hop_names(), i as int);
        }
        i = i + 1;
    }
    proof {
        assert(hop_by_hop_names().take(8) == hop_by_hop_names());
    }
}

/// Drops "hop-by-hop" headers on the proxied request.
pub fn drop_hop_headers_on_request(headers: &mut HeaderMap)
    ensures
        header_entries(*final(headers)) == without_hop_headers(header_entries(*old(headers))),
{
    drop_hop_headers(headers)
}

/// Drops "hop-by-hop" headers on the response.
pub fn drop_hop_headers_on_response(headers: &mut HeaderMap)
    ensures
        header_entries(*final(headers)) == without_hop_headers(header_entries(*old(headers))),
{
    drop_hop_headers(headers)
}

/// The header that tells the backend whom a request came from.
pub const X_FORWARDED_FOR: &'static str = "x-forwarded-for";

/// The header fields once the caller's address has been added: where the
/// address is known and can stand in a header value, it is appended to the
/// values of `x-forwarded-for`, after those that are there, which stay as
/// they are and in their order. Otherwise nothing changes.
pub open spec fn with_forwarded_for(
    entries: HeaderFields,
    peer_ip: Option<Seq<char>>,
) -> HeaderFields {
    match peer_ip {
        Some(ip) if is_header_value(encode_utf8(ip)) => entries.insert(
            X_FORWARDED_FOR@,
            values_of(entries, X_FORWARDED_FOR@).push(encode_utf8(ip)),
        ),
        _ => entries,
    }
}

/// The text behind an optional string.
pub open spec fn text_of(text: Option<&str>) -> Option<Seq<char>> {
    match text {
        Some(text) => Some(text@),
        None => None,
    }
}

/// Add headers to the proxied request.
///
/// The caller's address goes last among the values of `x-forwarded-for`, so
/// that a chain of proxies reads in the order in which the request passed
/// them. The header map itself stores a second value in front of a lone
/// first one; where one value is stored, the address is therefore put in its
/// place and the earlier value is added again in front of it.
pub fn add_headers_on_request(headers: &mut HeaderMap, peer_ip: Option<&str>)
    ensures
        header_entries(*final(headers)) == with_forwarded_for(
            header_entries(*old(headers)),
            text_of(peer_ip),
        ),
{
    if let Some(ip) = peer_ip {
        if let Some(value) = text_value(ip) {
            proof {
                reveal_strlit("x-forwarded-for");
            }
            let mut earlier = values_under(headers, X_FORWARDED_FOR);
            if earlier.len() == 1 {
                let first = earlier.pop().unwrap();
                insert_value(headers, X_FORWARDED_FOR, value);
                append_value(headers, X_FORWARDED_FOR, first);
                proof {
                    let before = values_of(header_entries(*old(headers)), X_FORWARDED_FOR@);
                    assert(seq![encode_utf8(ip@)].len() == 1);
                    assert(appended_values(seq![encode_utf8(ip@)], before[0]) =~= before.push(
                        encode_utf8(ip@),
                    ));
                    assert(header_entries(*headers) =~= with_forwarded_for(
                        header_entries(*old(headers)),
                        text_of(peer_ip),
                    ));
                }
            } else {
                append_value(headers, X_FORWARDED_FOR, value);
            }
        }
    }
}

/// The longest URL, path or query, in bytes, that is retargeted.
pub const MAX_URL_PART_LEN: usize = 0x1000_0000;

/// The URL `url` with its path replaced by `path`, as the URL library writes
/// it; none where `url` is no URL.
pub uninterp spec fn url_with_path(url: Seq<char>, path: Seq<char>) -> Option<Seq<char>>;

/// The URL `url` with its query string replaced by `query`, or without one,
/// as the URL library writes it; none where `url` is no URL.
pub uninterp spec fn url_with_query(url: Seq<char>, query: Option<Seq<char>>) -> Option<
    Seq<char>,
>;

/// Calls `Url::set_path` on the URL that `Url::parse` reads from `url`, and
/// hands out the URL's text.
#[verifier::external_body]
fn set_path(url: &str, path: &str) -> (changed: Option<String>)
    requires
        encode_utf8(url@).len() <= MAX_URL_PART_LEN,
        encode_utf8(path@).len() <= MAX_URL_PART_LEN,
    ensures
        match changed {
            Some(text) => url_with_path(url@, path@) == Some(text@),
            None => url_with_path(url@, path@) is None,
        },
{
    let mut url = url::Url::parse(url).ok()?;
    url.set_path(path);
    Some(url.as_str().to_string())
}

/// Calls `Url::set_query` on the URL that `Url::parse` reads from `url`, and
/// hands out the URL's text.
#[verifier::external_body]
fn set_query(url: &str, query: Option<&str>) -> (changed: Option<String>)
    requires
        encode_utf8(url@).len() <= MAX_URL_PART_LEN,
        query matches Some(text) ==> encode_utf8(text@).len() <= MAX_URL_PART_LEN,
    ensures
        match changed {
            Some(text) => url_with_query(url@, text_of(query)) == Some(text@),
            None => url_with_query(url@, text_of(query)) is None,
        },
{
    let mut url = url::Url::parse(url).ok()?;
    url.set_query(query);
    Some(url.as_str().to_string())
}

/// Whether a URL part of this text is short enough to be retargeted.
pub open spec fn is_short(text: Seq<char>) -> bool {
    encode_utf8(text).len() <= MAX_URL_PART_LEN
}

/// The target of a request for `path` and `query` at the backend `proxy_to`:
/// the backend's URL with the request's path and the request's query string
/// in place of its own. There is none where `proxy_to` is no URL, or where a
/// part is longer than `MAX_URL_PART_LEN`.
pub open spec fn proxy_url_of(
    proxy_to: Seq<char>,
    path: Seq<char>,
    query: Option<Seq<char>>,
) -> Option<Seq<char>> {
    if !is_short(proxy_to) || !is_short(path) || (query matches Some(text) && !is_short(text)) {
        None
    } else {
        match url_with_path(proxy_to, path) {
            Some(url) if is_short(url) => url_with_query(url, query),
            _ => None,
        }
    }
}

/// Builds a proxied target URL from a request's path and query string.
pub fn proxy_url(proxy_to: &str, path: &str, query: Option<&str>) -> (target: Option<String>)
    ensures
        match target {
            Some(url) => proxy_url_of(proxy_to@, path@, text_of(query)) == Some(url@),
            None => proxy_url_of(proxy_to@, path@, text_of(query)) is None,
        },
{
    if proxy_to.as_bytes().len() > MAX_URL_PART_LEN || path.as_bytes().len() > MAX_URL_PART_LEN {
        return None;
    }
    if let Some(text) = query {
        if text.as_bytes().len() > MAX_URL_PART_LEN {
            return None;
        }
    }
    match set_path(proxy_to, path) {
        Some(url) => {
            if url.as_str().as_bytes().len() > MAX_URL_PART_LEN {
                None
            } else {
                set_query(url.as_str(), query)
            }
        },
        None => None,
    }
}

/// Turns the header fields of an inbound request into those of the request
/// to the backend: without the hop-by-hop headers, and with the caller's
/// address added.
pub fn proxied_request(headers: &mut HeaderMap, peer_ip: Option<&str>)
    ensures
        header_entries(*final(headers)) == with_forwarded_for(
            without_hop_headers(header_entries(*old(headers))),
            text_of(peer_ip),
        ),
{
    drop_hop_headers_on_request(headers);
    add_headers_on_request(headers, peer_ip);
}

/// What the caller gets back of the backend's response: its status code, and
/// its header fields without the hop-by-hop headers.
pub struct Response {
    pub status: u16,
    pub headers: HeaderMap,
}

/// Builds a `Response` from the status code and a copy of the header fields
/// of the backend's response.
pub fn response(status: u16, headers: HeaderMap) -> (response: Response)
    ensures
        response.status == status,
        header_entries(response.headers) == without_hop_headers(header_entries(headers)),
{
    let mut headers = headers;
    drop_hop_headers_on_response(&mut headers);
    Response { status, headers }
}

} // verus!

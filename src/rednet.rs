//! The rednet broker: route matching for proxied HTTP requests, and the tables
//! that correlate requests sent to listening computers with their replies.

use std::collections::HashMap;
use rand::Rng;
use vstd::prelude::*;
use crate::api::{HttpOverRednetRoute, RednetBackend};
use crate::owned::views;

verus! {

broadcast use vstd::std_specs::hash::group_hash_axioms;

/// A proxied HTTP request as it travels over rednet.
pub struct HttpRequest {
    pub method: String,
    pub path: String,
    pub query: Option<String>,
    pub headers: Vec<(String, Vec<String>)>,
    pub body: String,
}

/// The reply of a computer to a proxied request.
pub struct HttpResponse {
    pub status: u16,
    pub headers: Vec<(String, Vec<String>)>,
    pub body: String,
}

/// The routes a hub serves, in the order they are tried.
pub struct RednetConfig {
    pub routes: Vec<HttpOverRednetRoute>,
}

/// Seconds a proxied request waits for its reply unless configured otherwise.
pub fn default_gateway_timeout() -> (r: u32)
    ensures
        r == 5,
{
    5
}

/// Why a proxied request got no reply.
#[derive(Debug)]
pub enum GatewayError {
    ConfigUnavailable,
    RouteNotMatched,
    BodyReadFailure,
    NoListeners,
    SendFailed,
    UpstreamTimeout,
    UpstreamCancelled,
}

/// The HTTP status a client receives for each failure.
pub open spec fn status_of(e: GatewayError) -> u16 {
    match e {
        GatewayError::ConfigUnavailable => 502,
        GatewayError::RouteNotMatched => 404,
        GatewayError::BodyReadFailure => 500,
        GatewayError::NoListeners => 502,
        GatewayError::SendFailed => 500,
        GatewayError::UpstreamTimeout => 504,
        GatewayError::UpstreamCancelled => 502,
    }
}

impl GatewayError {
    /// The HTTP status the client receives for this failure.
    pub fn status_code(&self) -> (r: u16)
        ensures
            r == status_of(*self),
    {
        match self {
            GatewayError::ConfigUnavailable => 502,
            GatewayError::RouteNotMatched => 404,
            GatewayError::BodyReadFailure => 500,
            GatewayError::NoListeners => 502,
            GatewayError::SendFailed => 500,
            GatewayError::UpstreamTimeout => 504,
            GatewayError::UpstreamCancelled => 502,
        }
    }
}

/// `p` is a prefix of `s`.
pub open spec fn is_prefix(p: Seq<char>, s: Seq<char>) -> bool {
    p.len() <= s.len() && s.subrange(0, p.len() as int) == p
}

/// Whether `s` starts with `prefix`.
pub fn starts_with(s: &str, prefix: &str) -> (r: bool)
    ensures
        r == is_prefix(prefix@, s@),
{
    let plen = prefix.unicode_len();
    let slen = s.unicode_len();
    if plen > slen {
        return false;
    }
    let mut i: usize = 0;
    while i < plen
        invariant
            plen == prefix@.len(),
            slen == s@.len(),
            plen <= slen,
            i <= plen,
            forall|j: int| 0 <= j < i ==> s@[j] == prefix@[j],
        decreases plen - i,
    {
        if s.get_char(i) != prefix.get_char(i) {
            assert(s@.subrange(0, plen as int)[i as int] != prefix@[i as int]);
            return false;
        }
        i += 1;
    }
    assert(s@.subrange(0, plen as int) =~= prefix@);
    true
}

/// The route sends requests for `path` to its backend.
pub open spec fn route_matches(r: HttpOverRednetRoute, path: Seq<char>) -> bool {
    is_prefix(r.prefix@, path)
}

/// The route at `i` is the first of `routes` that matches `path`.
pub open spec fn is_first_match(routes: Seq<HttpOverRednetRoute>, path: Seq<char>, i: int) -> bool {
    &&& 0 <= i < routes.len()
    &&& route_matches(routes[i], path)
    &&& forall|j: int| 0 <= j < i ==> !route_matches(#[trigger] routes[j], path)
}

impl HttpOverRednetRoute {
    /// Whether this route serves the request: its prefix starts the request's path.
    pub fn check(&self, req: &HttpRequest) -> (r: bool)
        ensures
            r == route_matches(*self, req.path@),
    {
        starts_with(req.path.as_str(), self.prefix.as_str())
    }
}

/// The backend of the first route, in declared order, that serves `req`.
pub fn select_route(routes: &Vec<HttpOverRednetRoute>, req: &HttpRequest) -> (r: Option<RednetBackend>)
    ensures
        r is None <==> forall|j: int| 0 <= j < routes@.len() ==> !route_matches(#[trigger] routes@[j], req.path@),
        r is Some ==> exists|i: int| is_first_match(routes@, req.path@, i) && r->0 == routes@[i].backend,
{
    let mut i: usize = 0;
    while i < routes.len()
        invariant
            i <= routes@.len(),
            forall|j: int| 0 <= j < i ==> !route_matches(#[trigger] routes@[j], req.path@),
        decreases routes@.len() - i,
    {
        if routes[i].check(req) {
            assert(is_first_match(routes@, req.path@, i as int));
            return Some(routes[i].backend.clone());
        }
        i += 1;
    }
    None
}

/// The prefix under which the hub serves proxied requests.
pub open spec fn gateway_mount() -> Seq<char> {
    "/gateway"@
}

/// The path a route is matched against: the request path without the mount prefix.
pub open spec fn stripped_path(path: Seq<char>) -> Seq<char> {
    if is_prefix(gateway_mount(), path) {
        path.subrange(gateway_mount().len() as int, path.len() as int)
    } else {
        path
    }
}

/// Removes the leading `/gateway` from a request path.
pub fn strip_gateway_prefix(path: &str) -> (r: String)
    ensures
        r@ == stripped_path(path@),
{
    let mount = "/gateway";
    if starts_with(path, mount) {
        let rest = path.substring_char(mount.unicode_len(), path.unicode_len());
        String::from_str(rest)
    } else {
        String::from_str(path)
    }
}

/// Picks the destination of a proxied request: strips the mount prefix from its
/// path and takes the backend of the first route that serves the stripped path.
pub fn route_request(config: &RednetConfig, request: HttpRequest) -> (r: Result<(RednetBackend, HttpRequest), GatewayError>)
    ensures
        r is Ok <==> exists|i: int| is_first_match(config.routes@, stripped_path(request.path@), i),
        match r {
            Ok((backend, req)) => {
                &&& req.path@ == stripped_path(request.path@)
                &&& req.method == request.method
                &&& req.query == request.query
                &&& req.headers == request.headers
                &&& req.body == request.body
                &&& exists|i: int| is_first_match(config.routes@, req.path@, i) && backend == config.routes@[i].backend
            },
            Err(e) => e is RouteNotMatched,
        },
{
    let path = strip_gateway_prefix(request.path.as_str());
    let req = HttpRequest {
        method: request.method,
        path,
        query: request.query,
        headers: request.headers,
        body: request.body,
    };
    match select_route(&config.routes, &req) {
        Some(backend) => Ok((backend, req)),
        None => {
            assert forall|i: int| !is_first_match(config.routes@, req.path@, i) by {
                if 0 <= i < config.routes@.len() {
                    assert(!route_matches(config.routes@[i], req.path@));
                }
            }
            Err(GatewayError::RouteNotMatched)
        },
    }
}

/// The values of the header `name` among `pairs`, in order.
pub open spec fn values_of(pairs: Seq<(String, String)>, name: Seq<char>) -> Seq<Seq<char>>
    decreases pairs.len(),
{
    if pairs.len() == 0 {
        Seq::empty()
    } else {
        let prev = values_of(pairs.drop_last(), name);
        if pairs.last().0@ == name {
            prev.push(pairs.last().1@)
        } else {
            prev
        }
    }
}

/// `groups` holds each header name of `pairs` once, with all its values in order.
pub open spec fn grouped(groups: Seq<(String, Vec<String>)>, pairs: Seq<(String, String)>) -> bool {
    &&& forall|i: int, j: int| 0 <= i < j < groups.len() ==> (#[trigger] groups[i]).0@ != (#[trigger] groups[j]).0@
    &&& forall|i: int| 0 <= i < groups.len() ==> views((#[trigger] groups[i]).1@) == values_of(pairs, groups[i].0@)
    &&& forall|k: int| 0 <= k < pairs.len() ==> exists|i: int| 0 <= i < groups.len() && (#[trigger] groups[i]).0@ == (#[trigger] pairs[k]).0@
}

proof fn lemma_values_need_a_pair(pairs: Seq<(String, String)>, name: Seq<char>)
    requires
        values_of(pairs, name).len() > 0,
    ensures
        exists|k: int| 0 <= k < pairs.len() && (#[trigger] pairs[k]).0@ == name,
    decreases pairs.len(),
{
    if pairs.last().0@ != name {
        lemma_values_need_a_pair(pairs.drop_last(), name);
        let k = choose|k: int| 0 <= k < pairs.drop_last().len() && (#[trigger] pairs.drop_last()[k]).0@ == name;
        assert(pairs[k] == pairs.drop_last()[k]);
    } else {
        assert(pairs[pairs.len() - 1].0@ == name);
    }
}

/// Gathers the values of repeated headers under one name, keeping their order.
pub fn group_headers(pairs: &Vec<(String, String)>) -> (r: Vec<(String, Vec<String>)>)
    ensures
        grouped(r@, pairs@),
{
    let mut out: Vec<(String, Vec<String>)> = Vec::new();
    let mut i: usize = 0;
    while i < pairs.len()
        invariant
            i <= pairs@.len(),
            grouped(out@, pairs@.subrange(0, i as int)),
        decreases pairs@.len() - i,
    {
        let ghost pre = pairs@.subrange(0, i as int);
        let ghost cur = pairs@.subrange(0, i + 1);
        let ghost before = out@;
        assert(cur.drop_last() =~= pre);
        let name = pairs[i].0.clone();
        let value = pairs[i].1.clone();
        assert forall|n: Seq<char>| n != name@ implies values_of(cur, n) == values_of(pre, n) by {}
        assert(values_of(cur, name@) == values_of(pre, name@).push(value@));
        let mut found: Option<usize> = None;
        let mut j: usize = 0;
        while j < out.len()
            invariant
                j <= out@.len(),
                out@ == before,
                match found {
                    Some(f) => f < out@.len() && out@[f as int].0@ == name@,
                    None => forall|m: int| 0 <= m < j ==> (#[trigger] out@[m]).0@ != name@,
                },
            ensures
                out@ == before,
                match found {
                    Some(f) => f < out@.len() && out@[f as int].0@ == name@,
                    None => forall|m: int| 0 <= m < out@.len() ==> (#[trigger] out@[m]).0@ != name@,
                },
            decreases out@.len() - j,
        {
            if out[j].0.eq(&name) {
                found = Some(j);
                break;
            }
            j += 1;
        }
        match found {
            Some(j) => {
                let (n, mut vs) = out.remove(j);
                let ghost old_vs = vs@;
                vs.push(value);
                assert(views(vs@) =~= views(old_vs).push(value@));
                out.insert(j, (n, vs));
                assert forall|a: int, b: int| 0 <= a < b < out@.len() implies (#[trigger] out@[a]).0@ != (#[trigger] out@[b]).0@ by {
                    assert(out@[a].0@ == before[a].0@);
                    assert(out@[b].0@ == before[b].0@);
                }
                assert forall|m: int| 0 <= m < out@.len() implies views((#[trigger] out@[m]).1@) == values_of(cur, out@[m].0@) by {
                    if m != j {
                        assert(out@[m] == before[m]);
                    }
                }
                assert forall|k: int| 0 <= k < cur.len() implies exists|m: int| 0 <= m < out@.len() && (#[trigger] out@[m]).0@ == (#[trigger] cur[k]).0@ by {
                    if k < i {
                        assert(cur[k] == pre[k]);
                        let m = choose|m: int| 0 <= m < before.len() && (#[trigger] before[m]).0@ == pre[k].0@;
                        assert(out@[m].0@ == before[m].0@);
                    } else {
                        assert(out@[j as int].0@ == cur[k].0@);
                    }
                }
            },
            None => {
                proof {
                    if values_of(pre, name@).len() > 0 {
                        lemma_values_need_a_pair(pre, name@);
                        let k = choose|k: int| 0 <= k < pre.len() && (#[trigger] pre[k]).0@ == name@;
                        let m = choose|m: int| 0 <= m < before.len() && (#[trigger] before[m]).0@ == pre[k].0@;
                        assert(before[m].0@ != name@);
                    }
                }
                assert(values_of(pre, name@).len() == 0);
                let mut vs: Vec<String> = Vec::new();
                vs.push(value);
                assert(views(vs@) =~= values_of(cur, name@));
                out.push((name, vs));
                assert forall|m: int| 0 <= m < out@.len() implies views((#[trigger] out@[m]).1@) == values_of(cur, out@[m].0@) by {
                    if m < before.len() {
                        assert(out@[m] == before[m]);
                        assert(before[m].0@ != name@);
                    }
                }
                assert forall|k: int| 0 <= k < cur.len() implies exists|m: int| 0 <= m < out@.len() && (#[trigger] out@[m]).0@ == (#[trigger] cur[k]).0@ by {
                    if k < i {
                        assert(cur[k] == pre[k]);
                        let m = choose|m: int| 0 <= m < before.len() && (#[trigger] before[m]).0@ == pre[k].0@;
                        assert(out@[m] == before[m]);
                    } else {
                        assert(out@[before.len() as int].0@ == cur[k].0@);
                    }
                }
            },
        }
        i += 1;
    }
    assert(pairs@.subrange(0, pairs@.len() as int) =~= pairs@);
    out
}

} // verus!

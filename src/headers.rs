//! Header maps, and the headers that a redirect passes on from its request.
use vstd::prelude::*;
use axum::http::{HeaderMap, HeaderName, HeaderValue};

verus! {

#[verifier::external_type_specification]
#[verifier::external_body]
#[verifier::reject_recursive_types(T)]
pub struct ExHeaderMap<T>(HeaderMap<T>);

#[verifier::external_type_specification]
#[verifier::external_body]
pub struct ExHeaderValue(HeaderValue);

/// Header values by name: for each lower-case name, its values in order.
pub type HeaderValues = Map<Seq<char>, Seq<Seq<u8>>>;

/// What a header map holds: for each lower-case header name, every value
/// stored under it, in the order in which they were added.
pub uninterp spec fn header_entries(m: HeaderMap) -> HeaderValues;

/// How many distinct header names a header map holds.
pub uninterp spec fn header_count(m: HeaderMap) -> nat;

/// How many values a header map holds, over all names.
pub uninterp spec fn header_len(m: HeaderMap) -> nat;

/// Fewest distinct names at which inserting into a header map might need a
/// table beyond its fixed maximum (2^15 slots, doubled at most once from
/// the 2^14 slots that fewer than 6554 names occupy); below it `insert`
/// never panics.
pub const HEADER_LIMIT: usize = 4096;

/// A lower-case header name: letters, digits and `-`, no longer than the
/// 65535 bytes a header name may take.
pub open spec fn is_header_name(s: Seq<char>) -> bool {
    &&& 0 < s.len() <= 65535
    &&& forall|i: int|
        0 <= i < s.len() ==> ('a' <= #[trigger] s[i] <= 'z') || ('0' <= s[i] <= '9') || s[i] == '-'
}

/// A byte that may stand in a header value read as text.
pub open spec fn is_visible_ascii(b: u8) -> bool {
    (32 <= b && b < 127) || b == 9
}

/// A header value that reads as text.
pub open spec fn is_text_value(v: Seq<u8>) -> bool {
    forall|i: int| 0 <= i < v.len() ==> is_visible_ascii(#[trigger] v[i])
}

/// How many values `m` holds under `name`.
pub open spec fn values_under(m: HeaderValues, name: Seq<char>) -> int {
    if m.contains_key(name) {
        m[name].len() as int
    } else {
        0
    }
}

/// Relies on `HeaderMap::new`: an empty map.
#[verifier::external_body]
pub(crate) fn new_header_map() -> (r: HeaderMap)
    ensures
        header_entries(r).dom() == Set::<Seq<char>>::empty(),
        header_count(r) == 0,
        header_len(r) == 0,
{
    HeaderMap::new()
}

/// Relies on `HeaderMap::get`, with the value's bytes: the first value
/// stored under `name`; a name that is present holds at least one value.
#[verifier::external_body]
fn first_value(m: &HeaderMap, name: &str) -> (r: Option<Vec<u8>>)
    requires
        is_header_name(name@),
    ensures
        r is None <==> !header_entries(*m).contains_key(name@),
        r is Some ==> header_entries(*m)[name@].len() > 0 && r->Some_0@ == header_entries(
            *m,
        )[name@][0],
{
    m.get(name).map(|v| v.as_bytes().to_vec())
}

/// Relies on `HeaderMap::insert`, with the name and value converted by
/// `HeaderName::from_bytes` and `HeaderValue::from_bytes`, which accept
/// every lower-case name of at most 65535 bytes and every text value:
/// `value` becomes the only value under `name`.
#[verifier::external_body]
fn set_header(m: &mut HeaderMap, name: &str, value: &Vec<u8>)
    requires
        is_header_name(name@),
        is_text_value(value@),
        header_count(*old(m)) < HEADER_LIMIT,
    ensures
        header_entries(*final(m)) == header_entries(*old(m)).insert(name@, seq![value@]),
        header_count(*final(m)) == if header_entries(*old(m)).contains_key(name@) {
            header_count(*old(m))
        } else {
            header_count(*old(m)) + 1
        },
        header_len(*final(m)) == header_len(*old(m)) + 1 - values_under(header_entries(*old(m)), name@),
{
    let name = HeaderName::from_bytes(name.as_bytes()).unwrap();
    let value = HeaderValue::from_bytes(value).unwrap();
    m.insert(name, value);
}

/// The names of the headers that a redirect passes on, in the order in which
/// they are tried.
pub open spec fn forwarded_names() -> Seq<Seq<char>> {
    seq![
        "host"@,
        "accept-language"@,
        "content-type"@,
        "content-security-policy"@,
        "x-content-type-options"@,
        "x-frame-options"@,
        "x-xss-protection"@,
        "cookie"@,
        "set-cookie"@,
    ]
}

/// The first value of `m` under `name`, if any.
pub open spec fn first_of(m: HeaderValues, name: Seq<char>) -> Option<Seq<u8>> {
    if m.contains_key(name) && m[name].len() > 0 {
        Some(m[name][0])
    } else {
        None
    }
}

/// Forwarding `name` adds a header: the request's first value under it reads
/// as text, and the response has no header of that name.
pub open spec fn adds(resp: HeaderValues, req: HeaderValues, name: Seq<char>) -> bool {
    &&& first_of(req, name) is Some
    &&& is_text_value(first_of(req, name)->Some_0)
    &&& !resp.contains_key(name)
}

/// One step of forwarding: the request's first value under `name` becomes
/// the response's only value under it, when `adds` holds.
pub open spec fn forward_one(resp: HeaderValues, req: HeaderValues, name: Seq<char>) -> HeaderValues {
    if adds(resp, req, name) {
        resp.insert(name, seq![first_of(req, name)->Some_0])
    } else {
        resp
    }
}

/// Forwarding of each name of `names` in turn.
pub open spec fn forward_all(resp: HeaderValues, req: HeaderValues, names: Seq<Seq<char>>) -> HeaderValues
    decreases names.len(),
{
    if names.len() == 0 {
        resp
    } else {
        forward_one(forward_all(resp, req, names.drop_last()), req, names.last())
    }
}

/// How many headers forwarding of `names` adds.
pub open spec fn forward_added(resp: HeaderValues, req: HeaderValues, names: Seq<Seq<char>>) -> nat
    decreases names.len(),
{
    if names.len() == 0 {
        0
    } else {
        let mid = forward_all(resp, req, names.drop_last());
        forward_added(resp, req, names.drop_last()) + if adds(mid, req, names.last()) {
            1nat
        } else {
            0nat
        }
    }
}

/// Forwarding of `a` then `b` is forwarding of `a + b`.
proof fn lemma_forward_concat(resp: HeaderValues, req: HeaderValues, a: Seq<Seq<char>>, b: Seq<Seq<char>>)
    ensures
        forward_all(forward_all(resp, req, a), req, b) == forward_all(resp, req, a + b),
    decreases b.len(),
{
    if b.len() == 0 {
        assert(a + b =~= a);
    } else {
        lemma_forward_concat(resp, req, a, b.drop_last());
        assert((a + b).drop_last() =~= a + b.drop_last());
        assert((a + b).last() == b.last());
    }
}

/// Forwarding onto a response never changes what the response already
/// holds: every value of every header it has stays as it was.
pub proof fn lemma_forward_keeps_response(resp: HeaderValues, req: HeaderValues, names: Seq<Seq<char>>)
    ensures
        forall|name: Seq<char>|
            #[trigger] resp.contains_key(name) ==> forward_all(resp, req, names).contains_key(name)
                && forward_all(resp, req, names)[name] == resp[name],
    decreases names.len(),
{
    if names.len() > 0 {
        lemma_forward_keeps_response(resp, req, names.drop_last());
        let mid = forward_all(resp, req, names.drop_last());
        assert forall|name: Seq<char>| #[trigger] resp.contains_key(name) implies forward_all(
            resp,
            req,
            names,
        ).contains_key(name) && forward_all(resp, req, names)[name] == resp[name] by {
            assert(mid.contains_key(name));
        }
    }
}

/// A request without headers has nothing forwarded.
pub proof fn lemma_forward_empty_request(resp: HeaderValues, names: Seq<Seq<char>>)
    ensures
        forward_all(resp, Map::empty(), names) == resp,
        forward_added(resp, Map::empty(), names) == 0,
    decreases names.len(),
{
    if names.len() > 0 {
        lemma_forward_empty_request(resp, names.drop_last());
    }
}

/// The full rule of forwarding over distinct names: a header the response
/// holds keeps all its values; another name ends up with exactly the
/// request's first value when it is among `names` and that value reads as
/// text; every other name stays absent.
pub proof fn lemma_forward_rule(resp: HeaderValues, req: HeaderValues, names: Seq<Seq<char>>, k: Seq<char>)
    requires
        names.no_duplicates(),
    ensures
        resp.contains_key(k) ==> forward_all(resp, req, names).contains_key(k)
            && forward_all(resp, req, names)[k] == resp[k],
        !resp.contains_key(k) ==> (forward_all(resp, req, names).contains_key(k) <==> names.contains(k)
            && adds(resp, req, k)),
        !resp.contains_key(k) && names.contains(k) && adds(resp, req, k) ==> forward_all(
            resp,
            req,
            names,
        )[k] == seq![first_of(req, k)->Some_0],
    decreases names.len(),
{
    if names.len() > 0 {
        let init = names.drop_last();
        let n = names.last();
        assert(init.no_duplicates()) by {
            assert forall|i: int, j: int| 0 <= i < init.len() && 0 <= j < init.len() && i != j implies init[i]
                != init[j] by {
                assert(init[i] == names[i] && init[j] == names[j]);
            }
        }
        lemma_forward_rule(resp, req, init, k);
        assert(names =~= init.push(n));
        if init.contains(k) {
            let i = choose|i: int| 0 <= i < init.len() && init[i] == k;
            assert(names[i] == k);
            assert(names.contains(k));
        }
        if k == n {
            assert(names[names.len() - 1] == k);
            assert(names.contains(k));
            if init.contains(k) {
                let i = choose|i: int| 0 <= i < init.len() && init[i] == k;
                assert(names[i] == names[names.len() - 1]);
            }
        } else {
            if names.contains(k) {
                let i = choose|i: int| 0 <= i < names.len() && names[i] == k;
                assert(i < names.len() - 1);
                assert(init[i] == k);
            }
        }
    }
}

/// The names that a redirect passes on are distinct.
pub proof fn lemma_forwarded_names_distinct()
    ensures
        forwarded_names().no_duplicates(),
{
    reveal_strlit("host");
    reveal_strlit("accept-language");
    reveal_strlit("content-type");
    reveal_strlit("content-security-policy");
    reveal_strlit("x-content-type-options");
    reveal_strlit("x-frame-options");
    reveal_strlit("x-xss-protection");
    reveal_strlit("cookie");
    reveal_strlit("set-cookie");
    let f = forwarded_names();
    assert(f[1][0] != f[5][0]);
    assert forall|i: int, j: int| 0 <= i < f.len() && 0 <= j < f.len() && i != j implies f[i] != f[j] by {
        if i == 1 && j == 5 || i == 5 && j == 1 {
            assert(f[1][0] != f[5][0]);
        } else {
            assert(f[i].len() != f[j].len());
        }
    }
}

/// A request's `host` header whose first value reads as text reaches a
/// response that has none, as its only value.
pub proof fn lemma_forward_host(resp: HeaderValues, req: HeaderValues)
    requires
        first_of(req, "host"@) is Some,
        is_text_value(first_of(req, "host"@)->Some_0),
        !resp.contains_key("host"@),
    ensures
        forward_all(resp, req, forwarded_names()).contains_key("host"@),
        forward_all(resp, req, forwarded_names())["host"@] == seq![first_of(req, "host"@)->Some_0],
{
    lemma_forwarded_names_distinct();
    assert(forwarded_names()[0] == "host"@);
    lemma_forward_rule(resp, req, forwarded_names(), "host"@);
}

/// The header names that a redirect passes on.
pub fn forwarded_header_names() -> (r: Vec<&'static str>)
    ensures
        r@.len() == forwarded_names().len(),
        forall|i: int| 0 <= i < r@.len() ==> (#[trigger] r@[i])@ == forwarded_names()[i],
        forall|i: int| 0 <= i < r@.len() ==> is_header_name((#[trigger] r@[i])@),
{
    let r = vec![
        "host",
        "accept-language",
        "content-type",
        "content-security-policy",
        "x-content-type-options",
        "x-frame-options",
        "x-xss-protection",
        "cookie",
        "set-cookie",
    ];
    proof {
        reveal_strlit("host");
        reveal_strlit("accept-language");
        reveal_strlit("content-type");
        reveal_strlit("content-security-policy");
        reveal_strlit("x-content-type-options");
        reveal_strlit("x-frame-options");
        reveal_strlit("x-xss-protection");
        reveal_strlit("cookie");
        reveal_strlit("set-cookie");
    }
    r
}

fn is_text(v: &Vec<u8>) -> (r: bool)
    ensures
        r == is_text_value(v@),
{
    let mut i: usize = 0;
    while i < v.len()
        invariant
            i <= v@.len(),
            forall|j: int| 0 <= j < i ==> is_visible_ascii(#[trigger] v@[j]),
        decreases v@.len() - i,
    {
        let b = v[i];
        if !((32 <= b && b < 127) || b == 9) {
            return false;
        }
        i = i + 1;
    }
    true
}

/// Copies the forwarded headers from a request onto a response. A header is
/// copied when the request's first value under it reads as text and the
/// response does not hold it yet: what the response already holds wins.
pub fn forward_headers(resp: &mut HeaderMap, request_headers: &HeaderMap)
    requires
        header_count(*old(resp)) + forwarded_names().len() <= HEADER_LIMIT,
    ensures
        header_entries(*final(resp)) == forward_all(
            header_entries(*old(resp)),
            header_entries(*request_headers),
            forwarded_names(),
        ),
        header_count(*final(resp)) == header_count(*old(resp)) + forward_added(
            header_entries(*old(resp)),
            header_entries(*request_headers),
            forwarded_names(),
        ),
        header_len(*final(resp)) == header_len(*old(resp)) + forward_added(
            header_entries(*old(resp)),
            header_entries(*request_headers),
            forwarded_names(),
        ),
{
    let names = forwarded_header_names();
    let ghost resp0 = header_entries(*resp);
    let ghost count0 = header_count(*resp);
    let ghost len0 = header_len(*resp);
    let ghost req = header_entries(*request_headers);
    let mut k: usize = 0;
    while k < names.len()
        invariant
            req == header_entries(*request_headers),
            k <= names@.len(),
            names@.len() == forwarded_names().len(),
            forall|i: int| 0 <= i < names@.len() ==> (#[trigger] names@[i])@ == forwarded_names()[i],
            forall|i: int| 0 <= i < names@.len() ==> is_header_name((#[trigger] names@[i])@),
            header_entries(*resp) == forward_all(resp0, req, forwarded_names().take(k as int)),
            header_count(*resp) == count0 + forward_added(resp0, req, forwarded_names().take(k as int)),
            header_len(*resp) == len0 + forward_added(resp0, req, forwarded_names().take(k as int)),
            forward_added(resp0, req, forwarded_names().take(k as int)) <= k,
            count0 + forwarded_names().len() <= HEADER_LIMIT,
        decreases names@.len() - k,
    {
        let name = names[k];
        assert(is_header_name(names@[k as int]@));
        assert(forwarded_names().take(k + 1).drop_last() =~= forwarded_names().take(k as int));
        assert(forwarded_names().take(k + 1).last() == name@);
        if let Some(value) = first_value(request_headers, name) {
            if is_text(&value) && first_value(resp, name).is_none() {
                set_header(resp, name, &value);
            }
        }
        k = k + 1;
    }
    assert(forwarded_names().take(names@.len() as int) =~= forwarded_names());
}

} // verus!

//! The link use cases: create, get, list and redirect. Each is built from
//! decisions that do not depend on where links are stored, so that any store
//! can be put behind them; the `LinkTable` versions run them against the
//! in-memory store.
use vstd::prelude::*;
use crate::error::{Error, ErrorKind};
use axum::http::HeaderMap;
use crate::headers::{
    forward_added, forward_all, forward_headers, forwarded_names, header_entries, header_len,
    new_header_map,
};
use crate::hosts::{hosts_match, hosts_match_spec};
use crate::link::{short_code_of, valid_id, Link, Timestamp, ID_LENGTH, ID_SEED, ID_SPACE};
use crate::store::{find_spec, has_id, ids_unique, index_of_id, redirected, LinkTable, StoreError};
use crate::target::{parse_url, query_set, url_parse, url_with_query, MAX_URL_CHARS};

verus! {

/// The status with which a redirect is answered.
pub const REDIRECT_STATUS: u16 = 307;

/// The caching policy sent with every redirect.
pub open spec fn cache_control_spec() -> Seq<char> {
    "public, max-age=300, s-maxage=300, stale-while-revalidate=300, stale-if-error=300"@
}

pub fn cache_control_value() -> (r: &'static str)
    ensures
        r@ == cache_control_spec(),
{
    "public, max-age=300, s-maxage=300, stale-while-revalidate=300, stale-if-error=300"
}

/// The answer to a redirect request.
#[derive(Debug)]
pub struct Redirect {
    /// Where the client is sent.
    pub location: String,
    /// The caching policy of the answer.
    pub cache_control: String,
    /// Headers passed on from the request.
    pub headers: HeaderMap,
}

/// A result as the text of its value or the view of its error.
pub open spec fn text_result(r: Result<String, Error>) -> Result<Seq<char>, (ErrorKind, Seq<char>)> {
    match r {
        Ok(s) => Ok(s@),
        Err(e) => Err(e.view()),
    }
}

/// What a target URL that a client submits becomes: its serialization, or
/// the reason it is refused.
pub open spec fn target_check(target_url: Seq<char>, request_host: Seq<char>) -> Result<
    Seq<char>,
    (ErrorKind, Seq<char>),
> {
    match url_parse(target_url) {
        Err(m) => Err((ErrorKind::MalformedURL, m)),
        Ok((serialized, host)) => match host {
            None => Err((ErrorKind::URLWithoutHost, serialized)),
            Some(h) => if hosts_match_spec(request_host, h) {
                Err((ErrorKind::URLWithMatchingHosts, request_host))
            } else {
                Ok(serialized)
            },
        },
    }
}

/// Checks a target URL that a client submits, from a request to
/// `request_host`, and returns its serialization.
pub fn check_target(target_url: &str, request_host: &str) -> (r: Result<String, Error>)
    ensures
        text_result(r) == target_check(target_url@, request_host@),
{
    let parsed = match parse_url(target_url) {
        Ok(p) => p,
        Err(m) => return Err(Error::MalformedURL(m)),
    };
    match parsed.host {
        None => Err(Error::URLWithoutHost(parsed.serialized)),
        Some(h) => {
            if hosts_match(request_host, h.as_str()) {
                Err(Error::URLWithMatchingHosts(String::from_str(request_host)))
            } else {
                Ok(parsed.serialized)
            }
        },
    }
}

/// `id` is the code of a draw below `ID_SPACE`, `ID_LENGTH` characters long.
pub open spec fn generated_id(id: Seq<char>) -> bool {
    &&& id.len() == ID_LENGTH
    &&& exists|n: u64| n < ID_SPACE && #[trigger] short_code_of(ID_SEED, ID_LENGTH, n) == id
}

/// The identifier that a new link gets: the caller's, once validated, or a
/// generated one.
pub fn prepare_id(custom_id: Option<String>) -> (r: Result<String, Error>)
    ensures
        custom_id is Some && valid_id(custom_id->Some_0@) ==> r == Ok::<String, Error>(
            custom_id->Some_0,
        ),
        custom_id is Some && !valid_id(custom_id->Some_0@) ==> r is Err && r->Err_0.view() == (
            ErrorKind::LinkIdNotValid,
            custom_id->Some_0@,
        ),
        custom_id is None ==> (r is Ok ==> valid_id(r->Ok_0@)),
        custom_id is None ==> (r is Ok ==> generated_id(r->Ok_0@)),
        custom_id is None ==> (r is Err ==> r->Err_0.view().0 == ErrorKind::Internal),
{
    match custom_id {
        Some(id) => {
            if Link::validate_id(id.as_str()) {
                Ok(id)
            } else {
                Err(Error::LinkIdNotValid(id))
            }
        },
        None => Link::generate_id(),
    }
}

/// The error that a failed store operation is reported as.
pub fn store_error(e: StoreError) -> (r: Error)
    ensures
        r.view().0 == ErrorKind::Internal,
{
    match e {
        StoreError::Timeout => Error::Internal(String::from_str("the link store timed out")),
        StoreError::DuplicateIdentifier => Error::Internal(
            String::from_str("a generated link ID is already in use"),
        ),
        StoreError::Failure(m) => Error::Internal(m),
    }
}

/// What an insertion's outcome is reported as: a taken identifier that the
/// caller chose is the caller's to correct; every other failure is internal.
pub fn insert_outcome(custom_id: Option<String>, outcome: Result<Link, StoreError>) -> (r: Result<
    Link,
    Error,
>)
    ensures
        outcome is Ok ==> r == Ok::<Link, Error>(outcome->Ok_0),
        outcome is Err && outcome->Err_0 is DuplicateIdentifier && custom_id is Some ==> r is Err
            && r->Err_0.view() == (ErrorKind::LinkIdNotUnique, custom_id->Some_0@),
        outcome is Err && !(outcome->Err_0 is DuplicateIdentifier && custom_id is Some) ==> r is Err
            && r->Err_0.view().0 == ErrorKind::Internal,
{
    match outcome {
        Ok(link) => Ok(link),
        Err(StoreError::DuplicateIdentifier) => match custom_id {
            Some(id) => Err(Error::LinkIdNotUnique(id)),
            None => Err(store_error(StoreError::DuplicateIdentifier)),
        },
        Err(e) => Err(store_error(e)),
    }
}

/// What a lookup by identifier is reported as: absence is `LinkNotFound`.
pub fn found_or_not_found(id: String, found: Option<Link>) -> (r: Result<Link, Error>)
    ensures
        found is Some ==> r == Ok::<Link, Error>(found->Some_0),
        found is None ==> r is Err && r->Err_0.view() == (ErrorKind::LinkNotFound, id@),
{
    match found {
        Some(link) => Ok(link),
        None => Err(Error::LinkNotFound(id)),
    }
}

/// Where a redirect to the stored target `target_url` sends the client:
/// the target reparsed, with its query replaced by the request's query when
/// there is one; `None` where the stored target no longer parses.
pub open spec fn location_spec(target_url: Seq<char>, raw_query: Option<String>) -> Option<Seq<char>> {
    match url_parse(target_url) {
        Err(_) => None,
        Ok((serialized, _)) => match raw_query {
            None => Some(serialized),
            Some(q) => if target_url.len() + q@.len() <= MAX_URL_CHARS {
                Some(query_set(target_url, q@))
            } else {
                None
            },
        },
    }
}

/// Builds the redirect target of a link. A stored target that no longer
/// parses is an internal error.
pub fn forward_query_params(link: &Link, raw_query: Option<String>) -> (r: Result<String, Error>)
    ensures
        location_spec(link.target_url@, raw_query) is Some ==> r is Ok && r->Ok_0@ == location_spec(
            link.target_url@,
            raw_query,
        )->Some_0,
        location_spec(link.target_url@, raw_query) is None ==> r is Err && r->Err_0.view().0
            == ErrorKind::Internal,
{
    let target = link.target_url.as_str();
    let parsed = parse_url(target);
    if parsed.is_err() {
        return Err(Error::Internal(String::from_str("invalid URL stored for a link")));
    }
    match raw_query {
        None => match parsed {
            Ok(p) => Ok(p.serialized),
            Err(m) => Err(Error::Internal(m)),
        },
        Some(q) => {
            let t = target.unicode_len();
            let n = q.as_str().unicode_len();
            if t > MAX_URL_CHARS || n > MAX_URL_CHARS - t {
                return Err(Error::Internal(String::from_str("redirect target too long")));
            }
            match url_with_query(target, q.as_str()) {
                Some(s) => Ok(s),
                None => Err(Error::Internal(String::from_str("invalid URL stored for a link"))),
            }
        },
    }
}

/// `r` is the answer to a redirect to `link`.
pub open spec fn redirect_matches(
    link: Link,
    raw_query: Option<String>,
    request_headers: HeaderMap,
    r: Result<Redirect, Error>,
) -> bool {
    match location_spec(link.target_url@, raw_query) {
        Some(loc) => {
            &&& r is Ok
            &&& r->Ok_0.location@ == loc
            &&& r->Ok_0.cache_control@ == cache_control_spec()
            &&& header_entries(r->Ok_0.headers) == forward_all(
                Map::empty(),
                header_entries(request_headers),
                forwarded_names(),
            )
            &&& header_len(r->Ok_0.headers) == forward_added(
                Map::empty(),
                header_entries(request_headers),
                forwarded_names(),
            )
        },
        None => r is Err && r->Err_0.view().0 == ErrorKind::Internal,
    }
}

/// Builds the answer to a redirect to `link`: its target, the caching
/// policy, and the headers passed on from the request.
pub fn redirect_response(link: &Link, raw_query: Option<String>, request_headers: &HeaderMap) -> (r:
    Result<Redirect, Error>)
    ensures
        redirect_matches(*link, raw_query, *request_headers, r),
{
    let location = forward_query_params(link, raw_query)?;
    let mut headers = new_header_map();
    assert(header_entries(headers) =~= Map::empty());
    forward_headers(&mut headers, request_headers);
    Ok(Redirect { location, cache_control: String::from_str(cache_control_value()), headers })
}

/// `l` is a new link for `target_url`, made at `now`.
pub open spec fn is_fresh(l: Link, target_url: Seq<char>, now: Timestamp) -> bool {
    &&& l.target_url@ == target_url
    &&& l.count_redirects == 0
    &&& l.created_at == now
    &&& l.updated_at == now
}

/// The effect of `create_link` on a table holding `before`.
pub open spec fn create_link_post(
    before: Seq<Link>,
    after: Seq<Link>,
    link_id: Option<String>,
    target_url: Seq<char>,
    now: Timestamp,
    r: Result<Link, Error>,
) -> bool {
    match link_id {
        Some(id) => if !valid_id(id@) {
            r is Err && r->Err_0.view() == (ErrorKind::LinkIdNotValid, id@) && after == before
        } else if has_id(before, id@) {
            r is Err && r->Err_0.view() == (ErrorKind::LinkIdNotUnique, id@) && after == before
        } else {
            r is Ok && r->Ok_0.id == id && is_fresh(r->Ok_0, target_url, now) && after
                == before.push(r->Ok_0)
        },
        None => match r {
            Ok(l) => valid_id(l.id@) && generated_id(l.id@) && !has_id(before, l.id@) && is_fresh(l, target_url, now)
                && after == before.push(l),
            Err(e) => e.view().0 == ErrorKind::Internal && after == before,
        },
    }
}

/// Stores a new link for `link_target`, under the caller's identifier when
/// one is given, else under a generated one.
pub fn create_link(table: &mut LinkTable, link_id: Option<String>, link_target: String, now: Timestamp) -> (r: Result<Link, Error>)
    requires
        old(table).wf(),
    ensures
        final(table).wf(),
        create_link_post(old(table).view(), final(table).view(), link_id, link_target@, now, r),
{
    let id = prepare_id(link_id.clone())?;
    let inserted = table.insert(id, link_target, now);
    insert_outcome(link_id, inserted)
}

/// The effect of `create_new_link` on a table holding `before`.
pub open spec fn create_new_link_post(
    before: Seq<Link>,
    after: Seq<Link>,
    request_host: Seq<char>,
    target_url: Seq<char>,
    custom_id: Option<String>,
    now: Timestamp,
    r: Result<Link, Error>,
) -> bool {
    match target_check(target_url, request_host) {
        Err(e) => r is Err && r->Err_0.view() == e && after == before,
        Ok(serialized) => create_link_post(before, after, custom_id, serialized, now, r),
    }
}

/// Creates a link from a client's request to `request_host`: the target is
/// checked first, then the identifier, and nothing is stored on failure.
pub fn create_new_link(
    table: &mut LinkTable,
    request_host: &str,
    target_url: &str,
    custom_id: Option<String>,
    now: Timestamp,
) -> (r: Result<Link, Error>)
    requires
        old(table).wf(),
    ensures
        final(table).wf(),
        create_new_link_post(old(table).view(), final(table).view(), request_host@, target_url@, custom_id, now, r),
{
    let serialized = check_target(target_url, request_host)?;
    create_link(table, custom_id, serialized, now)
}

/// The link with the given identifier.
pub fn get_specific_link(table: &LinkTable, link_id: String) -> (r: Result<Link, Error>)
    requires
        table.wf(),
    ensures
        has_id(table.view(), link_id@) ==> r == Ok::<Link, Error>(
            table.view()[index_of_id(table.view(), link_id@)],
        ),
        !has_id(table.view(), link_id@) ==> r is Err && r->Err_0.view() == (
            ErrorKind::LinkNotFound,
            link_id@,
        ),
{
    let found = table.find_by_id(link_id.as_str());
    found_or_not_found(link_id, found)
}

/// Every stored link.
pub fn list_links(table: &LinkTable) -> (r: Vec<Link>)
    ensures
        r@ == table.view(),
{
    table.list_all()
}

/// The effect of `redirect_links` on a table holding `before`.
pub open spec fn redirect_post(
    before: Seq<Link>,
    after: Seq<Link>,
    link_id: Seq<char>,
    raw_query: Option<String>,
    request_headers: HeaderMap,
    now: Timestamp,
    r: Result<Redirect, Error>,
) -> bool {
    if !has_id(before, link_id) {
        r is Err && r->Err_0.view() == (ErrorKind::LinkNotFound, link_id) && after == before
    } else {
        let i = index_of_id(before, link_id);
        let l = before[i];
        if l.count_redirects == i64::MAX {
            r is Err && r->Err_0.view().0 == ErrorKind::Internal && after == before
        } else {
            after == before.update(i, redirected(l, now)) && redirect_matches(
                redirected(l, now),
                raw_query,
                request_headers,
                r,
            )
        }
    }
}

/// Resolves a redirect: counts it on the link, then answers with the
/// link's target and the headers passed on from the request.
pub fn redirect_links(
    table: &mut LinkTable,
    link_id: String,
    raw_query: Option<String>,
    request_headers: &HeaderMap,
    now: Timestamp,
) -> (r: Result<Redirect, Error>)
    requires
        old(table).wf(),
    ensures
        final(table).wf(),
        redirect_post(old(table).view(), final(table).view(), link_id@, raw_query, *request_headers, now, r),
{
    let link = match table.increment_redirect_count(link_id.as_str(), now) {
        Ok(Some(link)) => link,
        Ok(None) => return Err(Error::LinkNotFound(link_id)),
        Err(e) => return Err(store_error(e)),
    };
    redirect_response(&link, raw_query, request_headers)
}

} // verus!

verus! {

/// Once a link is created under a caller-chosen identifier, creating
/// another link under the same identifier fails with `LinkIdNotUnique`.
pub proof fn lemma_custom_id_taken(
    t0: Seq<Link>,
    t1: Seq<Link>,
    t2: Seq<Link>,
    first_id: String,
    second_id: String,
    first_target: Seq<char>,
    second_target: Seq<char>,
    first_now: Timestamp,
    second_now: Timestamp,
    r1: Result<Link, Error>,
    r2: Result<Link, Error>,
)
    requires
        first_id@ == second_id@,
        create_link_post(t0, t1, Some(first_id), first_target, first_now, r1),
        r1 is Ok,
        create_link_post(t1, t2, Some(second_id), second_target, second_now, r2),
    ensures
        r2 is Err,
        r2->Err_0.view() == (ErrorKind::LinkIdNotUnique, second_id@),
        t2 == t1,
{
    assert(t1[t1.len() - 1] == r1->Ok_0);
    assert(has_id(t1, second_id@));
}

/// A redirect to an unknown identifier fails with `LinkNotFound` and changes
/// nothing. A successful one adds exactly one to the link's redirect count,
/// leaves its identifier and target as they were, and sends the client to
/// the stored target with the request's query in place of its own.
pub proof fn lemma_redirect_counts_once(
    before: Seq<Link>,
    after: Seq<Link>,
    link_id: Seq<char>,
    raw_query: Option<String>,
    request_headers: HeaderMap,
    now: Timestamp,
    r: Result<Redirect, Error>,
)
    requires
        ids_unique(before),
        redirect_post(before, after, link_id, raw_query, request_headers, now, r),
    ensures
        !has_id(before, link_id) ==> r is Err && r->Err_0.view().0 == ErrorKind::LinkNotFound
            && after == before,
        r is Ok ==> {
            let old_link = find_spec(before, link_id)->Some_0;
            let new_link = find_spec(after, link_id)->Some_0;
            &&& has_id(before, link_id)
            &&& has_id(after, link_id)
            &&& new_link.count_redirects == old_link.count_redirects + 1
            &&& new_link.id == old_link.id
            &&& new_link.target_url == old_link.target_url
            &&& raw_query is Some && old_link.target_url@.len() + raw_query->Some_0@.len()
                <= MAX_URL_CHARS ==> r->Ok_0.location@ == query_set(
                old_link.target_url@,
                raw_query->Some_0@,
            )
        },
{
    if r is Ok {
        let i = index_of_id(before, link_id);
        let l = before[i];
        assert(after[i] == redirected(l, now));
        assert(after[i].id@ == link_id);
        assert(has_id(after, link_id));
        let k = index_of_id(after, link_id);
        if k != i {
            assert(after[k] == before[k]);
            assert(before[k].id@ == before[i].id@);
        }
    }
}

/// Listing a table twice, with no change to it in between, gives the same
/// links in the same order.
pub proof fn lemma_list_repeatable(table: LinkTable, first: Seq<Link>, second: Seq<Link>)
    requires
        first == table.view(),
        second == table.view(),
    ensures
        first == second,
{
}

} // verus!

verus! {

/// A redirect to a stored link whose count can still grow and whose target
/// still parses succeeds: it is answered with status 307, sends the client
/// to the target as `forward_query_params` builds it (the request's query in
/// place of the stored one), and adds exactly one to the link's count.
pub proof fn lemma_redirect_succeeds(
    before: Seq<Link>,
    after: Seq<Link>,
    link_id: Seq<char>,
    raw_query: Option<String>,
    request_headers: HeaderMap,
    now: Timestamp,
    r: Result<Redirect, Error>,
)
    requires
        ids_unique(before),
        redirect_post(before, after, link_id, raw_query, request_headers, now, r),
        has_id(before, link_id),
        find_spec(before, link_id)->Some_0.count_redirects < i64::MAX,
        location_spec(find_spec(before, link_id)->Some_0.target_url@, raw_query) is Some,
    ensures
        r is Ok,
        REDIRECT_STATUS == 307,
        r->Ok_0.location@ == location_spec(find_spec(before, link_id)->Some_0.target_url@, raw_query)->Some_0,
        r->Ok_0.cache_control@ == cache_control_spec(),
        has_id(after, link_id),
        find_spec(after, link_id)->Some_0.count_redirects == find_spec(before, link_id)->Some_0.count_redirects + 1,
{
    lemma_redirect_counts_once(before, after, link_id, raw_query, request_headers, now, r);
}

} // verus!

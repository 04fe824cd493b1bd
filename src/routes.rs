//! The service's own routes. Their paths also fix the segments that a short
//! identifier may never take.
use vstd::prelude::*;
use crate::text::{count_leading, find_char, first_index, leading_count};

verus! {

/// A route of the HTTP layer.
#[derive(Debug, Clone, Copy, PartialEq, Eq, Structural)]
pub enum Route {
    Health,
    Metrics,
    Docs,
    LinkRedirect,
    Links,
    LinkGet,
}

/// The path under which each route is served.
pub open spec fn route_path(r: Route) -> Seq<char> {
    match r {
        Route::Health => "/health"@,
        Route::Metrics => "/metrics"@,
        Route::Docs => "/docs"@,
        Route::LinkRedirect => "/{link_id}"@,
        Route::Links => "/links"@,
        Route::LinkGet => "/links/{link_id}"@,
    }
}

/// The first segment of a path: leading separators dropped, then everything
/// up to the next separator.
pub open spec fn segment_of(p: Seq<char>) -> Seq<char> {
    let rest = p.subrange(leading_count(p, '/'), p.len() as int);
    rest.subrange(0, first_index(rest, '/'))
}

/// The segment that a route reserves.
pub open spec fn route_segment(r: Route) -> Seq<char> {
    segment_of(route_path(r))
}

/// Every route, in the order in which they are declared.
pub open spec fn all_routes_spec() -> Seq<Route> {
    seq![
        Route::Health,
        Route::Metrics,
        Route::Docs,
        Route::LinkRedirect,
        Route::Links,
        Route::LinkGet,
    ]
}

impl Route {
    pub fn as_str(&self) -> (r: &'static str)
        ensures
            r@ == route_path(*self),
    {
        match self {
            Route::Health => "/health",
            Route::Metrics => "/metrics",
            Route::Docs => "/docs",
            Route::LinkRedirect => "/{link_id}",
            Route::Links => "/links",
            Route::LinkGet => "/links/{link_id}",
        }
    }

    /// Every route; each variant appears exactly once.
    pub fn all() -> (r: Vec<Route>)
        ensures
            r@ == all_routes_spec(),
            forall|x: Route| r@.contains(x),
    {
        let r = vec![
            Route::Health,
            Route::Metrics,
            Route::Docs,
            Route::LinkRedirect,
            Route::Links,
            Route::LinkGet,
        ];
        assert(r@ =~= all_routes_spec());
        assert forall|x: Route| r@.contains(x) by {
            match x {
                Route::Health => assert(r@[0] == x),
                Route::Metrics => assert(r@[1] == x),
                Route::Docs => assert(r@[2] == x),
                Route::LinkRedirect => assert(r@[3] == x),
                Route::Links => assert(r@[4] == x),
                Route::LinkGet => assert(r@[5] == x),
            }
        }
        r
    }

    /// The segment of this route's path that no short identifier may take.
    pub fn reserved_segment(&self) -> (r: &'static str)
        ensures
            r@ == route_segment(*self),
    {
        let p = self.as_str();
        let start = count_leading(p, '/');
        let rest = p.substring_char(start, p.unicode_len());
        let end = find_char(rest, '/');
        rest.substring_char(0, end)
    }
}

} // verus!

verus! {

proof fn lemma_segment_of_simple_path(p: Seq<char>, segment: Seq<char>)
    requires
        p.len() == segment.len() + 1,
        p[0] == '/',
        p.subrange(1, p.len() as int) == segment,
        segment.len() > 0,
        segment[0] != '/',
        forall|j: int| 0 <= j < segment.len() ==> segment[j] != '/',
    ensures
        segment_of(p) == segment,
{
    crate::text::lemma_leading_count(p, '/', 1);
    crate::text::lemma_first_index(segment, '/', segment.len() as int);
    assert(segment.subrange(0, segment.len() as int) =~= segment);
}

/// The health, metrics, docs and links routes each reserve their own name.
pub proof fn lemma_api_segments_reserved()
    ensures
        route_segment(Route::Health) == "health"@,
        route_segment(Route::Metrics) == "metrics"@,
        route_segment(Route::Docs) == "docs"@,
        route_segment(Route::Links) == "links"@,
{
    reveal_strlit("/health");
    reveal_strlit("health");
    reveal_strlit("/metrics");
    reveal_strlit("metrics");
    reveal_strlit("/docs");
    reveal_strlit("docs");
    reveal_strlit("/links");
    reveal_strlit("links");
    assert("/health"@.subrange(1, 7) =~= "health"@);
    lemma_segment_of_simple_path("/health"@, "health"@);
    assert("/metrics"@.subrange(1, 8) =~= "metrics"@);
    lemma_segment_of_simple_path("/metrics"@, "metrics"@);
    assert("/docs"@.subrange(1, 5) =~= "docs"@);
    lemma_segment_of_simple_path("/docs"@, "docs"@);
    assert("/links"@.subrange(1, 6) =~= "links"@);
    lemma_segment_of_simple_path("/links"@, "links"@);
}

} // verus!

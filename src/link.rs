//! The link record, and the codec that generates and validates its short
//! identifier.
use vstd::prelude::*;
use crate::error::Error;
use crate::routes::{route_segment, Route};
use crate::text::{eq_ignore_case, str_eq_ignore_case};

verus! {

/// Seed of the mapping from random numbers to identifiers.
pub const ID_SEED: u128 = 1234;

/// Shortest length of a generated identifier.
pub const ID_LENGTH: u8 = 5;

/// How many numbers the identifier mapping sends to codes of exactly
/// `ID_LENGTH` characters: 62 to the power `ID_LENGTH`.
pub const ID_SPACE: u32 = 916_132_832;

/// How many candidates are drawn before generation gives up.
pub const ID_ATTEMPTS: usize = 5;

/// A point in time, in microseconds since the Unix epoch, without a time zone.
#[derive(Debug, Clone, Copy, PartialEq, Eq, Structural)]
pub struct Timestamp {
    pub micros: i64,
}

/// Relies on `chrono::Utc::now`: the current time, in microseconds.
#[verifier::external_body]
fn current_micros() -> (r: i64) {
    chrono::Utc::now().naive_utc().and_utc().timestamp_micros()
}

/// A shortened link.
#[derive(Debug, Clone, PartialEq, Eq)]
pub struct Link {
    /// ID of the shortened link.
    pub id: String,
    /// URL that the shortened link redirects to.
    pub target_url: String,
    /// Count of successful redirects to `target_url`.
    pub count_redirects: i64,
    /// Creation time.
    pub created_at: Timestamp,
    /// Last modification time.
    pub updated_at: Timestamp,
}

/// A character of the 62-symbol alphabet of identifiers.
pub open spec fn is_id_char(c: char) -> bool {
    ('0' <= c <= '9') || ('a' <= c <= 'z') || ('A' <= c <= 'Z')
}

/// `s` equals, up to ASCII case, a segment that a route reserves.
pub open spec fn is_reserved(s: Seq<char>) -> bool {
    exists|r: Route| eq_ignore_case(s, #[trigger] route_segment(r))
}

/// What makes a short identifier acceptable.
pub open spec fn valid_id(s: Seq<char>) -> bool {
    &&& s.len() > 0
    &&& forall|i: int| 0 <= i < s.len() ==> is_id_char(#[trigger] s[i])
    &&& !is_reserved(s)
}

/// What the identifier mapping makes of `n` under a seed and a minimum length.
pub uninterp spec fn short_code_of(seed: u128, min_length: u8, n: u64) -> Seq<char>;

/// 62, the size of the identifier alphabet, to the power `k`.
pub open spec fn alphabet_power(k: nat) -> int
    decreases k,
{
    if k == 0 {
        1
    } else {
        62 * alphabet_power((k - 1) as nat)
    }
}

proof fn lemma_id_space()
    ensures
        ID_SPACE as int == alphabet_power(ID_LENGTH as nat),
{
    reveal_with_fuel(alphabet_power, 6);
}

/// Relies on `rand::random_range`: a uniformly drawn number below `bound`.
#[verifier::external_body]
fn random_below(bound: u32) -> (r: u32)
    requires
        bound > 0,
    ensures
        r < bound,
{
    rand::random_range(0..bound)
}

/// Relies on `block_id::BlockId::encode_string` over the alphanumeric
/// alphabet: a code for `n`, made of at least `min_length` characters of that
/// alphabet, and exactly `min_length` of them when `n` has at most that many
/// base-62 digits. The mapping is one-to-one (`BlockId::decode` inverts it),
/// and every step succeeds on digits of this alphabet.
#[verifier::external_body]
fn encode_short_code(seed: u128, min_length: u8, n: u64) -> (r: Option<String>)
    ensures
        r is Some,
        r->Some_0@ == short_code_of(seed, min_length, n),
        r->Some_0@.len() >= min_length,
        n < alphabet_power(min_length as nat) ==> r->Some_0@.len() == min_length,
        forall|i: int| 0 <= i < r->Some_0@.len() ==> is_id_char(#[trigger] r->Some_0@[i]),
        forall|m: u64| #[trigger] short_code_of(seed, min_length, m) == r->Some_0@ ==> m == n,
{
    block_id::BlockId::new(block_id::Alphabet::alphanumeric(), seed, min_length).encode_string(n)
}

/// `r` is what the draw `n` gives: the code of `n` when that code is a
/// valid identifier, else nothing. A draw below `ID_SPACE` gives exactly
/// `ID_LENGTH` characters, and no other draw gives the same code.
pub open spec fn id_from_draw_post(n: u64, r: Option<String>) -> bool {
    &&& r is Some <==> valid_id(short_code_of(ID_SEED, ID_LENGTH, n))
    &&& r is Some ==> r->Some_0@ == short_code_of(ID_SEED, ID_LENGTH, n)
    &&& r is Some && n < ID_SPACE ==> r->Some_0@.len() == ID_LENGTH
    &&& r is Some ==> forall|m: u64|
        #[trigger] short_code_of(ID_SEED, ID_LENGTH, m) == r->Some_0@ ==> m == n
}

impl Link {
    /// A new link for `target_url`, created now, with no redirects yet. It
    /// takes `id` when one is given, else a generated identifier.
    pub fn new(id: Option<String>, target_url: String) -> (r: Result<Link, Error>)
        ensures
            id is Some ==> r is Ok && r->Ok_0.id == id->Some_0,
            id is None && r is Ok ==> valid_id(r->Ok_0.id@),
            id is None && r is Ok ==> r->Ok_0.id@.len() == ID_LENGTH,
            id is None && r is Ok ==> exists|n: u64|
                n < ID_SPACE && #[trigger] short_code_of(ID_SEED, ID_LENGTH, n) == r->Ok_0.id@,
            id is None && r is Err ==> r->Err_0 is Internal,
            r is Ok ==> r->Ok_0.target_url == target_url,
            r is Ok ==> r->Ok_0.count_redirects == 0,
            r is Ok ==> r->Ok_0.created_at == r->Ok_0.updated_at,
    {
        let id = match id {
            Some(id) => id,
            None => Link::generate_id()?,
        };
        let now = Timestamp { micros: current_micros() };
        Ok(Link { id, target_url, count_redirects: 0, created_at: now, updated_at: now })
    }

    /// Decides whether `id` may be used as a short identifier.
    pub fn validate_id(id: &str) -> (r: bool)
        ensures
            r == valid_id(id@),
    {
        let n = id.unicode_len();
        if n == 0 {
            return false;
        }
        let mut i: usize = 0;
        while i < n
            invariant
                n == id@.len(),
                i <= n,
                forall|j: int| 0 <= j < i ==> is_id_char(#[trigger] id@[j]),
            decreases n - i,
        {
            let c = id.get_char(i);
            if !(('0' <= c && c <= '9') || ('a' <= c && c <= 'z') || ('A' <= c && c <= 'Z')) {
                return false;
            }
            i = i + 1;
        }
        let routes = Route::all();
        let mut k: usize = 0;
        while k < routes.len()
            invariant
                forall|x: Route| routes@.contains(x),
                k <= routes@.len(),
                forall|j: int| 0 <= j < k ==> !eq_ignore_case(id@, route_segment(#[trigger] routes@[j])),
            decreases routes@.len() - k,
        {
            if str_eq_ignore_case(id, routes[k].reserved_segment()) {
                return false;
            }
            k = k + 1;
        }
        assert forall|x: Route| !eq_ignore_case(id@, #[trigger] route_segment(x)) by {
            let j = routes@.index_of(x);
            assert(routes@[j] == x);
        }
        true
    }

    /// The identifier that the draw `n` stands for, or `None` when its code
    /// is not a valid identifier.
    pub fn id_from_draw(n: u64) -> (r: Option<String>)
        ensures
            id_from_draw_post(n, r),
    {
        let code = encode_short_code(ID_SEED, ID_LENGTH, n);
        proof {
            lemma_id_space();
        }
        match code {
            Some(id) => {
                if Link::validate_id(id.as_str()) {
                    Some(id)
                } else {
                    None
                }
            },
            None => None,
        }
    }

    /// The identifier of the first draw whose code is a valid identifier, or
    /// an internal error when no draw gives one.
    pub fn pick_id(draws: &Vec<u64>) -> (r: Result<String, Error>)
        ensures
            r is Ok <==> exists|k: int|
                0 <= k < draws@.len() && valid_id(#[trigger] short_code_of(ID_SEED, ID_LENGTH, draws@[k])),
            r is Ok ==> exists|k: int|
                0 <= k < draws@.len() && r->Ok_0@ == #[trigger] short_code_of(ID_SEED, ID_LENGTH, draws@[k])
                    && valid_id(r->Ok_0@) && forall|j: int|
                    0 <= j < k ==> !valid_id(#[trigger] short_code_of(ID_SEED, ID_LENGTH, draws@[j])),
            r is Ok && (forall|k: int| 0 <= k < draws@.len() ==> draws@[k] < ID_SPACE) ==> r->Ok_0@.len()
                == ID_LENGTH,
            r is Err ==> r->Err_0 is Internal,
    {
        let mut k: usize = 0;
        while k < draws.len()
            invariant
                k <= draws@.len(),
                forall|j: int|
                    0 <= j < k ==> !valid_id(#[trigger] short_code_of(ID_SEED, ID_LENGTH, draws@[j])),
            decreases draws@.len() - k,
        {
            if let Some(id) = Link::id_from_draw(draws[k]) {
                assert(id@ == short_code_of(ID_SEED, ID_LENGTH, draws@[k as int]));
                return Ok(id);
            }
            k = k + 1;
        }
        Err(Error::Internal(String::from_str("no valid short link ID could be generated")))
    }

    /// Draws a fresh short identifier: `ID_ATTEMPTS` numbers below `ID_SPACE`
    /// are drawn, and the first whose code is a valid identifier gives it.
    /// When none does, generation gives up with an internal error.
    pub fn generate_id() -> (r: Result<String, Error>)
        ensures
            r is Ok ==> valid_id(r->Ok_0@),
            r is Ok ==> r->Ok_0@.len() == ID_LENGTH,
            r is Ok ==> exists|n: u64| n < ID_SPACE && #[trigger] short_code_of(ID_SEED, ID_LENGTH, n) == r->Ok_0@,
            r is Err ==> r->Err_0 is Internal,
    {
        let mut draws: Vec<u64> = Vec::new();
        while draws.len() < ID_ATTEMPTS
            invariant
                draws@.len() <= ID_ATTEMPTS,
                forall|k: int| 0 <= k < draws@.len() ==> draws@[k] < ID_SPACE,
            decreases ID_ATTEMPTS - draws@.len(),
        {
            draws.push(random_below(ID_SPACE) as u64);
        }
        let r = Link::pick_id(&draws);
        if r.is_ok() {
            proof {
                let k = choose|k: int|
                    0 <= k < draws@.len() && r->Ok_0@ == #[trigger] short_code_of(ID_SEED, ID_LENGTH, draws@[k])
                        && valid_id(r->Ok_0@) && forall|j: int|
                        0 <= j < k ==> !valid_id(#[trigger] short_code_of(ID_SEED, ID_LENGTH, draws@[j]));
                assert(draws@[k] < ID_SPACE);
            }
        }
        r
    }
}

} // verus!

verus! {

/// Every non-empty string over the identifier alphabet that equals no
/// reserved segment, in any letter case, is a valid identifier.
pub proof fn lemma_alphanumeric_unreserved_is_valid(s: Seq<char>)
    requires
        s.len() >= 1,
        forall|i: int| 0 <= i < s.len() ==> is_id_char(#[trigger] s[i]),
        !is_reserved(s),
    ensures
        valid_id(s),
{
}

/// A string holding a character outside the identifier alphabet, or equal
/// to a reserved segment in any letter case, is never a valid identifier.
pub proof fn lemma_foreign_or_reserved_is_invalid(s: Seq<char>)
    requires
        (exists|i: int| 0 <= i < s.len() && !is_id_char(#[trigger] s[i])) || is_reserved(s),
    ensures
        !valid_id(s),
{
}

/// A draw always gives the same identifier, and two different draws never
/// give the same identifier.
pub proof fn lemma_draws_map_one_to_one(n1: u64, n2: u64, r1: Option<String>, r2: Option<String>)
    requires
        id_from_draw_post(n1, r1),
        id_from_draw_post(n2, r2),
    ensures
        n1 == n2 ==> r1 is Some == r2 is Some,
        n1 == n2 && r1 is Some ==> r1->Some_0@ == r2->Some_0@,
        r1 is Some && r2 is Some ==> (r1->Some_0@ == r2->Some_0@ <==> n1 == n2),
{
    if r1 is Some && r2 is Some && r1->Some_0@ == r2->Some_0@ {
        assert(short_code_of(ID_SEED, ID_LENGTH, n2) == r1->Some_0@);
    }
}

/// The names of the service's own routes (health, metrics, docs, links) are
/// never valid identifiers, in any letter case.
pub proof fn lemma_route_names_are_not_ids(s: Seq<char>)
    requires
        eq_ignore_case(s, "health"@) || eq_ignore_case(s, "metrics"@) || eq_ignore_case(s, "docs"@)
            || eq_ignore_case(s, "links"@),
    ensures
        !valid_id(s),
{
    crate::routes::lemma_api_segments_reserved();
    if eq_ignore_case(s, "health"@) {
        assert(eq_ignore_case(s, route_segment(Route::Health)));
    } else if eq_ignore_case(s, "metrics"@) {
        assert(eq_ignore_case(s, route_segment(Route::Metrics)));
    } else if eq_ignore_case(s, "docs"@) {
        assert(eq_ignore_case(s, route_segment(Route::Docs)));
    } else {
        assert(eq_ignore_case(s, route_segment(Route::Links)));
    }
}

} // verus!

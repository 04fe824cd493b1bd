//! Detection of target hosts that would send a redirect back into this
//! service.
use vstd::prelude::*;
use crate::text::{find_char, first_index, has_prefix, starts_with, str_eq};

verus! {

/// The host names that all refer to the local machine.
pub open spec fn loopback_aliases() -> Seq<Seq<char>> {
    seq!["0.0.0.0"@, "localhost"@, "127.0.0.1"@]
}

/// `h` starts with one of the loopback aliases.
pub open spec fn is_loopback(h: Seq<char>) -> bool {
    exists|i: int| 0 <= i < 3 && has_prefix(h, #[trigger] loopback_aliases()[i])
}

/// What follows the first `:` of a host, if it has one.
pub open spec fn port_of(h: Seq<char>) -> Option<Seq<char>> {
    let i = first_index(h, ':');
    if i < h.len() {
        Some(h.subrange(i + 1, h.len() as int))
    } else {
        None
    }
}

/// Two hosts match when they are equal, or when both are loopback aliases
/// with the same port or both without one.
pub open spec fn hosts_match_spec(request_host: Seq<char>, target_host: Seq<char>) -> bool {
    ||| request_host == target_host
    ||| is_loopback(request_host) && is_loopback(target_host) && port_of(request_host) == port_of(
        target_host,
    )
}

fn starts_with_loopback(h: &str) -> (r: bool)
    ensures
        r == is_loopback(h@),
{
    let a = starts_with(h, "0.0.0.0");
    let b = starts_with(h, "localhost");
    let c = starts_with(h, "127.0.0.1");
    assert(loopback_aliases()[0] == "0.0.0.0"@);
    assert(loopback_aliases()[1] == "localhost"@);
    assert(loopback_aliases()[2] == "127.0.0.1"@);
    if a || b || c {
        assert(a ==> has_prefix(h@, loopback_aliases()[0]));
        assert(b ==> has_prefix(h@, loopback_aliases()[1]));
        assert(c ==> has_prefix(h@, loopback_aliases()[2]));
    } else {
        assert forall|i: int| 0 <= i < 3 implies !has_prefix(h@, #[trigger] loopback_aliases()[i]) by {
            if i == 0 {
            } else if i == 1 {
            } else {
            }
        }
    }
    a || b || c
}

/// The port part of a host: what follows its first `:`.
fn port(h: &str) -> (r: Option<&str>)
    ensures
        r is Some <==> port_of(h@) is Some,
        r is Some ==> r->Some_0@ == port_of(h@)->Some_0,
{
    let n = h.unicode_len();
    let i = find_char(h, ':');
    if i < n {
        Some(h.substring_char(i + 1, n))
    } else {
        None
    }
}

/// Checks whether a target host would redirect back into the service that
/// serves `request_host`.
pub fn hosts_match(request_host: &str, target_host: &str) -> (r: bool)
    ensures
        r == hosts_match_spec(request_host@, target_host@),
{
    if str_eq(request_host, target_host) {
        return true;
    }
    if starts_with_loopback(target_host) && starts_with_loopback(request_host) {
        return match (port(target_host), port(request_host)) {
            (Some(t), Some(r)) => str_eq(t, r),
            (None, None) => true,
            _ => false,
        };
    }
    false
}

} // verus!

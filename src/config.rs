//! Application settings, and the reading of a host address from its
//! dotted text form.
use vstd::prelude::*;
use crate::text::{find_char, first_index};

verus! {

/// Settings of the application itself.
#[derive(Debug, Clone, Copy, PartialEq, Eq)]
pub struct AppConfig {
    /// The address the application listens on; `[0, 0, 0, 0]` by default.
    pub host: [u8; 4],
    /// The port the application listens on; 7229 by default.
    pub port: u16,
    /// Whether requests are rate-limited; only tests turn it off.
    pub shouldratelimit: bool,
}

impl Default for AppConfig {
    fn default() -> (r: Self)
        ensures
            r.host@ == seq![0u8, 0u8, 0u8, 0u8],
            r.port == 7229,
            r.shouldratelimit,
    {
        let r = AppConfig { host: [0, 0, 0, 0], port: 7229, shouldratelimit: true };
        assert(r.host@ =~= seq![0u8, 0u8, 0u8, 0u8]);
        r
    }
}

/// The pieces of `s` between occurrences of `c`.
pub open spec fn split_on(s: Seq<char>, c: char) -> Seq<Seq<char>>
    decreases s.len(),
{
    let i = first_index(s, c);
    if 0 <= i < s.len() {
        seq![s.subrange(0, i)] + split_on(s.subrange(i + 1, s.len() as int), c)
    } else {
        seq![s]
    }
}

pub open spec fn is_digit(c: char) -> bool {
    '0' <= c <= '9'
}

/// The number that a string of decimal digits stands for.
pub open spec fn digits_value(d: Seq<char>) -> int
    decreases d.len(),
{
    if d.len() == 0 {
        0
    } else {
        digits_value(d.drop_last()) * 10 + (d.last() as int - '0' as int)
    }
}

/// The byte that `s` writes in decimal, with an optional leading `+`.
pub open spec fn decimal_u8(s: Seq<char>) -> Option<int> {
    let d = if s.len() > 0 && s[0] == '+' {
        s.drop_first()
    } else {
        s
    };
    if d.len() > 0 && (forall|i: int| 0 <= i < d.len() ==> is_digit(#[trigger] d[i]))
        && digits_value(d) <= 255 {
        Some(digits_value(d))
    } else {
        None
    }
}

/// The message of the error that byte parsing gives for `s`.
pub uninterp spec fn u8_error_text(s: Seq<char>) -> Seq<char>;

/// Relies on `str::parse::<u8>` and the `Display` of its error.
#[verifier::external_body]
fn parse_u8(s: &str) -> (r: Result<u8, String>)
    ensures
        r is Ok <==> decimal_u8(s@) is Some,
        r is Ok ==> r->Ok_0 as int == decimal_u8(s@)->Some_0,
        r is Err ==> r->Err_0@ == u8_error_text(s@),
{
    s.parse::<u8>().map_err(|e| e.to_string())
}

pub open spec fn host_format_message() -> Seq<char> {
    "Invalid host -> value needs to be provided in the format '0.0.0.0', with 4 period-separated numbers between 0 and 255."@
}

pub open spec fn host_number_message(detail: Seq<char>) -> Seq<char> {
    "Invalid host -> error parsing one of the period-separated numbers for the host - ensure all values are within 0-255.\nError encountered: "@
        + detail
}

/// What a host text reads as: four bytes, or the reason it does not.
pub open spec fn host_spec(s: Seq<char>) -> Result<Seq<u8>, Seq<char>> {
    let parts = split_on(s, '.');
    if parts.len() != 4 {
        Err(host_format_message())
    } else if exists|i: int| 0 <= i < 4 && decimal_u8(#[trigger] parts[i]) is None {
        let i = choose|i: int| 0 <= i < 4 && decimal_u8(#[trigger] parts[i]) is None && forall|j: int|
            0 <= j < i ==> decimal_u8(#[trigger] parts[j]) is Some;
        Err(host_number_message(u8_error_text(parts[i])))
    } else {
        Ok(Seq::new(4, |i: int| decimal_u8(parts[i])->Some_0 as u8))
    }
}

/// Splits `s` at every `c`.
fn split_text(s: &str, c: char) -> (r: Vec<&str>)
    ensures
        r@.len() == split_on(s@, c).len(),
        forall|i: int| 0 <= i < r@.len() ==> (#[trigger] r@[i])@ == split_on(s@, c)[i],
{
    let mut parts: Vec<&str> = Vec::new();
    let mut rest: &str = s;
    let ghost mut done: Seq<Seq<char>> = Seq::empty();
    loop
        invariant
            parts@.len() == done.len(),
            forall|i: int| 0 <= i < parts@.len() ==> (#[trigger] parts@[i])@ == done[i],
            done + split_on(rest@, c) == split_on(s@, c),
        decreases rest@.len(),
    {
        let n = rest.unicode_len();
        let i = find_char(rest, c);
        if i == n {
            proof {
                assert(split_on(rest@, c) == seq![rest@]);
            }
            parts.push(rest);
            proof {
                done = done.push(rest@);
            }
            assert(done =~= split_on(s@, c));
            return parts;
        }
        let piece = rest.substring_char(0, i);
        let next = rest.substring_char(i + 1, n);
        proof {
            assert(split_on(rest@, c) == seq![piece@] + split_on(next@, c));
            assert(done.push(piece@) + split_on(next@, c) =~= done + split_on(rest@, c));
            done = done.push(piece@);
        }
        parts.push(piece);
        rest = next;
    }
}

/// Reads a host address written as four dot-separated decimal bytes.
pub fn parse_host(s: &str) -> (r: Result<[u8; 4], String>)
    ensures
        r is Ok <==> host_spec(s@) is Ok,
        r is Ok ==> r->Ok_0@ == host_spec(s@)->Ok_0,
        r is Err ==> r->Err_0@ == host_spec(s@)->Err_0,
{
    let parts = split_text(s, '.');
    let ghost sp = split_on(s@, '.');
    if parts.len() != 4 {
        return Err(String::from_str(
            "Invalid host -> value needs to be provided in the format '0.0.0.0', with 4 period-separated numbers between 0 and 255.",
        ));
    }
    let mut res: [u8; 4] = [0, 0, 0, 0];
    let mut i: usize = 0;
    while i < 4
        invariant
            parts@.len() == 4,
            sp == split_on(s@, '.'),
            sp.len() == 4,
            forall|k: int| 0 <= k < 4 ==> (#[trigger] parts@[k])@ == sp[k],
            i <= 4,
            forall|k: int| 0 <= k < i ==> decimal_u8(#[trigger] sp[k]) is Some,
            forall|k: int| 0 <= k < i ==> res@[k] as int == decimal_u8(#[trigger] sp[k])->Some_0,
        decreases 4 - i,
    {
        match parse_u8(parts[i]) {
            Ok(n) => {
                res.set(i, n);
            },
            Err(e) => {
                let mut m = String::from_str(
                    "Invalid host -> error parsing one of the period-separated numbers for the host - ensure all values are within 0-255.\nError encountered: ",
                );
                m.append(e.as_str());
                proof {
                    assert(decimal_u8(sp[i as int]) is None);
                    let j = choose|j: int| 0 <= j < 4 && decimal_u8(#[trigger] sp[j]) is None && forall|k: int|
                        0 <= k < j ==> decimal_u8(#[trigger] sp[k]) is Some;
                    assert(0 <= j < 4 && decimal_u8(sp[j]) is None && forall|k: int|
                        0 <= k < j ==> decimal_u8(#[trigger] sp[k]) is Some);
                    if j < i {
                        assert(decimal_u8(sp[j]) is Some);
                    } else if j > i {
                        assert(decimal_u8(sp[i as int]) is Some);
                    }
                }
                return Err(m);
            },
        }
        i = i + 1;
    }
    assert(res@ =~= host_spec(s@)->Ok_0);
    Ok(res)
}

} // verus!

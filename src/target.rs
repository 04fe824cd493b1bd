//! Target URLs, as far as the service reads them: the text a URL is
//! serialized to, and its host.
use vstd::prelude::*;

verus! {

/// A URL that parsed: its serialization and the text of its host, if any.
#[derive(Debug, Clone, PartialEq, Eq)]
pub struct ParsedUrl {
    pub serialized: String,
    pub host: Option<String>,
}

/// The text of an optional string.
pub open spec fn opt_text(o: Option<String>) -> Option<Seq<char>> {
    match o {
        Some(s) => Some(s@),
        None => None,
    }
}

impl ParsedUrl {
    pub open spec fn view(&self) -> (Seq<char>, Option<Seq<char>>) {
        (self.serialized@, opt_text(self.host))
    }
}

/// What URL parsing makes of a text: on success the serialization and the
/// host text, else the parser's error message.
pub uninterp spec fn url_parse(s: Seq<char>) -> Result<(Seq<char>, Option<Seq<char>>), Seq<char>>;

/// The serialization of the URL `url` once its query is replaced by `query`.
pub uninterp spec fn query_set(url: Seq<char>, query: Seq<char>) -> Seq<char>;

/// Longest text, in characters, that a URL operation here is handed. A
/// character serializes to at most 12 bytes when percent-encoded, and to a
/// few hundred at most through international domain name mapping (at most 18
/// characters after normalization, each punycode-encoded); 4096 bytes per
/// character keeps every serialization under the parser's 4 GiB limit.
pub const MAX_URL_CHARS: usize = 0x10_0000;

/// Relies on `url::Url::parse`, then the URL's `Display` and its host's
/// `Display`.
#[verifier::external_body]
pub(crate) fn parse_url(s: &str) -> (r: Result<ParsedUrl, String>)
    ensures
        r is Ok <==> url_parse(s@) is Ok,
        r is Ok ==> r->Ok_0.view() == url_parse(s@)->Ok_0,
        r is Err ==> r->Err_0@ == url_parse(s@)->Err_0,
{
    match url::Url::parse(s) {
        Ok(u) => Ok(ParsedUrl { serialized: u.to_string(), host: u.host().map(|h| h.to_string()) }),
        Err(e) => Err(e.to_string()),
    }
}

/// Relies on `url::Url::set_query` applied to the parsed `url`, then the
/// URL's `Display`; `None` where `url` does not parse.
#[verifier::external_body]
pub(crate) fn url_with_query(url: &str, query: &str) -> (r: Option<String>)
    requires
        url@.len() + query@.len() <= MAX_URL_CHARS,
    ensures
        r is Some <==> url_parse(url@) is Ok,
        r is Some ==> r->Some_0@ == query_set(url@, query@),
{
    match url::Url::parse(url) {
        Ok(mut u) => {
            u.set_query(Some(query));
            Some(u.to_string())
        },
        Err(_) => None,
    }
}

} // verus!

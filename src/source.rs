use vstd::prelude::*;

verus! {

/// The host that the URL parser reads from a URL's text, if it parses and has one.
pub uninterp spec fn url_host(url: Seq<char>) -> Option<Seq<char>>;

pub open spec fn opt_view(o: Option<String>) -> Option<Seq<char>> {
    match o {
        Some(s) => Some(s@),
        None => None,
    }
}

/// Relies on url::Url::parse and url::Url::host_str: the host component of
/// a URL, or none where the text does not parse or names no host.
#[verifier::external_body]
fn host_of(url: &str) -> (r: Option<String>)
    ensures
        opt_view(r) == url_host(url@),
{
    match url::Url::parse(url) {
        Ok(u) => u.host_str().map(|h| h.to_string()),
        Err(_) => None,
    }
}

/// The name shown for where a download came from.
pub open spec fn source_label(host: Option<Seq<char>>) -> Seq<char> {
    match host {
        Some(h) => h,
        None => "Unknown"@,
    }
}

/// The source name for a parsed host: the host itself, or "Unknown".
pub fn source_from_host(host: Option<String>) -> (r: String)
    ensures
        r@ == source_label(opt_view(host)),
{
    match host {
        Some(h) => h,
        None => String::from_str("Unknown"),
    }
}

/// The source name of a URL: its host, or "Unknown" where there is none.
pub fn source_of(url: &str) -> (r: String)
    ensures
        r@ == source_label(url_host(url@)),
{
    source_from_host(host_of(url))
}

/// A URL with a host is labelled by that host; any other text by "Unknown".
pub proof fn lemma_source_is_host(url: Seq<char>)
    ensures
        url_host(url) is Some ==> source_label(url_host(url)) == url_host(url)->Some_0,
        url_host(url) is None ==> source_label(url_host(url)) == "Unknown"@,
{
}

} // verus!

use vstd::prelude::*;
use crate::text::{ends_with, to_chars, occurs_at_exec};

verus! {

/// The domains whose hosts, and subdomains of them, are accepted.
pub open spec fn supported_domains() -> Seq<Seq<char>> {
    seq![
        "youtube.com"@,
        "www.youtube.com"@,
        "youtu.be"@,
        "m.youtube.com"@,
        "vimeo.com"@,
        "www.vimeo.com"@,
        "dailymotion.com"@,
        "www.dailymotion.com"@,
        "twitch.tv"@,
        "www.twitch.tv"@,
        "soundcloud.com"@,
        "www.soundcloud.com"@,
        "tiktok.com"@,
        "www.tiktok.com"@,
    ]
}

/// `host` is `domain` itself or a subdomain of it, split on a dot boundary.
pub open spec fn host_matches(host: Seq<char>, domain: Seq<char>) -> bool {
    host == domain || ends_with(host, seq!['.'] + domain)
}

/// `host` matches one of the supported domains.
pub open spec fn host_supported(host: Seq<char>) -> bool {
    exists|i: int| 0 <= i < supported_domains().len() && host_matches(host, supported_domains()[i])
}

/// The host of `input` when it parses as a URL that has one.
pub uninterp spec fn url_host(input: Seq<char>) -> Option<Seq<char>>;

/// Relies on `url::Url::parse` and `url::Url::host_str`: the host, if any, of the
/// URL that the text parses as; the result depends on the text alone.
#[verifier::external_body]
fn parsed_host(input: &str) -> (r: Option<String>)
    ensures
        match r {
            Some(h) => url_host(input@) == Some(h@),
            None => url_host(input@) is None,
        },
{
    match url::Url::parse(input) {
        Ok(u) => u.host_str().map(String::from),
        Err(_) => None,
    }
}

fn supported_domain(i: usize) -> (r: &'static str)
    requires
        i < supported_domains().len(),
    ensures
        r@ == supported_domains()[i as int],
{
    match i {
        0 => "youtube.com",
        1 => "www.youtube.com",
        2 => "youtu.be",
        3 => "m.youtube.com",
        4 => "vimeo.com",
        5 => "www.vimeo.com",
        6 => "dailymotion.com",
        7 => "www.dailymotion.com",
        8 => "twitch.tv",
        9 => "www.twitch.tv",
        10 => "soundcloud.com",
        11 => "www.soundcloud.com",
        12 => "tiktok.com",
        _ => "www.tiktok.com",
    }
}

fn matches_domain(host: &Vec<char>, domain: &str) -> (r: bool)
    ensures
        r == host_matches(host@, domain@),
{
    let d = to_chars(domain);
    let mut dotted: Vec<char> = Vec::new();
    dotted.push('.');
    let mut k: usize = 0;
    while k < d.len()
        invariant
            k <= d@.len(),
            dotted@ == seq!['.'] + d@.subrange(0, k as int),
        decreases d@.len() - k,
    {
        dotted.push(d[k]);
        k = k + 1;
    }
    assert(d@.subrange(0, d@.len() as int) =~= d@);
    let same = d.len() == host.len() && occurs_at_exec(host, &d, 0);
    proof {
        if d@.len() == host@.len() {
            assert(host@.subrange(0, host@.len() as int) =~= host@);
        }
    }
    if same {
        return true;
    }
    if dotted.len() > host.len() {
        return false;
    }
    occurs_at_exec(host, &dotted, host.len() - dotted.len())
}

/// Whether `host` is an allowed domain, or a subdomain of one.
pub fn is_supported_domain(host: &str) -> (r: bool)
    ensures
        r == host_supported(host@),
{
    let h = to_chars(host);
    let n: usize = 14;
    let mut i: usize = 0;
    while i < n
        invariant
            n == supported_domains().len(),
            i <= n,
            h@ == host@,
            forall|j: int| 0 <= j < i ==> !host_matches(host@, supported_domains()[j]),
        decreases n - i,
    {
        if matches_domain(&h, supported_domain(i)) {
            return true;
        }
        i = i + 1;
    }
    false
}

/// Whether `input` is a URL whose host is supported.
pub fn is_valid_url(input: &str) -> (r: bool)
    ensures
        r == match url_host(input@) {
            Some(h) => host_supported(h),
            None => false,
        },
{
    match parsed_host(input) {
        Some(h) => is_supported_domain(h.as_str()),
        None => false,
    }
}

} // verus!

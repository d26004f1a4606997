//! The target of a run: its URL with a scheme, and the host name in it.
use vstd::prelude::*;

verus! {

/// What the `url` crate makes of a text: the host of the URL, if it has one,
/// or the message of the parse error when the text is no URL.
pub uninterp spec fn url_host(input: Seq<char>) -> Result<Option<Seq<char>>, Seq<char>>;

/// The text of an optional string.
pub open spec fn opt_text(o: Option<String>) -> Option<Seq<char>> {
    match o {
        Some(s) => Some(s@),
        None => None,
    }
}

/// Relies on `url::Url::parse`, and `Url::host_str` on what it returns: the
/// result depends on the input text alone. The error text is the parse
/// error's message.
#[verifier::external_body]
fn parse_url_host(input: &str) -> (r: Result<Option<String>, String>)
    ensures
        match r {
            Ok(h) => url_host(input@) == Ok::<Option<Seq<char>>, Seq<char>>(opt_text(h)),
            Err(e) => url_host(input@) == Err::<Option<Seq<char>>, Seq<char>>(e@),
        },
{
    url::Url::parse(input).map(|u| u.host_str().map(|h| h.to_string())).map_err(|e| e.to_string())
}

/// `s` begins with `p`.
pub open spec fn starts_with(s: Seq<char>, p: Seq<char>) -> bool {
    p.len() <= s.len() && s.subrange(0, p.len() as int) == p
}

/// Whether `s` begins with `p`.
pub fn has_prefix(s: &str, p: &str) -> (r: bool)
    ensures
        r == starts_with(s@, p@),
{
    let n = p.unicode_len();
    if n > s.unicode_len() {
        return false;
    }
    let mut i: usize = 0;
    while i < n
        invariant
            n == p@.len(),
            n <= s@.len(),
            0 <= i <= n,
            s@.subrange(0, i as int) == p@.subrange(0, i as int),
        decreases n - i,
    {
        if s.get_char(i) != p.get_char(i) {
            assert(s@.subrange(0, n as int)[i as int] != p@[i as int]);
            return false;
        }
        assert(s@.subrange(0, i + 1) =~= s@.subrange(0, i as int).push(s@[i as int]));
        assert(p@.subrange(0, i + 1) =~= p@.subrange(0, i as int).push(p@[i as int]));
        i = i + 1;
    }
    assert(p@.subrange(0, n as int) =~= p@);
    true
}

/// The text that is parsed for the host: the target as given when it names
/// the http or https scheme, else the target behind `https://`.
pub open spec fn with_scheme(target: Seq<char>) -> Seq<char> {
    if starts_with(target, "http://"@) || starts_with(target, "https://"@) {
        target
    } else {
        "https://"@ + target
    }
}

/// The URL that the transport probe requests: the target as given when it
/// begins with `http`, else the target behind `https://`.
pub open spec fn request_url(target: Seq<char>) -> Seq<char> {
    if starts_with(target, "http"@) {
        target
    } else {
        "https://"@ + target
    }
}

/// The domain in a parsed URL: its host, or an error when it has none.
pub fn domain_from_parsed(parsed: Result<Option<String>, String>) -> (r: Result<String, String>)
    ensures
        match parsed {
            Ok(Some(h)) => r == Ok::<String, String>(h),
            Ok(None) => r matches Err(e) && e@ == "Cannot extract domain from URL"@,
            Err(e) => r == Err::<String, String>(e),
        },
{
    match parsed {
        Ok(Some(h)) => Ok(h),
        Ok(None) => Err(String::from_str("Cannot extract domain from URL")),
        Err(e) => Err(e),
    }
}

/// The domain that a target yields: its host, or the text of the error.
pub open spec fn domain_of(target: Seq<char>) -> Result<Seq<char>, Seq<char>> {
    match url_host(with_scheme(target)) {
        Ok(Some(h)) => Ok(h),
        Ok(None) => Err("Cannot extract domain from URL"@),
        Err(e) => Err(e),
    }
}

/// The text of a result of strings.
pub open spec fn result_text(r: Result<String, String>) -> Result<Seq<char>, Seq<char>> {
    match r {
        Ok(s) => Ok(s@),
        Err(e) => Err(e@),
    }
}

/// The host name in a target, which may lack the scheme; or, when it has
/// none, the error that says why.
pub fn parse_domain(url_str: &str) -> (r: Result<String, String>)
    ensures
        result_text(r) == domain_of(url_str@),
{
    let parsed = if has_prefix(url_str, "http://") || has_prefix(url_str, "https://") {
        parse_url_host(url_str)
    } else {
        let mut full = String::from_str("https://");
        full.append(url_str);
        parse_url_host(full.as_str())
    };
    domain_from_parsed(parsed)
}

/// The URL that the transport probe requests for a target.
pub fn normalize_url(target: &str) -> (r: String)
    ensures
        r@ == request_url(target@),
{
    if has_prefix(target, "http") {
        String::from_str(target)
    } else {
        let mut full = String::from_str("https://");
        full.append(target);
        full
    }
}

} // verus!

//! Validated article locators: a user-supplied path or absolute address is
//! parsed, its host checked against the single allowed host, and the result
//! kept as an immutable, canonical address.

use vstd::prelude::*;
use vstd::string::StringExecFns;

verus! {

/// The one host that article locators are allowed to point at.
pub open spec fn allowed_host() -> Seq<char> {
    "en.wikipedia.org"@
}

/// The canonical origin prepended to bare article paths.
pub open spec fn origin() -> Seq<char> {
    "https://en.wikipedia.org"@
}

/// What the URL parser finds in a string: `None` when the string is not a
/// well-formed absolute URL, `Some(None)` when it parses but carries no host
/// component, and `Some(Some(h))` when it parses with host `h`.
pub uninterp spec fn parsed_host(s: Seq<char>) -> Option<Option<Seq<char>>>;

/// A string makes a valid locator address when it parses as a URL and any
/// host it carries is the allowed one.
pub open spec fn spec_url_ok(s: Seq<char>) -> bool {
    match parsed_host(s) {
        None => false,
        Some(None) => true,
        Some(Some(h)) => h == allowed_host(),
    }
}

/// The address `from_path` hands to `new`: paths that already begin with a
/// separator are appended to the origin as they are; otherwise exactly one
/// separator is inserted.
pub open spec fn spec_full_address(path: Seq<char>) -> Seq<char> {
    if path.len() > 0 && (path[0] == '/' || path[0] == '\\') {
        origin() + path
    } else {
        origin() + "/"@ + path
    }
}

/// Failures of locator construction.
#[derive(Debug)]
pub enum WikipediaUrlInvalidError {
    /// The address parsed, but its host is not the allowed one; carries the
    /// offending address.
    InvalidHostError(String),
    /// The address could not be parsed as a URL at all; carries the address
    /// and the parser's diagnostic.
    InvalidUrlError { invalid_url: String, reason: String },
}

/// What one parse attempt reported.
enum RawHost {
    NotUrl(String),
    NoHost,
    WithHost(String),
}

/// Relies on `url::Url::parse` and `url::Url::host_str` of the url crate:
/// whether a string parses as an absolute URL, and which host component the
/// parsed URL carries, are functions of the input string alone; `parsed_host`
/// names that outcome.
#[verifier::external_body]
fn parse_host(s: &str) -> (r: RawHost)
    ensures
        match r {
            RawHost::NotUrl(_) => parsed_host(s@) is None,
            RawHost::NoHost => parsed_host(s@) == Some(Option::<Seq<char>>::None),
            RawHost::WithHost(h) => parsed_host(s@) == Some(Some(h@)),
        },
{
    match url::Url::parse(s) {
        Err(e) => RawHost::NotUrl(e.to_string()),
        Ok(u) => match u.host_str() {
            None => RawHost::NoHost,
            Some(h) => RawHost::WithHost(h.to_owned()),
        },
    }
}

/// A validated, canonical reference to one article. Immutable once built; its
/// view is the address string.
#[derive(Debug, Clone)]
pub struct WikipediaUrl {
    address: String,
}

impl View for WikipediaUrl {
    type V = Seq<char>;

    closed spec fn view(&self) -> Seq<char> {
        self.address@
    }
}

impl WikipediaUrl {
    /// Validate an absolute address: it must parse as a URL, and any host it
    /// carries must be the allowed host.
    pub fn new(input_url: &str) -> (r: Result<Self, WikipediaUrlInvalidError>)
        ensures
            match r {
                Ok(u) => spec_url_ok(input_url@) && u@ == input_url@,
                Err(WikipediaUrlInvalidError::InvalidUrlError { invalid_url, .. }) => parsed_host(
                    input_url@,
                ) is None && invalid_url@ == input_url@,
                Err(WikipediaUrlInvalidError::InvalidHostError(bad)) => (parsed_host(
                    input_url@,
                ) matches Some(Some(h)) && h != allowed_host()) && bad@ == input_url@,
            },
    {
        match parse_host(input_url) {
            RawHost::NotUrl(reason) => Err(
                WikipediaUrlInvalidError::InvalidUrlError {
                    invalid_url: String::from_str(input_url),
                    reason,
                },
            ),
            RawHost::NoHost => Ok(WikipediaUrl { address: String::from_str(input_url) }),
            RawHost::WithHost(h) => {
                if h == String::from_str("en.wikipedia.org") {
                    Ok(WikipediaUrl { address: String::from_str(input_url) })
                } else {
                    Err(WikipediaUrlInvalidError::InvalidHostError(String::from_str(input_url)))
                }
            },
        }
    }

    /// Build a locator from an article path such as `/wiki/Waffle`: the
    /// canonical origin is prepended, inserting a separator only when the
    /// path does not start with one, and the result is validated as in `new`.
    pub fn from_path(path: &str) -> (r: Result<Self, WikipediaUrlInvalidError>)
        ensures
            match r {
                Ok(u) => spec_url_ok(spec_full_address(path@)) && u@ == spec_full_address(path@),
                Err(WikipediaUrlInvalidError::InvalidUrlError { invalid_url, .. }) => parsed_host(
                    spec_full_address(path@),
                ) is None && invalid_url@ == spec_full_address(path@),
                Err(WikipediaUrlInvalidError::InvalidHostError(bad)) => (parsed_host(
                    spec_full_address(path@),
                ) matches Some(Some(h)) && h != allowed_host()) && bad@ == spec_full_address(path@),
            },
    {
        let mut address = String::from_str("https://en.wikipedia.org");
        let mut leading = false;
        if path.unicode_len() > 0 {
            let c = path.get_char(0);
            if c == '/' || c == '\\' {
                leading = true;
            }
        }
        if !leading {
            address.append("/");
        }
        address.append(path);
        WikipediaUrl::new(address.as_str())
    }

    /// The raw address, for the fetch collaborator.
    pub fn get_url(&self) -> (r: &String)
        ensures
            r@ == self@,
    {
        &self.address
    }
}

/// Law: construction rejects every address whose parsed host differs from the
/// allowed host, whatever that host is.
pub proof fn lemma_rejects_foreign_host(address: Seq<char>, host: Seq<char>)
    requires
        parsed_host(address) == Some(Some(host)),
        host != allowed_host(),
    ensures
        !spec_url_ok(address),
{
}

/// Law: a path that starts with a separator is concatenated directly onto the
/// origin, with no separator inserted or dropped.
pub proof fn lemma_from_path_leading_separator(path: Seq<char>)
    requires
        path.len() > 0,
        path[0] == '/' || path[0] == '\\',
    ensures
        spec_full_address(path) == origin() + path,
{
}

/// Law: a path that does not start with a separator has exactly one separator
/// inserted between the origin and the path.
pub proof fn lemma_from_path_no_leading_separator(path: Seq<char>)
    requires
        !(path.len() > 0 && (path[0] == '/' || path[0] == '\\')),
    ensures
        spec_full_address(path) == origin() + "/"@ + path,
{
}

} // verus!

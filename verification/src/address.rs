//! Absolute URLs, held together with their serialization, and the calls into
//! the `url` and `http` crates that parse and edit them.

use vstd::prelude::*;

verus! {

/// `url::Url`, held opaque.
#[verifier::external_type_specification]
#[verifier::external_body]
pub struct ExUrl(url::Url);

/// What `url::Url::parse` makes of its input: the serialization of the
/// parsed URL, or the text of the parse error.
pub uninterp spec fn url_parse(input: Seq<char>) -> Result<Seq<char>, Seq<char>>;

/// The serialization after `url::Url::set_query` on the URL with the given
/// serialization.
pub uninterp spec fn url_with_query(url: Seq<char>, query: Option<Seq<char>>) -> Seq<char>;

/// The serialization after `url::Url::set_path`.
pub uninterp spec fn url_with_path(url: Seq<char>, path: Seq<char>) -> Seq<char>;

/// The serialization after a successful `url::Url::set_scheme`, or `None`
/// where the url crate refuses the new scheme.
pub uninterp spec fn url_with_scheme(url: Seq<char>, scheme: Seq<char>) -> Option<Seq<char>>;

/// What `url::Url::host_str` returns.
pub uninterp spec fn url_host(url: Seq<char>) -> Option<Seq<char>>;

/// What `url::Url::query` returns.
pub uninterp spec fn url_query(url: Seq<char>) -> Option<Seq<char>>;

/// What parsing a string as an `http::Uri` gives: its display form, or the
/// text of the error.
pub uninterp spec fn uri_parse(input: Seq<char>) -> Result<Seq<char>, Seq<char>>;

/// An absolute URL. Its view is its serialization, which determines it.
///
/// `text` is always `inner`'s serialization: the fields are private, and the
/// only code that builds or edits a `WsUrl` is the `external_body`
/// functions below, each of which sets `text` from `inner` after its call.
/// Their contracts speak of `text`, and rest on that correspondence, which
/// Verus does not check.
#[derive(Debug)]
pub struct WsUrl {
    inner: url::Url,
    text: String,
}

impl View for WsUrl {
    type V = Seq<char>;

    closed spec fn view(&self) -> Seq<char> {
        self.text@
    }
}

/// The view of a parse outcome: the serialization, or the error text.
pub open spec fn url_outcome(r: Result<WsUrl, String>) -> Result<Seq<char>, Seq<char>> {
    match r {
        Ok(u) => Ok(u@),
        Err(e) => Err(e@),
    }
}

/// The view of an optional borrowed string.
pub open spec fn opt_str_view(o: Option<&str>) -> Option<Seq<char>> {
    match o {
        Some(s) => Some(s@),
        None => None,
    }
}

/// `url::Url::parse`, keeping the serialization (`Url`'s `Display`) beside
/// the URL. The contract says only that the outcome is the one the url
/// crate gives for this input, taken by serialization or error text.
#[verifier::external_body]
fn parse_url(input: &str) -> (r: Result<WsUrl, String>)
    ensures
        url_outcome(r) == url_parse(input@),
{
    match url::Url::parse(input) {
        Ok(inner) => {
            let text = inner.to_string();
            Ok(WsUrl { inner, text })
        },
        Err(e) => Err(e.to_string()),
    }
}

/// Parses `input` as an `http::Uri` (`str::parse`) and gives its display
/// form, or the error's text. The contract names the outcome and says no
/// more.
#[verifier::external_body]
pub(crate) fn parse_uri(input: &str) -> (r: Result<String, String>)
    ensures
        match r {
            Ok(s) => uri_parse(input@) == Ok::<Seq<char>, Seq<char>>(s@),
            Err(e) => uri_parse(input@) == Err::<Seq<char>, Seq<char>>(e@),
        },
{
    match input.parse::<http::Uri>() {
        Ok(uri) => Ok(uri.to_string()),
        Err(e) => Err(e.to_string()),
    }
}

impl WsUrl {
    /// Parses an absolute URL.
    pub fn parse(input: &str) -> (r: Result<WsUrl, String>)
        ensures
            url_outcome(r) == url_parse(input@),
    {
        parse_url(input)
    }

    /// The serialization of this URL.
    pub fn as_str(&self) -> (r: &str)
        ensures
            r@ == self@,
    {
        self.text.as_str()
    }

    /// `url::Url::set_query`, followed by a refresh of the kept
    /// serialization. The new serialization is named, not stated.
    #[verifier::external_body]
    pub(crate) fn set_query(&mut self, query: Option<&str>)
        ensures
            final(self)@ == url_with_query(old(self)@, opt_str_view(query)),
    {
        self.inner.set_query(query);
        self.text = self.inner.to_string();
    }

    /// `url::Url::set_path`, followed by a refresh of the kept
    /// serialization. The new serialization is named, not stated.
    #[verifier::external_body]
    pub(crate) fn set_path(&mut self, path: &str)
        ensures
            final(self)@ == url_with_path(old(self)@, path@),
    {
        self.inner.set_path(path);
        self.text = self.inner.to_string();
    }

    /// `url::Url::set_scheme`. Where the url crate refuses the scheme it
    /// returns `Err(())` before touching the URL, so the URL stays as it was.
    #[verifier::external_body]
    pub(crate) fn set_scheme(&mut self, scheme: &str) -> (r: Result<(), ()>)
        ensures
            match url_with_scheme(old(self)@, scheme@) {
                Some(s) => r is Ok && final(self)@ == s,
                None => r is Err && final(self)@ == old(self)@,
            },
    {
        let r = self.inner.set_scheme(scheme);
        self.text = self.inner.to_string();
        r
    }

    /// `url::Url::host_str`, copied into a `String`.
    #[verifier::external_body]
    pub(crate) fn host_str(&self) -> (r: Option<String>)
        ensures
            match r {
                Some(h) => url_host(self@) == Some(h@),
                None => url_host(self@) is None,
            },
    {
        match self.inner.host_str() {
            Some(h) => Some(h.to_string()),
            None => None,
        }
    }

    /// `url::Url::query`, copied into a `String`.
    #[verifier::external_body]
    pub(crate) fn query(&self) -> (r: Option<String>)
        ensures
            match r {
                Some(q) => url_query(self@) == Some(q@),
                None => url_query(self@) is None,
            },
    {
        match self.inner.query() {
            Some(q) => Some(q.to_string()),
            None => None,
        }
    }
}

} // verus!

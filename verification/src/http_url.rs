//! Validated URLs: parsing, relative-reference joining, and query-pair
//! appending.
//!
//! The parsing and joining themselves are the URL library's work, reached
//! through trusted wrappers; a value of [`HttpUrl`] always holds the
//! serialization of a URL that library accepted.

use vstd::prelude::*;

verus! {

/// What parsing a string as a URL yields: the parsed URL's serialization,
/// or nothing when the URL library rejects the string.
pub uninterp spec fn url_normalize(s: Seq<char>) -> Option<Seq<char>>;

/// What joining a relative reference onto a base URL yields: the joined
/// URL's serialization, or nothing when the URL library rejects the pair.
pub uninterp spec fn url_join(base: Seq<char>, rel: Seq<char>) -> Option<Seq<char>>;

/// What appending one query pair to a URL yields.
pub uninterp spec fn url_append_pair(url: Seq<char>, name: Seq<char>, value: Seq<char>) -> Seq<
    char,
>;

/// The path component of a URL.
pub uninterp spec fn url_path_of(url: Seq<char>) -> Seq<char>;

/// The URL after every pair of the sequence is appended to its query, in
/// order.
pub open spec fn url_with_query(url: Seq<char>, pairs: Seq<(Seq<char>, Seq<char>)>) -> Seq<char>
    decreases pairs.len(),
{
    if pairs.len() == 0 {
        url
    } else {
        url_append_pair(url_with_query(url, pairs.drop_last()), pairs.last().0, pairs.last().1)
    }
}

/// The views of a sequence of owned string pairs.
pub open spec fn pair_views(pairs: Seq<(String, String)>) -> Seq<(Seq<char>, Seq<char>)> {
    pairs.map_values(|p: (String, String)| (p.0@, p.1@))
}

/// Relies on reqwest::Url::parse (the url crate) and Url::as_str: whether a
/// string parses depends on the string alone, as_str is the parsed URL's
/// serialization, and that serialization parses back to itself.
#[verifier::external_body]
fn parse_url_text(s: &str) -> (r: Result<String, String>)
    ensures
        r is Ok <==> url_normalize(s@) is Some,
        r matches Ok(t) ==> url_normalize(s@) == Some(t@) && url_normalize(t@) == Some(t@),
{
    match reqwest::Url::parse(s) {
        Ok(u) => Ok(u.as_str().to_owned()),
        Err(e) => Err(e.to_string()),
    }
}

/// Relies on reqwest::Url::join (the url crate): RFC 3986 relative-reference
/// resolution, a function of the two strings; the result's serialization
/// parses back to itself.
#[verifier::external_body]
fn join_url_text(base: &str, rel: &str) -> (r: Result<String, String>)
    ensures
        r is Ok <==> url_join(base@, rel@) is Some,
        r matches Ok(t) ==> url_join(base@, rel@) == Some(t@) && url_normalize(t@) == Some(t@),
{
    let parsed = match reqwest::Url::parse(base) {
        Ok(b) => b.join(rel),
        Err(e) => return Err(e.to_string()),
    };
    match parsed {
        Ok(u) => Ok(u.as_str().to_owned()),
        Err(e) => Err(e.to_string()),
    }
}

/// Relies on url::Url::query_pairs_mut and form_urlencoded's append_pair
/// (through reqwest's re-export): appending a form-encoded pair to the URL's
/// query, keeping what the query already held; a function of the strings
/// alone, and the result parses back to itself.
#[verifier::external_body]
fn append_query_pair_text(url: &str, name: &str, value: &str) -> (r: Result<String, String>)
    ensures
        r is Ok <==> url_normalize(url@) is Some,
        r matches Ok(t) ==> t@ == url_append_pair(url@, name@, value@) && url_normalize(t@)
            == Some(t@),
{
    match reqwest::Url::parse(url) {
        Ok(mut u) => {
            u.query_pairs_mut().append_pair(name, value);
            Ok(u.as_str().to_owned())
        },
        Err(e) => Err(e.to_string()),
    }
}

/// Relies on url::Url::path (through reqwest's re-export): the URL's path
/// component, a function of the URL text.
#[verifier::external_body]
fn url_path_text(url: &str) -> (r: Option<String>)
    ensures
        r is Some <==> url_normalize(url@) is Some,
        r matches Some(p) ==> p@ == url_path_of(url@),
{
    match reqwest::Url::parse(url) {
        Ok(u) => Some(u.path().to_owned()),
        Err(_) => None,
    }
}

/// The error a URL operation reports, carrying the URL library's own
/// diagnostic text.
#[derive(Debug)]
pub struct HttpUrlError(pub String);

impl HttpUrlError {
    /// The diagnostic text of the error.
    pub fn message(&self) -> (r: &String)
        ensures
            r@ == self.0@,
    {
        &self.0
    }
}

/// A validated URL, held as the serialization the URL library produced.
#[derive(Debug)]
pub struct HttpUrl {
    text: String,
}

impl View for HttpUrl {
    type V = Seq<char>;

    closed spec fn view(&self) -> Seq<char> {
        self.text@
    }
}

impl HttpUrl {
    #[verifier::type_invariant]
    spec fn wf(self) -> bool {
        url_normalize(self.text@) == Some(self.text@)
    }

    /// Parse a string into a validated URL; fails exactly when the URL
    /// library rejects the string.
    pub fn parse(url: &str) -> (r: Result<HttpUrl, HttpUrlError>)
        ensures
            r is Ok <==> url_normalize(url@) is Some,
            r matches Ok(u) ==> Some(u@) == url_normalize(url@),
    {
        match parse_url_text(url) {
            Ok(t) => Ok(HttpUrl { text: t }),
            Err(e) => Err(HttpUrlError(e)),
        }
    }

    /// Join a relative reference onto this URL; fails exactly when the URL
    /// library rejects the pair.
    pub fn join(&self, path: &str) -> (r: Result<HttpUrl, HttpUrlError>)
        ensures
            r is Ok <==> url_join(self@, path@) is Some,
            r matches Ok(u) ==> Some(u@) == url_join(self@, path@),
    {
        match join_url_text(self.text.as_str(), path) {
            Ok(t) => Ok(HttpUrl { text: t }),
            Err(e) => Err(HttpUrlError(e)),
        }
    }

    /// The URL's serialization.
    pub fn as_str(&self) -> (r: &str)
        ensures
            r@ == self@,
    {
        self.text.as_str()
    }

    /// The URL's path component.
    pub fn path_text(&self) -> (r: String)
        ensures
            r@ == url_path_of(self@),
    {
        proof {
            use_type_invariant(&*self);
        }
        match url_path_text(self.text.as_str()) {
            Some(p) => p,
            None => {
                proof {
                    assert(false);
                }
                String::new()
            },
        }
    }

    /// A second owned copy of the URL.
    pub fn duplicate(&self) -> (r: HttpUrl)
        ensures
            r@ == self@,
    {
        proof {
            use_type_invariant(&*self);
        }
        HttpUrl { text: self.text.clone() }
    }

    /// The URL with every given pair appended to its query, in order,
    /// keeping any query pairs the URL already had.
    pub fn with_query_pairs(&self, pairs: &Vec<(String, String)>) -> (r: HttpUrl)
        ensures
            r@ == url_with_query(self@, pair_views(pairs@)),
    {
        proof {
            use_type_invariant(&*self);
        }
        let ghost pv: Seq<(Seq<char>, Seq<char>)> = pair_views(pairs@);
        let mut text: String = self.text.clone();
        let n = pairs.len();
        let mut i: usize = 0;
        while i < n
            invariant
                i <= n,
                n == pairs.len(),
                pv == pair_views(pairs@),
                url_normalize(text@) == Some(text@),
                text@ == url_with_query(self@, pv.take(i as int)),
            decreases n - i,
        {
            let appended = append_query_pair_text(
                text.as_str(),
                pairs[i].0.as_str(),
                pairs[i].1.as_str(),
            );
            match appended {
                Ok(t) => {
                    proof {
                        assert(pv.take(i + 1).drop_last() =~= pv.take(i as int));
                        assert(pv.take(i + 1).last() == (pairs@[i as int].0@, pairs@[i as int].1@));
                    }
                    text = t;
                },
                Err(_) => {
                    proof {
                        assert(false);
                    }
                },
            }
            i += 1;
        }
        proof {
            assert(pv.take(n as int) =~= pv);
        }
        HttpUrl { text }
    }
}

} // verus!

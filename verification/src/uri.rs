//! The library's model of an absolute URL: the normalized serialization the
//! parser produced, together with the host component that backend selection
//! matches on. Parsing itself is delegated to the `url` crate.

use vstd::prelude::*;

verus! {

/// The spec-level image of a [`Uri`]: its serialization and, when the URL has
/// one, its host.
pub ghost struct UriV {
    pub text: Seq<char>,
    pub host: Option<Seq<char>>,
}

/// An absolute URL, as the library tracks it: `text` is the full normalized
/// serialization (the identity key of a playlist source), `host` its host
/// component when the URL has one.
pub struct Uri {
    pub text: String,
    pub host: Option<String>,
}

impl View for Uri {
    type V = UriV;

    open spec fn view(&self) -> UriV {
        UriV {
            text: self.text@,
            host: match self.host {
                Some(h) => Some(h@),
                None => None,
            },
        }
    }
}

impl Clone for Uri {
    fn clone(&self) -> (r: Self)
        ensures
            r == *self,
    {
        Uri {
            text: self.text.clone(),
            host: match &self.host {
                Some(h) => Some(h.clone()),
                None => None,
            },
        }
    }
}

/// What parsing a string as an absolute URL yields: `None` when the string is
/// not one, otherwise the parsed URL's serialization and host. The result
/// depends on the input string alone.
pub uninterp spec fn parsed_uri(s: Seq<char>) -> Option<UriV>;

/// Relies on `url::Url::parse` to parse the input, and on `Url::as_str` and
/// `Url::host_str` to read the serialization and host of the parsed URL.
#[verifier::external_body]
fn parse_via_url(s: &str) -> (r: Option<Uri>)
    ensures
        r matches Some(u) ==> parsed_uri(s@) == Some(u@),
        r is None ==> parsed_uri(s@) is None,
{
    match url::Url::parse(s) {
        Ok(u) => {
            let host = u.host_str().map(|h| h.to_string());
            Some(Uri { text: u.as_str().to_string(), host })
        }
        Err(_) => None,
    }
}

impl Uri {
    /// Parse an absolute URL string; `None` when the string is not one.
    pub fn parse(s: &str) -> (r: Option<Uri>)
        ensures
            r matches Some(u) ==> parsed_uri(s@) == Some(u@),
            r is None ==> parsed_uri(s@) is None,
    {
        parse_via_url(s)
    }
}

} // verus!

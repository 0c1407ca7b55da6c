//! The scheme gate: only `http` and `https` URLs are ever handed to a client.

use crate::error::Error;
use crate::text::starts_with;
use vstd::prelude::*;

verus! {

/// Whether `url` declares the `http` or the `https` scheme.
pub open spec fn has_http_scheme(url: Seq<char>) -> bool {
    "http://"@.is_prefix_of(url) || "https://"@.is_prefix_of(url)
}

/// A value that holds the text of a URL and can be checked for its scheme.
pub trait ValidUrl {
    /// The text of the URL.
    spec fn text(&self) -> Seq<char>;

    /// The text of the URL.
    fn as_str(&self) -> (s: &str)
        ensures
            s@ == self.text(),
    ;

    /// Hands the URL on unchanged if it declares the `http` or `https`
    /// scheme, and refuses it otherwise.
    fn validate(&self) -> (r: Result<&str, Error>)
        ensures
            has_http_scheme(self.text()) ==> (r matches Ok(s) && s@ == self.text()),
            !has_http_scheme(self.text()) ==> r matches Err(Error::InvalidUrlScheme),
    {
        let url = self.as_str();
        if starts_with(url, "http://") || starts_with(url, "https://") {
            Ok(url)
        } else {
            Err(Error::InvalidUrlScheme)
        }
    }
}

impl<'a> ValidUrl for &'a str {
    open spec fn text(&self) -> Seq<char> {
        self@
    }

    fn as_str(&self) -> (s: &str) {
        *self
    }
}

impl ValidUrl for String {
    open spec fn text(&self) -> Seq<char> {
        self@
    }

    fn as_str(&self) -> (s: &str) {
        String::as_str(self)
    }
}

} // verus!

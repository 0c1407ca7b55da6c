//! HTTP GET without a network stack of its own: the request is handed to
//! whichever command-line client the host already has.
//!
//! Supported clients:
//!
//! * wget
//! * cURL
//! * PowerShell (`Invoke-WebRequest`)
//!
//! The library never starts a process. It decides what is to be run and
//! makes sense of what came back; running it is up to the caller. A request
//! goes through these steps:
//!
//! 1. [`get`], or [`RequestBuilder::send`], refuses every URL that is not
//!    `http` or `https`, and hands back the [`request::Request`] otherwise.
//! 2. [`clients::resolve::Resolving`] leads the caller through finding the
//!    client to use, once per process.
//! 3. [`request::Request::invoke`] gives the command that fetches the URL.
//! 4. [`request::Invocation::finish`] turns the output of that command into
//!    the response, or into the error that tells what went wrong.

pub mod clients;
pub mod duration;
pub mod error;
pub mod request;
pub mod text;
pub mod url;

pub use clients::resolve::{http_client, installed};
pub use clients::{supported_http_clients, SystemHttpClient};
pub use error::Error;
pub use request::RequestBuilder;

use request::{Request, RequestView};
use url::{has_http_scheme, ValidUrl};
use vstd::prelude::*;

verus! {

/// Begins a GET request for `url` without a timeout. A URL that does not
/// declare the `http` or `https` scheme is refused here, before anything is
/// started on its behalf.
pub fn get<U: ValidUrl>(url: U) -> (r: Result<Request, Error>)
    ensures
        has_http_scheme(url.text()) ==> (r matches Ok(request) && request@ == (RequestView {
            url: url.text(),
            timeout: None,
        })),
        !has_http_scheme(url.text()) ==> r matches Err(Error::InvalidUrlScheme),
{
    RequestBuilder::new(url).send()
}

} // verus!

//! Requests and responses.
//!
//! A request passes through three hands. A [`RequestBuilder`] gathers the
//! URL and the timeout. [`RequestBuilder::send`] lets it through the scheme
//! gate and gives a [`Request`], which [`Request::invoke`] turns into the
//! command of the client that was resolved. Once the caller has run that
//! command, [`Invocation::finish`] reads its output.

use crate::clients::resolve::{ResolutionState, resolve};
use crate::clients::{Command, Output, Platform, SystemHttpClient, outcome_view};
use crate::duration::is_positive;
use crate::error::{Error, ErrorView, IoError};
use crate::url::{ValidUrl, has_http_scheme};
use std::time::Duration;
use vstd::prelude::*;
use vstd::string::StringExecFns;

verus! {

/// What a client sent back for a request that succeeded.
#[derive(Debug)]
pub struct Response {
    /// The body of the response, exactly as the client wrote it.
    pub body: Vec<u8>,
}

impl View for Response {
    type V = Seq<u8>;

    open spec fn view(&self) -> Seq<u8> {
        self.body@
    }
}

/// What a request is to the contracts: its URL and its timeout.
pub struct RequestView {
    pub url: Seq<char>,
    pub timeout: Option<Duration>,
}

/// Gathers what a request needs: the URL, and the timeout if there is to be
/// one.
pub struct RequestBuilder<U: ValidUrl> {
    url: U,
    timeout: Option<Duration>,
}

impl<U: ValidUrl> View for RequestBuilder<U> {
    type V = RequestView;

    closed spec fn view(&self) -> RequestView {
        RequestView { url: self.url.text(), timeout: self.timeout }
    }
}

impl<U: ValidUrl> RequestBuilder<U> {
    #[verifier::type_invariant]
    spec fn timeout_is_positive(self) -> bool {
        is_positive(self.timeout)
    }

    /// A request for `url` without a timeout.
    #[must_use]
    pub fn new(url: U) -> (builder: Self)
        ensures
            builder@ == (RequestView { url: url.text(), timeout: None }),
    {
        Self { url, timeout: None }
    }

    /// Sets the timeout of the request; `None` means that it may take as
    /// long as it takes. A timeout of zero is a mistake of the caller, and
    /// no builder is ever made with one.
    #[must_use]
    pub fn timeout(self, timeout: Option<Duration>) -> (builder: Self)
        requires
            is_positive(timeout),
        ensures
            builder@ == (RequestView { url: self@.url, timeout }),
    {
        Self { url: self.url, timeout }
    }

    /// Sets the timeout of the request if it is one that a request can have,
    /// and gives nothing back for a timeout of zero.
    pub fn checked_timeout(self, timeout: Option<Duration>) -> (builder: Option<Self>)
        ensures
            is_positive(timeout) ==> (builder matches Some(b) && b@ == (RequestView {
                url: self@.url,
                timeout,
            })),
            !is_positive(timeout) ==> builder is None,
    {
        match timeout {
            Some(d) if d.is_zero() => None,
            _ => Some(self.timeout(timeout)),
        }
    }

    /// Lets the request through the scheme gate: a URL with the `http` or
    /// `https` scheme gives the request to invoke, any other is refused
    /// here, before anything is started on its behalf.
    pub fn send(self) -> (r: Result<Request, Error>)
        ensures
            is_positive(self@.timeout),
            has_http_scheme(self@.url) ==> (r matches Ok(request) && request@ == self@),
            !has_http_scheme(self@.url) ==> r matches Err(Error::InvalidUrlScheme),
    {
        proof {
            use_type_invariant(&self);
        }
        match self.url.validate() {
            Ok(url) => Ok(Request { url: String::from_str(url), timeout: self.timeout }),
            Err(e) => Err(e),
        }
    }
}

/// A request that has passed the scheme gate.
#[derive(Debug)]
pub struct Request {
    url: String,
    timeout: Option<Duration>,
}

impl View for Request {
    type V = RequestView;

    closed spec fn view(&self) -> RequestView {
        RequestView { url: self.url@, timeout: self.timeout }
    }
}

impl Request {
    #[verifier::type_invariant]
    spec fn valid(self) -> bool {
        has_http_scheme(self.url@) && is_positive(self.timeout)
    }

    /// The URL of the request, which has the `http` or `https` scheme.
    pub fn url(&self) -> (url: &str)
        ensures
            url@ == self@.url,
            has_http_scheme(url@),
    {
        proof {
            use_type_invariant(self);
        }
        self.url.as_str()
    }

    /// The timeout of the request, which is never zero.
    pub fn timeout(&self) -> (timeout: Option<Duration>)
        ensures
            timeout == self@.timeout,
            is_positive(timeout),
    {
        proof {
            use_type_invariant(self);
        }
        self.timeout
    }

    /// The command that carries the request out with the client that the
    /// finished resolution has found, or the error that says that no client
    /// is installed. A command is only ever made for an `http` or `https`
    /// URL, and never with a timeout of zero.
    pub fn invoke(self, resolution: ResolutionState, platform: Platform) -> (r: Result<
        Invocation,
        Error,
    >)
        requires
            resolution is Ready,
        ensures
            has_http_scheme(self@.url),
            is_positive(self@.timeout),
            match resolution.client() {
                Some(client) => r matches Ok(invocation) && invocation.client == client
                    && invocation.platform == platform && invocation.command@
                    == client.fetch_command(self@.url, self@.timeout, platform),
                None => r matches Err(Error::SystemHTTPClientNotFound),
            },
    {
        proof {
            use_type_invariant(&self);
        }
        match resolve(resolution) {
            Ok(client) => {
                let command = client.get(self.url.as_str(), self.timeout, platform);
                Ok(Invocation { client, platform, command })
            },
            Err(e) => Err(e),
        }
    }
}

/// A request on its way: the command to run, and the client that will read
/// what the command leaves behind.
#[derive(Debug)]
pub struct Invocation {
    /// The client that carries the request out.
    pub client: SystemHttpClient,
    /// The kind of system that the command runs on.
    pub platform: Platform,
    /// The command to run.
    pub command: Command,
}

impl Invocation {
    /// The end of the request, given how running the command went: the
    /// failure to start it is handed on as it is, and the output of the
    /// finished process is read by the client.
    pub fn finish(self, ran: Result<Output, IoError>) -> (r: Result<Response, Error>)
        ensures
            match ran {
                Ok(output) => outcome_view(r) == self.client.outcome(output@, self.platform),
                Err(e) => outcome_view(r) == Err::<Seq<u8>, ErrorView>(ErrorView::IoError(e@)),
            },
    {
        match ran {
            Ok(output) => self.client.response(output, self.platform),
            Err(e) => Err(Error::IoError(e)),
        }
    }
}

} // verus!

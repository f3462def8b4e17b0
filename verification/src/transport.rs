//! The transport capability: fetch text from a URL.

use vstd::prelude::*;

use crate::model::LaunchpadError;

verus! {

/// One round trip of text over HTTP.
///
/// Each implementation states, through [`HTTPClient::models`], what holds
/// of every outcome one of its round trips can produce; the fetchers are
/// verified against that relation alone.  A live network client admits
/// many outcomes for the same URL; the deterministic offline client admits
/// exactly one.
pub trait HTTPClient: Sized {
    /// What may come back from one round trip to `url`.
    spec fn models(&self, url: Seq<char>, r: Result<String, LaunchpadError>) -> bool;

    /// Fetches the text at `url`: one request, one round trip, no retries.
    /// A failed round trip surfaces as a transport error and nothing else.
    fn get(&self, url: &str) -> (r: Result<String, LaunchpadError>)
        ensures
            self.models(url@, r),
            r matches Err(e) ==> e is HttpRequest,
    ;
}

/// `reqwest`'s synchronous HTTP client, declared so a field may hold it;
/// opaque to the verifier.
#[verifier::external_type_specification]
#[verifier::external_body]
pub struct ExBlockingClient(reqwest::blocking::Client);

/// The live network transport.
#[derive(Debug)]
pub struct ReqwestClient(reqwest::blocking::Client);

impl ReqwestClient {
    /// Relies on `reqwest::blocking::Client::builder` and
    /// `ClientBuilder::build`: a client whose setup fails reports the
    /// failure as an error value instead of panicking.
    #[verifier::external_body]
    pub fn new() -> (r: Result<Self, LaunchpadError>)
        ensures
            r matches Err(e) ==> e is HttpRequest,
    {
        match reqwest::blocking::Client::builder().build() {
            Ok(c) => Ok(ReqwestClient(c)),
            Err(e) => Err(LaunchpadError::HttpRequest(format!("{e}"))),
        }
    }
}

/// Relies on `reqwest::blocking`'s `RequestBuilder::send` and
/// `Response::text`: one GET round trip, the body as text whatever the
/// status code, any failure reported as an error value built right here.
#[verifier::external_body]
fn reqwest_get(client: &reqwest::blocking::Client, url: &str) -> (r: Result<String, LaunchpadError>)
    ensures
        r matches Err(e) ==> e is HttpRequest,
{
    match client.get(url).send().and_then(|resp| resp.text()) {
        Ok(text) => Ok(text),
        Err(e) => Err(LaunchpadError::HttpRequest(format!("{e}"))),
    }
}

impl HTTPClient for ReqwestClient {
    /// The network decides what comes back; all this client promises is
    /// that a failed round trip surfaces as a transport error.
    open spec fn models(&self, url: Seq<char>, r: Result<String, LaunchpadError>) -> bool {
        r matches Err(e) ==> e is HttpRequest
    }

    fn get(&self, url: &str) -> (r: Result<String, LaunchpadError>) {
        reqwest_get(&self.0, url)
    }
}

} // verus!

use vstd::prelude::*;
use vstd::string::*;
use crate::text::{decimal, push_decimal};
use tokio_tungstenite::tungstenite::http::{uri::Builder, Uri};

verus! {

/// Whether `endpoint` parses as a URI.
pub uninterp spec fn uri_parses(endpoint: Seq<char>) -> bool;

/// The URI that `endpoint` parses to, with its path and query replaced by
/// `path_and_query`, written out as text; `None` where the new URI cannot be built.
pub uninterp spec fn uri_with_path_and_query(endpoint: Seq<char>, path_and_query: Seq<char>) -> Option<Seq<char>>;

/// Which step of building a URL failed.
#[derive(Clone, Copy, Debug, PartialEq, Eq, Structural)]
pub enum UriFailure {
    Parse,
    Build,
}

/// A built URL, or the step that failed.
pub type UriResult = Result<String, UriFailure>;

/// Relies on http's `Uri` parsing, `uri::Builder::path_and_query` and
/// `Builder::build`: the endpoint's scheme and authority are kept and its path
/// and query replaced; the result depends on the two texts alone.
#[verifier::external_body]
fn replace_path_and_query(endpoint: &str, path_and_query: String) -> (r: UriResult)
    ensures
        if uri_parses(endpoint@) {
            match uri_with_path_and_query(endpoint@, path_and_query@) {
                Some(u) => r matches Ok(s) && s@ == u,
                None => r matches Err(UriFailure::Build),
            }
        } else {
            r matches Err(UriFailure::Parse)
        },
{
    let uri: Uri = match endpoint.parse() {
        Ok(uri) => uri,
        Err(_) => return Err(UriFailure::Parse),
    };
    match Builder::from(uri).path_and_query(path_and_query).build() {
        Ok(u) => Ok(u.to_string()),
        Err(_) => Err(UriFailure::Build),
    }
}

/// The path and query of the relay's websocket endpoint for this client.
pub open spec fn ws_path_and_query(version: Seq<char>, token: Seq<char>, session: u32) -> Seq<char> {
    "/ws?v="@ + version + "&token="@ + token + "&session="@ + decimal(session as nat)
}

/// Builds the path and query that identify this client: its version, its
/// persistent token and the session number of this process.
pub fn path_and_query(version: &str, token: &str, session: u32) -> (r: String)
    ensures
        r@ == ws_path_and_query(version@, token@, session),
{
    let mut r = String::from_str("/ws?v=").concat(version).concat("&token=").concat(token).concat("&session=");
    push_decimal(&mut r, session);
    r
}

/// Builds the websocket URL from the endpoint: the endpoint's own path and
/// query give way to the client's. Fails with a message where the endpoint is
/// not a URI, or where the result cannot be built.
pub fn build_ws_url(endpoint: &str, version: &str, token: &str, session: u32) -> (r: Result<String, String>)
    ensures
        if uri_parses(endpoint@) {
            match uri_with_path_and_query(endpoint@, ws_path_and_query(version@, token@, session)) {
                Some(u) => r matches Ok(s) && s@ == u,
                None => r matches Err(e) && e@ == "Failed to build URL"@,
            }
        } else {
            r matches Err(e) && e@ == "Failed to parse URL"@
        },
{
    let pq = path_and_query(version, token, session);
    match replace_path_and_query(endpoint, pq) {
        Ok(u) => Ok(u),
        Err(UriFailure::Parse) => Err(String::from_str("Failed to parse URL")),
        Err(UriFailure::Build) => Err(String::from_str("Failed to build URL")),
    }
}

} // verus!

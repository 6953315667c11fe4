//! The metrics endpoint: where it lives, and what it answers once the
//! registry's snapshot is encoded.

use crate::text::utf8_text;
use vstd::prelude::*;
use vstd::utf8::decode_utf8;
use vstd::utf8::valid_utf8;

verus! {

/// The path that is kept for the metrics and never forwarded.
pub const METRICS_PATH: &'static str = "/__proxy/metrics";

/// The one method that the metrics endpoint takes.
pub const METRICS_METHOD: &'static str = "GET";

/// The status for a method that the metrics endpoint does not take.
pub const METHOD_NOT_ALLOWED: u16 = 405;

/// The status for a snapshot that could not be given.
pub const SNAPSHOT_FAILED: u16 = 500;

/// Where a request goes inside the gateway.
#[derive(Clone, Copy, Debug, PartialEq, Eq, Structural)]
pub enum Route {
    /// To the metrics snapshot.
    Metrics,
    /// Nowhere: the metrics path was asked with another method than `GET`.
    MethodNotAllowed,
    /// Through the pipeline, to an upstream.
    Proxy,
}

/// The route of a request with this method and path.
pub open spec fn route_of(method: Seq<char>, path: Seq<char>) -> Route {
    if path == METRICS_PATH@ {
        if method == METRICS_METHOD@ {
            Route::Metrics
        } else {
            Route::MethodNotAllowed
        }
    } else {
        Route::Proxy
    }
}

/// Picks the route of a request. Method and path are compared as they are
/// written.
pub fn route(method: &str, path: &str) -> (r: Route)
    ensures
        r == route_of(method@, path@),
{
    if path.to_owned() == METRICS_PATH.to_owned() {
        if method.to_owned() == METRICS_METHOD.to_owned() {
            Route::Metrics
        } else {
            Route::MethodNotAllowed
        }
    } else {
        Route::Proxy
    }
}

/// Why no snapshot could be given.
#[derive(Clone, Copy, Debug, PartialEq, Eq, Structural)]
pub enum GatherError {
    /// The encoder gave up.
    Encoding,
    /// The encoder's bytes are no text.
    NotText,
}

impl GatherError {
    /// The status for this failure: a server error, on this endpoint only.
    pub fn status(&self) -> (r: u16)
        ensures
            r == SNAPSHOT_FAILED,
    {
        SNAPSHOT_FAILED
    }
}

/// What the metrics endpoint answers, given what the encoder made of the
/// registry's snapshot: `None` where it gave up, else its bytes.
pub open spec fn gathered(encoded: Option<Seq<u8>>) -> Result<Seq<char>, GatherError> {
    match encoded {
        None => Err(GatherError::Encoding),
        Some(bytes) => if valid_utf8(bytes) {
            Ok(decode_utf8(bytes))
        } else {
            Err(GatherError::NotText)
        },
    }
}

/// The view of optional bytes.
pub open spec fn bytes_view(encoded: Option<Vec<u8>>) -> Option<Seq<u8>> {
    match encoded {
        Some(bytes) => Some(bytes@),
        None => None,
    }
}

/// The view of a snapshot or its failure.
pub open spec fn gather_view(r: Result<String, GatherError>) -> Result<Seq<char>, GatherError> {
    match r {
        Ok(text) => Ok(text@),
        Err(e) => Err(e),
    }
}

/// Turns the encoder's outcome into the snapshot text, or into the failure
/// that the endpoint reports. Neither failure ends the process.
pub fn gather(encoded: Option<Vec<u8>>) -> (r: Result<String, GatherError>)
    ensures
        gather_view(r) == gathered(bytes_view(encoded)),
{
    match encoded {
        None => Err(GatherError::Encoding),
        Some(bytes) => match utf8_text(bytes) {
            Some(text) => Ok(text),
            None => Err(GatherError::NotText),
        },
    }
}

} // verus!

//! The transport contract consumed by the provider adapters.
//!
//! The library never performs network I/O itself: a chat is handed an
//! implementation of [`Client`], which carries a JSON payload to the
//! provider and brings a JSON response back. Implementations live with the
//! application (an HTTP client) and with the tests (a stub).

use vstd::prelude::*;

use crate::error::Error;
use crate::json::Json;

verus! {

/// Request transport: sends a JSON payload, returns the JSON response.
///
/// Nothing is assumed of the response: the adapters state what they do for
/// every document the transport may hand back.
pub trait Client {
    /// Send `payload` to `url` with the given headers and query parameters,
    /// and return the response document, or an error when the transport
    /// itself failed.
    fn make_json_request(
        &self,
        url: &str,
        payload: Json,
        headers: &Vec<(String, String)>,
        params: &Vec<(String, String)>,
    ) -> Result<Json, Error>;
}

} // verus!

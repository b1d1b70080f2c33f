//! Classification of health-probe responses, and the health URL itself.
//!
//! A probe is an HTTP GET against `/health` on the loopback address. The GET
//! itself happens outside the library; what comes back — nothing, or a status
//! code with a body — is classified here. The double-field check on the body
//! tells the expected backend apart from unrelated software that happens to
//! listen on the same port.

use vstd::prelude::*;
use vstd::string::StringExecFns;
use crate::digits::{spec_dec, u64_to_dec_string};

verus! {

/// Result of one liveness probe against a candidate endpoint.
pub enum HealthStatus {
    /// The service identified itself with the expected signature.
    Healthy { server_type: String },
    /// No HTTP response arrived at all (connection refused, timed out).
    Unreachable,
    /// An HTTP response arrived, but not from the expected backend.
    Unexpected { detail: String },
}

/// The string value a JSON document holds at a top-level key, when the
/// document parses as a JSON object and that key maps to a string.
pub uninterp spec fn json_string_field(body: Seq<char>, key: Seq<char>) -> Option<Seq<char>>;

/// Relies on serde_json::from_str, serde_json::Value::get and
/// serde_json::Value::as_str: parsing a document and reading the string value
/// at a top-level key is a function of the document's text and the key alone.
#[verifier::external_body]
fn lookup_string_field(body: &str, key: &str) -> (r: Option<String>)
    ensures
        r matches Some(s) ==> json_string_field(body@, key@) == Some(s@),
        r is None ==> json_string_field(body@, key@) is None,
{
    match serde_json::from_str::<serde_json::Value>(body) {
        Ok(value) => match value.get(key) {
            Some(field) => field.as_str().map(|s| s.to_string()),
            None => None,
        },
        Err(_) => None,
    }
}

/// The body shape that identifies the expected backend: a JSON object whose
/// `status` is the success token and whose `server_type` names the bundled
/// lightweight server.
pub open spec fn spec_expected_body(body: Seq<char>) -> bool {
    &&& json_string_field(body, "status"@) == Some("ok"@)
    &&& json_string_field(body, "server_type"@) == Some("lightweight"@)
}

/// A response proves liveness exactly when it is an HTTP 200 whose body has
/// the expected shape.
pub open spec fn spec_healthy_response(code: u16, body: Seq<char>) -> bool {
    code == 200 && spec_expected_body(body)
}

/// Classify an HTTP response that did arrive. Never returns `Unreachable`:
/// that variant is reserved for probes that got no response at all.
pub fn classify_response(code: u16, body: String) -> (h: HealthStatus)
    ensures
        (h is Healthy) == spec_healthy_response(code, body@),
        !(h is Unreachable),
        h matches HealthStatus::Healthy { server_type } ==> server_type@ == "lightweight"@,
        !spec_healthy_response(code, body@) ==> (h matches HealthStatus::Unexpected { detail }
            && detail@ == body@),
{
    if code == 200 {
        let status_field = lookup_string_field(body.as_str(), "status");
        let type_field = lookup_string_field(body.as_str(), "server_type");
        match (status_field, type_field) {
            (Some(status_value), Some(type_value)) => {
                let ok_token = String::from_str("ok");
                let expected_type = String::from_str("lightweight");
                if status_value == ok_token && type_value == expected_type {
                    HealthStatus::Healthy { server_type: type_value }
                } else {
                    HealthStatus::Unexpected { detail: body }
                }
            },
            _ => HealthStatus::Unexpected { detail: body },
        }
    } else {
        HealthStatus::Unexpected { detail: body }
    }
}

/// Classify the outcome of a whole probe: `None` when no response arrived
/// (connection failure or timeout), otherwise the status code and body text.
pub fn classify_probe(response: Option<(u16, String)>) -> (h: HealthStatus)
    ensures
        (h is Unreachable) == (response is None),
        response matches Some((code, body)) ==> {
            &&& (h is Healthy) == spec_healthy_response(code, body@)
            &&& (h matches HealthStatus::Healthy { server_type } ==> server_type@
                == "lightweight"@)
            &&& (!spec_healthy_response(code, body@) ==> (h matches HealthStatus::Unexpected {
                detail,
            } && detail@ == body@))
        },
{
    match response {
        None => HealthStatus::Unreachable,
        Some((code, body)) => classify_response(code, body),
    }
}

/// Whether a probe outcome proves the backend live.
pub fn is_healthy(h: &HealthStatus) -> (r: bool)
    ensures
        r == (h is Healthy),
{
    match h {
        HealthStatus::Healthy { .. } => true,
        _ => false,
    }
}

/// The URL probed for liveness: the fixed health path on loopback.
pub open spec fn spec_health_url(port: u16) -> Seq<char> {
    "http://127.0.0.1:"@ + spec_dec(port as nat) + "/health"@
}

pub fn health_url(port: u16) -> (r: String)
    ensures
        r@ == spec_health_url(port),
{
    let mut r = String::from_str("http://127.0.0.1:");
    let digits = u64_to_dec_string(port as u64);
    r.append(digits.as_str());
    r.append("/health");
    proof {
        assert(r@ =~= spec_health_url(port));
    }
    r
}

} // verus!

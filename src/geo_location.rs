use vstd::prelude::*;
use vstd::string::*;

use crate::error::{AppError, Fault};
use crate::text::{json_quoted, quote_json};

verus! {

/// The endpoint of the time-zone service.
pub const GEO_LOCATION_ENDPOINT: &'static str = "https://api.ipgeolocation.io/timezone";

/// The name under which the time-zone service's key is configured.
pub const GEO_LOCATION_API_KEY_VAR: &'static str = "IP_GEOLOCATION_API_KEY";

/// What the time-zone service reports for a place.
pub struct TimeResponse {
    /// The date there, `YYYY-MM-DD`.
    pub date: String,
    /// The time there on a 12-hour clock (`"08:30 PM"`).
    pub time_12: String,
}

/// The request that the time-zone service is sent for a place.
pub open spec fn time_url_of(api_key: Seq<char>, location: Seq<char>) -> Seq<char> {
    GEO_LOCATION_ENDPOINT@ + "?apiKey="@ + api_key + "&location="@ + location
}

/// Builds the request address for the time at `location` ("city,country").
pub fn time_url(api_key: &str, location: &str) -> (r: String)
    ensures
        r@ == time_url_of(api_key@, location@),
{
    let mut s = String::from_str(GEO_LOCATION_ENDPOINT);
    s.append("?apiKey=");
    s.append(api_key);
    s.append("&location=");
    s.append(location);
    s
}

/// The error for a time request that the service answered with a failure
/// status (`status` is that status, as text).
pub fn time_fetch_failed(status: &str) -> (r: AppError)
    ensures
        r@ == Fault::ApiRequestFailed("Failed to fetch time data: "@ + status@),
{
    let mut s = String::from_str("Failed to fetch time data: ");
    s.append(status);
    AppError::ApiRequestFailed(s)
}

/// The JSON object handed to the model for a time reading:
/// `{"time":"<date> <time>"}`.
pub open spec fn time_payload_of(t: TimeResponse) -> Seq<char> {
    "{\"time\":"@ + json_quoted(t.date@ + " "@ + t.time_12@) + "}"@
}

/// Writes the tool result for a time reading.
pub fn time_payload(t: &TimeResponse) -> (r: String)
    ensures
        r@ == time_payload_of(*t),
{
    let mut moment = t.date.clone();
    moment.append(" ");
    moment.append(t.time_12.as_str());
    let quoted = quote_json(moment.as_str());
    let mut s = String::from_str("{\"time\":");
    s.append(quoted.as_str());
    s.append("}");
    s
}

} // verus!

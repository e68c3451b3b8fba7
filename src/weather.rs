use vstd::prelude::*;
use vstd::string::*;

use crate::error::{AppError, Fault};
use crate::text::{decimal_of, decimal_text, json_quoted, quote_json};

verus! {

/// The endpoint of the current-weather service.
pub const WEATHER_ENDPOINT: &'static str = "https://api.weatherapi.com/v1/current.json";

/// The name under which the weather service's key is configured.
pub const WEATHER_API_KEY_VAR: &'static str = "WEATHER_API_KEY";

/// Temperature scale requested for a weather reading.
#[derive(Clone, Copy, Debug, PartialEq, Eq, Structural)]
pub enum TempUnit {
    Celsius,
    Fahrenheit,
}

/// What the weather service reports for a place.
pub struct WeatherResponse {
    /// The conditions now.
    pub current: CurrentWeather,
}

/// The current conditions of a place. Both temperatures are held as the
/// JSON number text that the service sent (`"20.5"`), so that they reach the
/// model exactly as they were read.
pub struct CurrentWeather {
    /// Temperature in degrees Celsius, as JSON number text.
    pub temp_c: String,
    /// Temperature in degrees Fahrenheit, as JSON number text.
    pub temp_f: String,
    /// Description of the sky.
    pub condition: WeatherCondition,
    /// Relative humidity in percent.
    pub humidity: i32,
}

/// A description of the weather condition (`"Partly cloudy"`).
pub struct WeatherCondition {
    pub text: String,
}

/// The request that the weather service is sent for a place.
pub open spec fn weather_url_of(api_key: Seq<char>, location: Seq<char>) -> Seq<char> {
    WEATHER_ENDPOINT@ + "?key="@ + api_key + "&q="@ + location
}

/// Builds the request address for the weather at `location` ("city,country").
pub fn weather_url(api_key: &str, location: &str) -> (r: String)
    ensures
        r@ == weather_url_of(api_key@, location@),
{
    let mut s = String::from_str(WEATHER_ENDPOINT);
    s.append("?key=");
    s.append(api_key);
    s.append("&q=");
    s.append(location);
    s
}

/// The error for a weather request that the service answered with a failure
/// status (`status` is that status, as text).
pub fn weather_fetch_failed(status: &str) -> (r: AppError)
    ensures
        r@ == Fault::ApiRequestFailed("Failed to fetch weather data: "@ + status@),
{
    let mut s = String::from_str("Failed to fetch weather data: ");
    s.append(status);
    AppError::ApiRequestFailed(s)
}

/// The temperature text that a reading gives in the requested unit.
pub open spec fn temperature_in(unit: TempUnit, current: CurrentWeather) -> Seq<char> {
    match unit {
        TempUnit::Celsius => current.temp_c@,
        TempUnit::Fahrenheit => current.temp_f@,
    }
}

/// The JSON object handed to the model for a weather reading:
/// `{"temperature":T,"condition":"C","humidity":H}`.
pub open spec fn weather_payload_of(unit: TempUnit, current: CurrentWeather) -> Seq<char> {
    "{\"temperature\":"@ + temperature_in(unit, current) + ",\"condition\":"@ + json_quoted(
        current.condition.text@,
    ) + ",\"humidity\":"@ + decimal_of(current.humidity as int) + "}"@
}

/// Writes the tool result for a weather reading, with the temperature in the
/// requested unit.
pub fn weather_payload(unit: TempUnit, current: &CurrentWeather) -> (r: String)
    ensures
        r@ == weather_payload_of(unit, *current),
{
    let mut s = String::from_str("{\"temperature\":");
    match unit {
        TempUnit::Celsius => s.append(current.temp_c.as_str()),
        TempUnit::Fahrenheit => s.append(current.temp_f.as_str()),
    }
    s.append(",\"condition\":");
    let condition = quote_json(current.condition.text.as_str());
    s.append(condition.as_str());
    s.append(",\"humidity\":");
    let humidity = decimal_text(current.humidity);
    s.append(humidity.as_str());
    s.append("}");
    s
}

} // verus!

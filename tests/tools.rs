use cloud_gemini::error::AppError;
use cloud_gemini::geo_location::{time_fetch_failed, time_payload, time_url, TimeResponse};
use cloud_gemini::tools::{
    failed_outcome, lookup_tool, plan_invocation, result_payload, time_outcome,
    tool_declarations, weather_outcome, ArgEntry, ArgValue, Arguments, ProviderRequest,
    ToolInvocation, ToolKind, ToolOutcome,
};
use cloud_gemini::weather::{
    weather_fetch_failed, weather_payload, weather_url, CurrentWeather, TempUnit,
    WeatherCondition, WeatherResponse,
};

fn text(key: &str, value: &str) -> ArgEntry {
    ArgEntry { key: key.to_string(), value: ArgValue::Text(value.to_string()) }
}

fn call(name: &str, entries: Vec<ArgEntry>) -> ToolInvocation {
    ToolInvocation {
        call_id: "call-1".to_string(),
        tool_name: name.to_string(),
        arguments: Arguments::Object(entries),
        arguments_json: "{}".to_string(),
    }
}

fn seattle(temp_c: &str, temp_f: &str, condition: &str, humidity: i32) -> WeatherResponse {
    WeatherResponse {
        current: CurrentWeather {
            temp_c: temp_c.to_string(),
            temp_f: temp_f.to_string(),
            condition: WeatherCondition { text: condition.to_string() },
            humidity,
        },
    }
}

fn failure_text(e: Result<ProviderRequest, AppError>) -> String {
    match e {
        Ok(_) => panic!("expected a refusal"),
        Err(e) => e.message(),
    }
}

#[test]
fn lookup_finds_registered_tools_only() {
    assert_eq!(lookup_tool("get_weather"), Some(ToolKind::Weather));
    assert_eq!(lookup_tool("get_current_time"), Some(ToolKind::CurrentTime));
    assert_eq!(lookup_tool("get_forecast"), None);
    assert_eq!(lookup_tool(""), None);
}

#[test]
fn weather_call_is_planned() {
    let inv = call(
        "get_weather",
        vec![text("city", "Seattle"), text("country", "US"), text("unit", "F")],
    );
    match plan_invocation(&inv) {
        Ok(ProviderRequest::Weather { location, unit }) => {
            assert_eq!(location, "Seattle,US");
            assert_eq!(unit, TempUnit::Fahrenheit);
        }
        _ => panic!("expected a weather request"),
    }
}

#[test]
fn time_call_is_planned() {
    let inv = call("get_current_time", vec![text("country", "GB"), text("city", "London")]);
    match plan_invocation(&inv) {
        Ok(ProviderRequest::Time { location }) => assert_eq!(location, "London,GB"),
        _ => panic!("expected a time request"),
    }
}

#[test]
fn unregistered_tool_is_unsupported() {
    let inv = call("get_forecast", vec![text("city", "Seattle")]);
    assert_eq!(failure_text(plan_invocation(&inv)), "unsupported tool: get_forecast");
}

#[test]
fn unsupported_tool_is_reported_before_arguments() {
    let mut inv = call("launch", vec![]);
    inv.arguments = Arguments::NotObject;
    assert_eq!(failure_text(plan_invocation(&inv)), "unsupported tool: launch");
}

#[test]
fn non_object_arguments_are_invalid() {
    let mut inv = call("get_weather", vec![]);
    inv.arguments = Arguments::NotObject;
    assert_eq!(failure_text(plan_invocation(&inv)), "invalid arguments");
}

#[test]
fn missing_city_is_reported() {
    let inv = call("get_weather", vec![text("country", "US"), text("unit", "C")]);
    assert_eq!(failure_text(plan_invocation(&inv)), "missing parameter: city");
}

#[test]
fn missing_country_is_reported() {
    let inv = call("get_current_time", vec![text("city", "Paris")]);
    assert_eq!(failure_text(plan_invocation(&inv)), "missing parameter: country");
}

#[test]
fn missing_unit_is_reported() {
    let inv = call("get_weather", vec![text("city", "Paris"), text("country", "FR")]);
    assert_eq!(failure_text(plan_invocation(&inv)), "missing parameter: unit");
}

#[test]
fn unit_outside_its_enum_is_reported() {
    let inv = call(
        "get_weather",
        vec![text("city", "Paris"), text("country", "FR"), text("unit", "K")],
    );
    assert_eq!(failure_text(plan_invocation(&inv)), "missing parameter: unit");
}

#[test]
fn non_string_parameter_is_reported() {
    let inv = call(
        "get_weather",
        vec![
            ArgEntry { key: "city".to_string(), value: ArgValue::Other },
            text("country", "FR"),
            text("unit", "C"),
        ],
    );
    assert_eq!(failure_text(plan_invocation(&inv)), "missing parameter: city");
}

#[test]
fn first_missing_parameter_is_the_one_reported() {
    let inv = call("get_weather", vec![text("unit", "C")]);
    assert_eq!(failure_text(plan_invocation(&inv)), "missing parameter: city");
}

#[test]
fn weather_payload_in_fahrenheit() {
    let w = seattle("20.0", "68.0", "Cloudy", 70);
    assert_eq!(
        weather_payload(TempUnit::Fahrenheit, &w.current),
        "{\"temperature\":68.0,\"condition\":\"Cloudy\",\"humidity\":70}"
    );
}

#[test]
fn weather_payload_in_celsius() {
    let w = seattle("-3.5", "25.7", "Light \"snow\"", -1);
    assert_eq!(
        weather_payload(TempUnit::Celsius, &w.current),
        "{\"temperature\":-3.5,\"condition\":\"Light \\\"snow\\\"\",\"humidity\":-1}"
    );
}

#[test]
fn weather_outcome_on_success_and_failure() {
    let ok = weather_outcome(TempUnit::Celsius, &Ok(seattle("12.0", "53.6", "Sunny", 40)));
    match ok {
        ToolOutcome::Success(p) => {
            assert_eq!(p, "{\"temperature\":12.0,\"condition\":\"Sunny\",\"humidity\":40}")
        }
        ToolOutcome::Failure(_) => panic!("expected success"),
    }
    let failed = weather_outcome(TempUnit::Celsius, &Err(weather_fetch_failed("404 Not Found")));
    match failed {
        ToolOutcome::Failure(d) => {
            assert_eq!(d, "API request failed: Failed to fetch weather data: 404 Not Found")
        }
        ToolOutcome::Success(_) => panic!("expected failure"),
    }
}

#[test]
fn time_payload_joins_date_and_time() {
    let t = TimeResponse { date: "2024-05-01".to_string(), time_12: "08:30 PM".to_string() };
    assert_eq!(time_payload(&t), "{\"time\":\"2024-05-01 08:30 PM\"}");
    match time_outcome(&Ok(t)) {
        ToolOutcome::Success(p) => assert_eq!(p, "{\"time\":\"2024-05-01 08:30 PM\"}"),
        ToolOutcome::Failure(_) => panic!("expected success"),
    }
}

#[test]
fn time_failure_is_described() {
    match time_outcome(&Err(time_fetch_failed("401 Unauthorized"))) {
        ToolOutcome::Failure(d) => {
            assert_eq!(d, "API request failed: Failed to fetch time data: 401 Unauthorized")
        }
        ToolOutcome::Success(_) => panic!("expected failure"),
    }
}

#[test]
fn failure_payload_is_an_error_object() {
    let o = failed_outcome(&AppError::EnvVarNotSet("WEATHER_API_KEY".to_string()));
    assert_eq!(
        result_payload(&o),
        "{\"error\":\"Environment variable not set: WEATHER_API_KEY\"}"
    );
    let q = ToolOutcome::Failure("bad \"quote\"\nline".to_string());
    assert_eq!(result_payload(&q), "{\"error\":\"bad \\\"quote\\\"\\nline\"}");
    let s = ToolOutcome::Success("{\"time\":\"x\"}".to_string());
    assert_eq!(result_payload(&s), "{\"time\":\"x\"}");
}

#[test]
fn error_messages() {
    let cases = vec![
        (AppError::MissingParameter("city".to_string()), "missing parameter: city"),
        (AppError::UnsupportedToolCall("x".to_string()), "unsupported tool: x"),
        (AppError::InvalidArguments, "invalid arguments"),
        (AppError::ApiRequestFailed("boom".to_string()), "API request failed: boom"),
        (AppError::EnvVarNotSet("K".to_string()), "Environment variable not set: K"),
        (AppError::ResponseParseError("p".to_string()), "Failed to parse API response: p"),
        (AppError::RequestError("r".to_string()), "HTTP request error: r"),
        (AppError::IoError("i".to_string()), "I/O error: i"),
        (AppError::JsonError("j".to_string()), "JSON error: j"),
    ];
    for (e, m) in cases {
        assert_eq!(e.message(), m);
    }
}

#[test]
fn request_addresses() {
    assert_eq!(
        weather_url("KEY", "London,GB"),
        "https://api.weatherapi.com/v1/current.json?key=KEY&q=London,GB"
    );
    assert_eq!(
        time_url("KEY", "London,GB"),
        "https://api.ipgeolocation.io/timezone?apiKey=KEY&location=London,GB"
    );
}

#[test]
fn credentials_per_provider() {
    let w = ProviderRequest::Weather { location: "a,b".to_string(), unit: TempUnit::Celsius };
    let t = ProviderRequest::Time { location: "a,b".to_string() };
    assert_eq!(w.credential_name(), "WEATHER_API_KEY");
    assert_eq!(t.credential_name(), "IP_GEOLOCATION_API_KEY");
}

#[test]
fn declarations_name_both_tools() {
    let d = tool_declarations();
    assert_eq!(d.len(), 2);
    assert_eq!(d[0].name, "get_weather");
    assert_eq!(d[1].name, "get_current_time");
    let schema: serde_json::Value = serde_json::from_str(&d[0].json_schema).unwrap();
    assert_eq!(schema["required"], serde_json::Value::from(vec!["city", "country", "unit"]));
    let schema: serde_json::Value = serde_json::from_str(&d[1].json_schema).unwrap();
    assert_eq!(schema["required"], serde_json::Value::from(vec!["city", "country"]));
}

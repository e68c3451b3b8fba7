use vstd::prelude::*;
use vstd::string::*;

use crate::error::{message_of, AppError, Fault};
use crate::geo_location::{
    time_payload, time_payload_of, TimeResponse, GEO_LOCATION_API_KEY_VAR,
};
use crate::text::{json_quoted, quote_json, same_text};
use crate::weather::{
    weather_payload, weather_payload_of, TempUnit, WeatherResponse, WEATHER_API_KEY_VAR,
};

verus! {

/// The name of the weather tool.
pub const WEATHER_TOOL: &'static str = "get_weather";

/// The name of the time tool.
pub const TIME_TOOL: &'static str = "get_current_time";

/// The tools that the model may call.
#[derive(Clone, Copy, Debug, PartialEq, Eq, Structural)]
pub enum ToolKind {
    Weather,
    CurrentTime,
}

/// A tool as it is advertised to the model: its name, what it does, and the
/// JSON schema of its arguments (as JSON text).
pub struct ToolDeclaration {
    pub name: String,
    pub description: String,
    pub json_schema: String,
}

/// One argument value of a tool call: a JSON string, or any other JSON value.
pub enum ArgValue {
    Text(String),
    Other,
}

/// One member of a JSON object of arguments.
pub struct ArgEntry {
    pub key: String,
    pub value: ArgValue,
}

/// The arguments of a tool call: a JSON object (its members in order), or a
/// JSON value that is not an object.
pub enum Arguments {
    Object(Vec<ArgEntry>),
    NotObject,
}

/// A call of a tool that the model asked for. `arguments_json` is the JSON
/// text of the arguments, kept so that the call can be shown to the model
/// again as it was made.
pub struct ToolInvocation {
    pub call_id: String,
    pub tool_name: String,
    pub arguments: Arguments,
    pub arguments_json: String,
}

/// What a provider is asked for, once a call's arguments are checked.
pub enum ProviderRequest {
    /// The weather at `location` ("city,country"), in `unit`.
    Weather { location: String, unit: TempUnit },
    /// The time at `location` ("city,country").
    Time { location: String },
}

/// The mathematical value of a `ProviderRequest`.
pub enum RequestV {
    Weather { location: Seq<char>, unit: TempUnit },
    Time { location: Seq<char> },
}

impl View for ProviderRequest {
    type V = RequestV;

    open spec fn view(&self) -> RequestV {
        match self {
            ProviderRequest::Weather { location, unit } => RequestV::Weather {
                location: location@,
                unit: *unit,
            },
            ProviderRequest::Time { location } => RequestV::Time { location: location@ },
        }
    }
}

/// The result of one tool call: the JSON payload of a success, or the
/// description of a failure.
pub enum ToolOutcome {
    Success(String),
    Failure(String),
}

/// The mathematical value of a `ToolOutcome`.
pub enum OutcomeV {
    Success(Seq<char>),
    Failure(Seq<char>),
}

impl View for ToolOutcome {
    type V = OutcomeV;

    open spec fn view(&self) -> OutcomeV {
        match self {
            ToolOutcome::Success(s) => OutcomeV::Success(s@),
            ToolOutcome::Failure(s) => OutcomeV::Failure(s@),
        }
    }
}

/// The system prompt that every conversation starts with.
pub const SYSTEM_PROMPT: &'static str = "Answer with one sentence or tool call. Send `exit` to stop.";

/// The JSON schema of the weather tool's arguments.
pub const WEATHER_SCHEMA: &'static str = "{\"type\":\"object\",\"properties\":{\"city\":{\"type\":\"string\",\"description\":\"City name in English, Latin script (e.g., \\\"Seattle\\\").\"},\"country\":{\"type\":\"string\",\"description\":\"ISO-3166-1 alpha-2 country code, e.g., \\\"US\\\".\"},\"unit\":{\"type\":\"string\",\"enum\":[\"C\",\"F\"],\"description\":\"Temperature unit (C for Celsius, F for Fahrenheit)\"}},\"required\":[\"city\",\"country\",\"unit\"]}";

/// The JSON schema of the time tool's arguments.
pub const TIME_SCHEMA: &'static str = "{\"type\":\"object\",\"properties\":{\"city\":{\"type\":\"string\",\"description\":\"City name in English, Latin script (e.g., \\\"Seattle\\\").\"},\"country\":{\"type\":\"string\",\"description\":\"ISO-3166-1 alpha-2 country code, e.g., \\\"US\\\".\"}},\"required\":[\"city\",\"country\"]}";

/// The tools advertised to the model: the weather tool, then the time tool.
pub fn tool_declarations() -> (r: Vec<ToolDeclaration>)
    ensures
        r@.len() == 2,
        r@[0].name@ == WEATHER_TOOL@,
        r@[0].description@ == "Get the current weather for a location"@,
        r@[0].json_schema@ == WEATHER_SCHEMA@,
        r@[1].name@ == TIME_TOOL@,
        r@[1].description@ == "Get the current time for a location"@,
        r@[1].json_schema@ == TIME_SCHEMA@,
        forall|i: int| 0 <= i < r@.len() ==> tool_named(#[trigger] r@[i].name@) is Some,
{
    let weather = ToolDeclaration {
        name: String::from_str(WEATHER_TOOL),
        description: String::from_str("Get the current weather for a location"),
        json_schema: String::from_str(WEATHER_SCHEMA),
    };
    let time = ToolDeclaration {
        name: String::from_str(TIME_TOOL),
        description: String::from_str("Get the current time for a location"),
        json_schema: String::from_str(TIME_SCHEMA),
    };
    vec![weather, time]
}

/// The registry: which tool a name stands for.
pub open spec fn tool_named(name: Seq<char>) -> Option<ToolKind> {
    if name == WEATHER_TOOL@ {
        Some(ToolKind::Weather)
    } else if name == TIME_TOOL@ {
        Some(ToolKind::CurrentTime)
    } else {
        None
    }
}

/// Looks a tool up by name; `None` where no tool has that name.
pub fn lookup_tool(name: &str) -> (r: Option<ToolKind>)
    ensures
        r == tool_named(name@),
{
    if same_text(name, WEATHER_TOOL) {
        Some(ToolKind::Weather)
    } else if same_text(name, TIME_TOOL) {
        Some(ToolKind::CurrentTime)
    } else {
        None
    }
}

/// The string value of the first member named `key` at or after position
/// `i`; `None` where there is none, or where its value is not a string.
pub open spec fn text_arg_from(entries: Seq<ArgEntry>, key: Seq<char>, i: int) -> Option<
    Seq<char>,
>
    decreases entries.len() - i,
{
    if i < 0 || i >= entries.len() {
        None
    } else if entries[i].key@ == key {
        match entries[i].value {
            ArgValue::Text(s) => Some(s@),
            ArgValue::Other => None,
        }
    } else {
        text_arg_from(entries, key, i + 1)
    }
}

/// The string value of the member named `key`, if it has one.
pub open spec fn text_arg(entries: Seq<ArgEntry>, key: Seq<char>) -> Option<Seq<char>> {
    text_arg_from(entries, key, 0)
}

/// Reads the string argument named `key`.
pub fn text_argument(entries: &Vec<ArgEntry>, key: &str) -> (r: Option<String>)
    ensures
        match r {
            Some(s) => text_arg(entries@, key@) == Some(s@),
            None => text_arg(entries@, key@) is None,
        },
{
    let mut i: usize = 0;
    while i < entries.len()
        invariant
            i <= entries.len(),
            text_arg(entries@, key@) == text_arg_from(entries@, key@, i as int),
        decreases entries.len() - i,
    {
        let e = &entries[i];
        if same_text(e.key.as_str(), key) {
            match &e.value {
                ArgValue::Text(s) => {
                    return Some(s.clone());
                },
                ArgValue::Other => {
                    return None;
                },
            }
        }
        i += 1;
    }
    None
}

/// The unit that an argument names: `"C"` or `"F"`.
pub open spec fn unit_named(s: Seq<char>) -> Option<TempUnit> {
    if s == "C"@ {
        Some(TempUnit::Celsius)
    } else if s == "F"@ {
        Some(TempUnit::Fahrenheit)
    } else {
        None
    }
}

/// The place that a provider is asked about: "city,country".
pub open spec fn location_of(city: Seq<char>, country: Seq<char>) -> Seq<char> {
    city + ","@ + country
}

/// What checking a call gives: the provider request it stands for, or the
/// fault that stops it. The tool is resolved first, then the arguments are
/// required to be an object, then each required parameter is read in turn
/// (city, country, and for the weather unit); the first that is missing or
/// not of its type is reported.
pub open spec fn planned(name: Seq<char>, args: Arguments) -> Result<RequestV, Fault> {
    match tool_named(name) {
        None => Err(Fault::UnsupportedToolCall(name)),
        Some(kind) => match args {
            Arguments::NotObject => Err(Fault::InvalidArguments),
            Arguments::Object(entries) => match text_arg(entries@, "city"@) {
                None => Err(Fault::MissingParameter("city"@)),
                Some(city) => match text_arg(entries@, "country"@) {
                    None => Err(Fault::MissingParameter("country"@)),
                    Some(country) => match kind {
                        ToolKind::CurrentTime => Ok(
                            RequestV::Time { location: location_of(city, country) },
                        ),
                        ToolKind::Weather => match text_arg(entries@, "unit"@) {
                            None => Err(Fault::MissingParameter("unit"@)),
                            Some(u) => match unit_named(u) {
                                None => Err(Fault::MissingParameter("unit"@)),
                                Some(unit) => Ok(
                                    RequestV::Weather { location: location_of(city, country), unit },
                                ),
                            },
                        },
                    },
                },
            },
        },
    }
}

/// The mathematical value of a checked call.
pub open spec fn plan_view(r: Result<ProviderRequest, AppError>) -> Result<RequestV, Fault> {
    match r {
        Ok(p) => Ok(p@),
        Err(e) => Err(e@),
    }
}

fn missing(name: &str) -> (r: AppError)
    ensures
        r@ == Fault::MissingParameter(name@),
{
    AppError::MissingParameter(String::from_str(name))
}

fn parse_unit(s: &String) -> (r: Option<TempUnit>)
    ensures
        r == unit_named(s@),
{
    if same_text(s.as_str(), "C") {
        Some(TempUnit::Celsius)
    } else if same_text(s.as_str(), "F") {
        Some(TempUnit::Fahrenheit)
    } else {
        None
    }
}

/// Checks a tool call and turns it into the request for its provider. A
/// call that fails the checks never yields a request, so no provider is
/// contacted for it.
pub fn plan_invocation(inv: &ToolInvocation) -> (r: Result<ProviderRequest, AppError>)
    ensures
        plan_view(r) == planned(inv.tool_name@, inv.arguments),
{
    let kind = match lookup_tool(inv.tool_name.as_str()) {
        Some(k) => k,
        None => {
            return Err(AppError::UnsupportedToolCall(inv.tool_name.clone()));
        },
    };
    let entries = match &inv.arguments {
        Arguments::Object(entries) => entries,
        Arguments::NotObject => {
            return Err(AppError::InvalidArguments);
        },
    };
    let city = match text_argument(entries, "city") {
        Some(c) => c,
        None => {
            return Err(missing("city"));
        },
    };
    let country = match text_argument(entries, "country") {
        Some(c) => c,
        None => {
            return Err(missing("country"));
        },
    };
    let mut location = city;
    location.append(",");
    location.append(country.as_str());
    match kind {
        ToolKind::CurrentTime => Ok(ProviderRequest::Time { location }),
        ToolKind::Weather => {
            let text = match text_argument(entries, "unit") {
                Some(u) => u,
                None => {
                    return Err(missing("unit"));
                },
            };
            match parse_unit(&text) {
                Some(unit) => Ok(ProviderRequest::Weather { location, unit }),
                None => Err(missing("unit")),
            }
        },
    }
}

impl ProviderRequest {
    /// The name under which the key of the provider that serves this request
    /// is configured.
    pub fn credential_name(&self) -> (r: &'static str)
        ensures
            r@ == match self {
                ProviderRequest::Weather { .. } => WEATHER_API_KEY_VAR@,
                ProviderRequest::Time { .. } => GEO_LOCATION_API_KEY_VAR@,
            },
    {
        match self {
            ProviderRequest::Weather { .. } => WEATHER_API_KEY_VAR,
            ProviderRequest::Time { .. } => GEO_LOCATION_API_KEY_VAR,
        }
    }
}

/// The outcome of a call that was refused, or whose provider failed: the
/// fault's description.
pub fn failed_outcome(e: &AppError) -> (r: ToolOutcome)
    ensures
        r@ == OutcomeV::Failure(message_of(e@)),
{
    ToolOutcome::Failure(e.message())
}

/// The outcome of a weather call, given what the provider returned.
pub fn weather_outcome(unit: TempUnit, fetched: &Result<WeatherResponse, AppError>) -> (r:
    ToolOutcome)
    ensures
        r@ == match fetched {
            Ok(w) => OutcomeV::Success(weather_payload_of(unit, w.current)),
            Err(e) => OutcomeV::Failure(message_of(e@)),
        },
{
    match fetched {
        Ok(w) => ToolOutcome::Success(weather_payload(unit, &w.current)),
        Err(e) => failed_outcome(e),
    }
}

/// The outcome of a time call, given what the provider returned.
pub fn time_outcome(fetched: &Result<TimeResponse, AppError>) -> (r: ToolOutcome)
    ensures
        r@ == match fetched {
            Ok(t) => OutcomeV::Success(time_payload_of(*t)),
            Err(e) => OutcomeV::Failure(message_of(e@)),
        },
{
    match fetched {
        Ok(t) => ToolOutcome::Success(time_payload(t)),
        Err(e) => failed_outcome(e),
    }
}

/// The JSON text that reports an outcome to the model: a success's payload
/// as it is, a failure as `{"error":"<description>"}`.
pub open spec fn result_payload_of(o: OutcomeV) -> Seq<char> {
    match o {
        OutcomeV::Success(p) => p,
        OutcomeV::Failure(d) => "{\"error\":"@ + json_quoted(d) + "}"@,
    }
}

/// Writes the JSON text that reports an outcome to the model.
pub fn result_payload(o: &ToolOutcome) -> (r: String)
    ensures
        r@ == result_payload_of(o@),
{
    match o {
        ToolOutcome::Success(p) => p.clone(),
        ToolOutcome::Failure(d) => {
            let quoted = quote_json(d.as_str());
            let mut s = String::from_str("{\"error\":");
            s.append(quoted.as_str());
            s.append("}");
            s
        },
    }
}

/// The first required parameter of a tool that is absent or not of its type:
/// city, then country, then for the weather the unit ("C" or "F").
pub open spec fn first_missing(kind: ToolKind, entries: Seq<ArgEntry>) -> Option<Seq<char>> {
    if text_arg(entries, "city"@) is None {
        Some("city"@)
    } else if text_arg(entries, "country"@) is None {
        Some("country"@)
    } else if kind == ToolKind::Weather && !(match text_arg(entries, "unit"@) {
        Some(u) => unit_named(u) is Some,
        None => false,
    }) {
        Some("unit"@)
    } else {
        None
    }
}

/// A call of a registered tool that lacks a required parameter yields no
/// provider request: it is refused, and the refusal's description names
/// that parameter. A call that lacks none is accepted.
pub proof fn lemma_missing_parameter_refused(name: Seq<char>, entries: Vec<ArgEntry>)
    requires
        tool_named(name) is Some,
    ensures
        match first_missing(tool_named(name)->Some_0, entries@) {
            Some(p) => {
                &&& planned(name, Arguments::Object(entries)) == Err::<RequestV, Fault>(
                    Fault::MissingParameter(p),
                )
                &&& message_of(Fault::MissingParameter(p)) == "missing parameter: "@ + p
            },
            None => planned(name, Arguments::Object(entries)) is Ok,
        },
{
}

/// A call that names no registered tool yields no provider request: it is
/// refused as "unsupported tool: <name>", whatever its arguments.
pub proof fn lemma_unsupported_tool_refused(name: Seq<char>, args: Arguments)
    requires
        tool_named(name) is None,
    ensures
        planned(name, args) == Err::<RequestV, Fault>(Fault::UnsupportedToolCall(name)),
        message_of(Fault::UnsupportedToolCall(name)) == "unsupported tool: "@ + name,
{
}

} // verus!

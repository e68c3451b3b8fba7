use cloud_gemini::conversation::{Conversation, Message, ModelReply, TurnStep};
use cloud_gemini::dispatch::{ToolRound, MAX_IN_FLIGHT};
use cloud_gemini::session::{read_line_action, LineAction, Session, Step};
use cloud_gemini::tools::{
    plan_invocation, tool_declarations, weather_outcome, ArgEntry, ArgValue, Arguments,
    ProviderRequest, ToolInvocation, ToolOutcome, SYSTEM_PROMPT,
};
use cloud_gemini::weather::{
    weather_fetch_failed, CurrentWeather, TempUnit, WeatherCondition, WeatherResponse,
};

fn text(key: &str, value: &str) -> ArgEntry {
    ArgEntry { key: key.to_string(), value: ArgValue::Text(value.to_string()) }
}

fn invocation(id: &str, name: &str, entries: Vec<ArgEntry>) -> ToolInvocation {
    ToolInvocation {
        call_id: id.to_string(),
        tool_name: name.to_string(),
        arguments: Arguments::Object(entries),
        arguments_json: "{}".to_string(),
    }
}

fn fresh_session() -> Session {
    Session::new(Conversation::new(SYSTEM_PROMPT.to_string(), tool_declarations()))
}

fn result_ids(messages: &[Message]) -> Vec<String> {
    messages
        .iter()
        .filter_map(|m| match m {
            Message::ToolResult { call_id, .. } => Some(call_id.clone()),
            _ => None,
        })
        .collect()
}

#[test]
fn exit_first_ends_before_any_model_call() {
    let mut s = fresh_session();
    assert_eq!(s.on_line("exit\n"), Step::Stop);
    assert!(s.is_finished());
    assert!(s.conversation().messages().is_empty());
    assert_eq!(s.on_reply(ModelReply::Text("late".to_string())), Step::Ignored);
    assert!(s.conversation().messages().is_empty());
}

#[test]
fn exit_with_surrounding_spaces_ends_the_session() {
    assert!(matches!(read_line_action("   exit  \n"), LineAction::Exit));
    assert!(matches!(read_line_action("Exit\n"), LineAction::Ask(_)));
}

#[test]
fn blank_lines_are_skipped() {
    assert!(matches!(read_line_action("   \n"), LineAction::Skip));
    assert!(matches!(read_line_action(">>  \n"), LineAction::Skip));
    let mut s = fresh_session();
    assert_eq!(s.on_line("\n"), Step::ReadLine);
    assert!(s.conversation().messages().is_empty());
}

#[test]
fn prompt_marks_and_spaces_are_removed() {
    match read_line_action("> what time is it in Paris?  \n") {
        LineAction::Ask(q) => assert_eq!(q, "what time is it in Paris?"),
        _ => panic!("expected a request"),
    }
}

#[test]
fn weather_in_seattle_end_to_end() {
    let mut s = fresh_session();
    assert_eq!(s.on_line("weather in Seattle, US in F\n"), Step::CallModel);
    let call = invocation(
        "call-7",
        "get_weather",
        vec![text("city", "Seattle"), text("country", "US"), text("unit", "F")],
    );
    assert_eq!(s.on_reply(ModelReply::ToolRequests(vec![call])), Step::RunTools);
    assert_eq!(s.start_next_tool(), Some(0));
    assert_eq!(s.start_next_tool(), None);
    let planned = plan_invocation(s.pending_call(0).unwrap());
    let unit = match planned {
        Ok(ProviderRequest::Weather { location, unit }) => {
            assert_eq!(location, "Seattle,US");
            unit
        }
        _ => panic!("expected a weather request"),
    };
    assert_eq!(unit, TempUnit::Fahrenheit);
    let reading = WeatherResponse {
        current: CurrentWeather {
            temp_c: "20.0".to_string(),
            temp_f: "68.0".to_string(),
            condition: WeatherCondition { text: "Cloudy".to_string() },
            humidity: 70,
        },
    };
    let outcome = weather_outcome(unit, &Ok(reading));
    assert_eq!(s.on_tool_done(0, outcome), Step::CallModel);
    let messages = s.conversation().messages();
    assert_eq!(messages.len(), 3);
    assert!(matches!(&messages[0], Message::UserText(t) if t == "weather in Seattle, US in F"));
    assert!(matches!(&messages[1], Message::AssistantToolRequest(v) if v.len() == 1));
    match &messages[2] {
        Message::ToolResult { call_id, payload } => {
            assert_eq!(call_id, "call-7");
            assert_eq!(payload, "{\"temperature\":68.0,\"condition\":\"Cloudy\",\"humidity\":70}");
        }
        _ => panic!("expected a tool result"),
    }
    let step = s.on_reply(ModelReply::Text(" It is 68F and cloudy in Seattle. ".to_string()));
    assert_eq!(step, Step::ReadLine);
    assert_eq!(
        s.conversation().last_answer().map(|a| a.as_str()),
        Some("It is 68F and cloudy in Seattle.")
    );
}

#[test]
fn provider_failure_keeps_the_session_going() {
    let mut s = fresh_session();
    s.on_line("weather in Oslo in C");
    let call = invocation(
        "c1",
        "get_weather",
        vec![text("city", "Oslo"), text("country", "NO"), text("unit", "C")],
    );
    s.on_reply(ModelReply::ToolRequests(vec![call]));
    assert_eq!(s.start_next_tool(), Some(0));
    let failed = weather_outcome(TempUnit::Celsius, &Err(weather_fetch_failed("500 Internal Server Error")));
    assert_eq!(s.on_tool_done(0, failed), Step::CallModel);
    assert!(!s.is_finished());
    match s.conversation().messages().last().unwrap() {
        Message::ToolResult { payload, .. } => assert_eq!(
            payload,
            "{\"error\":\"API request failed: Failed to fetch weather data: 500 Internal Server Error\"}"
        ),
        _ => panic!("expected a tool result"),
    }
    assert_eq!(s.on_reply(ModelReply::Text("Sorry.".to_string())), Step::ReadLine);
}

#[test]
fn at_most_three_of_five_calls_in_flight() {
    let calls: Vec<ToolInvocation> = (0..5)
        .map(|i| invocation(&format!("c{}", i), "get_current_time", vec![]))
        .collect();
    let mut round = ToolRound::new(calls, MAX_IN_FLIGHT);
    assert_eq!(round.start_next(), Some(0));
    assert_eq!(round.start_next(), Some(1));
    assert_eq!(round.start_next(), Some(2));
    assert_eq!(round.start_next(), None);
    assert_eq!(round.in_flight(), 3);
    assert!(round.finish(1, ToolOutcome::Failure("x".to_string())));
    assert_eq!(round.in_flight(), 2);
    assert_eq!(round.start_next(), Some(3));
    assert_eq!(round.start_next(), None);
    assert!(!round.finish(1, ToolOutcome::Failure("again".to_string())));
    assert!(!round.finish(4, ToolOutcome::Failure("not started".to_string())));
    assert!(round.in_flight() <= 3);
    assert!(!round.is_complete());
}

#[test]
fn results_carry_the_requested_ids_whatever_the_order() {
    let mut s = fresh_session();
    s.on_line("time in five places");
    let calls: Vec<ToolInvocation> = (0..5)
        .map(|i| {
            invocation(
                &format!("id-{}", i),
                "get_current_time",
                vec![text("city", "X"), text("country", "Y")],
            )
        })
        .collect();
    assert_eq!(s.on_reply(ModelReply::ToolRequests(calls)), Step::RunTools);
    let mut started = Vec::new();
    while let Some(i) = s.start_next_tool() {
        started.push(i);
    }
    assert_eq!(started, vec![0, 1, 2]);
    assert_eq!(s.on_tool_done(2, ToolOutcome::Success("{\"n\":2}".to_string())), Step::RunTools);
    assert_eq!(s.start_next_tool(), Some(3));
    assert_eq!(s.on_tool_done(0, ToolOutcome::Success("{\"n\":0}".to_string())), Step::RunTools);
    assert_eq!(s.start_next_tool(), Some(4));
    assert_eq!(s.start_next_tool(), None);
    assert_eq!(s.on_tool_done(4, ToolOutcome::Success("{\"n\":4}".to_string())), Step::RunTools);
    assert_eq!(s.on_tool_done(3, ToolOutcome::Success("{\"n\":3}".to_string())), Step::RunTools);
    assert_eq!(s.on_tool_done(1, ToolOutcome::Success("{\"n\":1}".to_string())), Step::CallModel);
    let messages = s.conversation().messages();
    assert_eq!(messages.len(), 7);
    assert_eq!(result_ids(messages), vec!["id-0", "id-1", "id-2", "id-3", "id-4"]);
    match &messages[5] {
        Message::ToolResult { payload, .. } => assert_eq!(payload, "{\"n\":3}"),
        _ => panic!("expected a tool result"),
    }
}

#[test]
fn model_answering_exit_ends_the_session() {
    let mut s = fresh_session();
    s.on_line("please stop");
    assert_eq!(s.on_reply(ModelReply::Text("exit\n".to_string())), Step::Stop);
    assert!(s.is_finished());
    assert_eq!(s.on_line("hello"), Step::Ignored);
}

#[test]
fn degraded_replies_get_a_fallback_answer() {
    let mut c = Conversation::new(SYSTEM_PROMPT.to_string(), tool_declarations());
    assert!(matches!(c.apply_reply(ModelReply::Empty), TurnStep::Done));
    assert_eq!(c.last_answer().map(|a| a.as_str()), Some("No response"));
    assert!(matches!(c.apply_reply(ModelReply::Unrecognized), TurnStep::Done));
    assert_eq!(c.last_answer().map(|a| a.as_str()), Some("Unsupported response type"));
    assert!(matches!(c.apply_reply(ModelReply::ToolRequests(vec![])), TurnStep::Done));
    assert_eq!(c.last_answer().map(|a| a.as_str()), Some("No response"));
    assert_eq!(c.messages().len(), 3);
}

#[test]
fn incomplete_round_is_handed_back() {
    let mut c = Conversation::new(SYSTEM_PROMPT.to_string(), tool_declarations());
    c.add_user_text("hi".to_string());
    let step = c.apply_reply(ModelReply::ToolRequests(vec![invocation("a", "get_weather", vec![])]));
    let round = match step {
        TurnStep::Dispatch(r) => r,
        TurnStep::Done => panic!("expected a round"),
    };
    assert_eq!(c.messages().len(), 1);
    let mut round = match c.close_round(round) {
        Err(r) => r,
        Ok(()) => panic!("an incomplete round must not close"),
    };
    assert_eq!(c.messages().len(), 1);
    assert_eq!(round.start_next(), Some(0));
    assert!(round.finish(0, ToolOutcome::Failure("missing parameter: city".to_string())));
    assert!(c.close_round(round).is_ok());
    assert_eq!(c.messages().len(), 3);
    assert_eq!(result_ids(c.messages()), vec!["a"]);
}

#[test]
fn same_inputs_give_the_same_transcript() {
    fn run() -> Vec<String> {
        let mut s = fresh_session();
        s.on_line("time in Rome");
        s.on_reply(ModelReply::ToolRequests(vec![invocation(
            "t1",
            "get_current_time",
            vec![text("city", "Rome"), text("country", "IT")],
        )]));
        s.start_next_tool();
        s.on_tool_done(0, ToolOutcome::Success("{\"time\":\"2024-01-01 09:00 AM\"}".to_string()));
        s.on_reply(ModelReply::Text("It is 9 AM.".to_string()));
        s.conversation()
            .messages()
            .iter()
            .map(|m| match m {
                Message::UserText(t) => format!("user:{}", t),
                Message::AssistantText(t) => format!("assistant:{}", t),
                Message::AssistantToolRequest(v) => format!("request:{}", v.len()),
                Message::ToolResult { call_id, payload } => format!("result:{}:{}", call_id, payload),
            })
            .collect()
    }
    let first = run();
    assert_eq!(first.len(), 4);
    assert_eq!(first, run());
}

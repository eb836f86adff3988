use weather_bot::dispatch::{
    dispatch, forecast_reply, plan, Action, Command, CommandInvocation, DispatchError,
    ForecastError, ForecastResult, Param, ParamValue,
};

fn text_param(name: &str, value: &str) -> Param {
    Param { name: name.to_string(), value: Some(ParamValue::Text(value.to_string())) }
}

fn invocation(name: &str, params: Vec<Param>) -> CommandInvocation {
    CommandInvocation { name: name.to_string(), params }
}

fn sunny_barcelona() -> Result<ForecastResult, ForecastError> {
    Ok(ForecastResult {
        resolved_location: "Barcelona".to_string(),
        headline_overview: "Sunny".to_string(),
    })
}

fn failed(cause: &str) -> Result<ForecastResult, ForecastError> {
    Err(ForecastError { cause: cause.to_string() })
}

fn ok_text(r: Result<String, DispatchError>) -> String {
    match r {
        Ok(s) => s,
        Err(e) => panic!("expected a reply, got {:?}", e),
    }
}

#[test]
fn hello_replies_with_greeting() {
    let inv = invocation("hello", vec![]);
    assert_eq!(ok_text(dispatch(&inv, &failed("x"))), "Que pasa pinyas");
}

#[test]
fn hello_ignores_parameters_and_outcome() {
    let inv = invocation("hello", vec![text_param("place", "Madrid"), text_param("x", "y")]);
    assert_eq!(ok_text(dispatch(&inv, &sunny_barcelona())), "Que pasa pinyas");
    assert_eq!(ok_text(dispatch(&inv, &failed("timeout"))), "Que pasa pinyas");
}

#[test]
fn weather_success_formats_forecast() {
    let inv = invocation("weather", vec![text_param("place", "Barcelona")]);
    assert_eq!(ok_text(dispatch(&inv, &sunny_barcelona())), "Forecast: Sunny in Barcelona");
}

#[test]
fn weather_failure_formats_error() {
    let inv = invocation("weather", vec![text_param("place", "Barcelona")]);
    assert_eq!(ok_text(dispatch(&inv, &failed("timeout"))), "Err: timeout");
}

#[test]
fn weather_without_place_is_error_reply() {
    let inv = invocation("weather", vec![]);
    let reply = ok_text(dispatch(&inv, &sunny_barcelona()));
    assert_eq!(reply, "Err: missing required parameter 'place'");
    assert!(matches!(plan(&inv), Action::Reply(_)));
}

#[test]
fn weather_with_place_but_no_value_is_error_reply() {
    let inv = invocation("weather", vec![Param { name: "place".to_string(), value: None }]);
    assert_eq!(
        ok_text(dispatch(&inv, &sunny_barcelona())),
        "Err: missing required parameter 'place'"
    );
}

#[test]
fn weather_with_non_text_place_is_error_reply() {
    let inv = invocation(
        "weather",
        vec![Param { name: "place".to_string(), value: Some(ParamValue::Integer(7)) }],
    );
    assert_eq!(ok_text(dispatch(&inv, &sunny_barcelona())), "Err: parameter 'place' is not text");
}

#[test]
fn weather_uses_first_place_parameter() {
    let inv = invocation(
        "weather",
        vec![text_param("city", "Paris"), text_param("place", "Girona"), text_param("place", "Reus")],
    );
    match plan(&inv) {
        Action::FetchForecast(place) => assert_eq!(place, "Girona"),
        other => panic!("unexpected action {:?}", other),
    }
}

#[test]
fn plan_hello_replies_at_once() {
    match plan(&invocation("hello", vec![])) {
        Action::Reply(text) => assert_eq!(text, "Que pasa pinyas"),
        other => panic!("unexpected action {:?}", other),
    }
}

#[test]
fn dispatch_is_deterministic() {
    let inv = invocation("weather", vec![text_param("place", "Barcelona")]);
    let first = ok_text(dispatch(&inv, &sunny_barcelona()));
    let second = ok_text(dispatch(&inv, &sunny_barcelona()));
    assert_eq!(first, second);
}

#[test]
fn unknown_command_is_internal_error() {
    let inv = invocation("weater", vec![text_param("place", "Barcelona")]);
    match dispatch(&inv, &sunny_barcelona()) {
        Err(DispatchError::UnknownCommand(name)) => assert_eq!(name, "weater"),
        Ok(s) => panic!("unknown command produced a reply: {}", s),
    }
    match plan(&inv) {
        Action::Reject(name) => assert_eq!(name, "weater"),
        other => panic!("unexpected action {:?}", other),
    }
}

#[test]
fn command_names_round_trip() {
    for c in [Command::Hello, Command::Weather] {
        assert_eq!(Command::parse(&c.name()), Some(c));
    }
    assert_eq!(Command::parse(&"Hello".to_string()), None);
    assert_eq!(Command::Weather.name(), "weather");
}

#[test]
fn forecast_reply_words_outcome() {
    let ok = Ok(ForecastResult {
        resolved_location: "Lleida, ES".to_string(),
        headline_overview: "Rain in the afternoon".to_string(),
    });
    assert_eq!(forecast_reply(&ok), "Forecast: Rain in the afternoon in Lleida, ES");
    assert_eq!(forecast_reply(&failed("")), "Err: ");
}

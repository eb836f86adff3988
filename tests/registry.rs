use weather_bot::dispatch::Command;
use weather_bot::registry::{command_specs, ParamKind};

#[test]
fn registry_has_two_commands() {
    let specs = command_specs();
    assert_eq!(specs.len(), 2);
    assert_eq!(specs[0].name, "hello");
    assert_eq!(specs[0].description, "Que pasa pinyas!");
    assert!(specs[0].params.is_empty());
    assert_eq!(specs[1].name, "weather");
    assert_eq!(specs[1].description, "Display the weather");
}

#[test]
fn weather_has_one_required_text_place() {
    let specs = command_specs();
    let params = &specs[1].params;
    assert_eq!(params.len(), 1);
    assert_eq!(params[0].name, "place");
    assert_eq!(params[0].description, "City to lookup forecast");
    assert_eq!(params[0].kind, ParamKind::Text);
    assert!(params[0].required);
}

#[test]
fn registered_names_are_dispatched() {
    for spec in command_specs() {
        let c = Command::parse(&spec.name).expect("registered name must dispatch");
        assert_eq!(c.name(), spec.name);
    }
}

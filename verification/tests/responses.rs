use kakaia::{Configuration, KakaiaResponse, Number, DEFAULT_BYTE_LIMIT};

#[test]
fn new_keeps_its_parts() {
    let response = KakaiaResponse::new("setTimer", "set timer for 5 seconds", "five seconds", Number::Integer(5));
    assert_eq!(response.command, "setTimer");
    assert_eq!(response.human, "set timer for 5 seconds");
    assert_eq!(response.raw, "five seconds");
    assert_eq!(response.result, Number::Integer(5));
}

#[test]
fn failure_has_no_command_and_no_result() {
    let response = KakaiaResponse::failure(
        "unexpected error creating a temporary file",
        "failed to create temporary file: denied",
    );
    assert_eq!(response.command, "none");
    assert_eq!(response.human, "unexpected error creating a temporary file");
    assert_eq!(response.raw, "failed to create temporary file: denied");
    assert_eq!(response.result, Number::Integer(0));
}

#[test]
fn temperature_message() {
    let response = KakaiaResponse::temperature(
        "what is 21.5 celsius in kelvin",
        "21.5",
        "celsius",
        "294.65",
        "kelvin",
        Number::Real(294.65f64.to_bits()),
    );
    assert_eq!(response.command, "convertTemperature");
    assert_eq!(response.human, "21.5 degrees celsius is 294.65 degrees kelvin");
    assert_eq!(response.raw, "what is 21.5 celsius in kelvin");
    assert_eq!(response.result, Number::Real(294.65f64.to_bits()));
}

#[test]
fn calculation_message() {
    let response = KakaiaResponse::calculation(
        "six times seven",
        "6",
        "times",
        "7",
        "42",
        Number::Real(42.0f64.to_bits()),
    );
    assert_eq!(response.command, "simpleCalculation");
    assert_eq!(response.human, "6 times 7 equals 42");
    assert_eq!(response.raw, "six times seven");
    assert_eq!(response.result, Number::Real(42.0f64.to_bits()));
}

#[test]
fn default_configuration() {
    let configuration = Configuration::default();
    assert_eq!(configuration.listen, "0.0.0.0:8088");
    assert_eq!(configuration.bytes, 4_194_304);
    assert_eq!(configuration.bytes, DEFAULT_BYTE_LIMIT);
    assert!(!configuration.store);
}

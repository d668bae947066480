use kakaia::{Number, ParsedIntent, Scalar, Slot, SlotValue, NLU};

fn value_of(fields: Vec<(&str, Scalar)>) -> SlotValue {
    let mut value = SlotValue::new();
    for (name, scalar) in fields {
        value.insert(name, scalar);
    }
    value
}

fn slot(entity: &str, slot_name: &str, value: SlotValue) -> Slot {
    Slot { entity: entity.to_string(), slot_name: slot_name.to_string(), value }
}

#[test]
fn slot_value_get_returns_what_was_inserted() {
    let mut value = SlotValue::new();
    assert!(value.get("value").is_none());
    value.insert("value", Scalar::Integer(7));
    value.insert("unit", Scalar::Text("celsius".to_string()));
    assert!(matches!(value.get("value"), Some(Scalar::Integer(7))));
    assert!(matches!(value.get("unit"), Some(Scalar::Text(text)) if text == "celsius"));
    assert!(value.get("Value").is_none());
    assert!(value.get("").is_none());
}

#[test]
fn slot_value_insert_replaces_an_earlier_binding() {
    let mut value = SlotValue::new();
    value.insert("value", Scalar::Integer(1));
    value.insert("other", Scalar::Other);
    value.insert("value", Scalar::Integer(2));
    assert!(matches!(value.get("value"), Some(Scalar::Integer(2))));
    assert!(matches!(value.get("other"), Some(Scalar::Other)));
}

#[test]
fn get_command_gives_the_intent_name_or_none() {
    let nlu = NLU {};
    let named = ParsedIntent { intent_name: Some("setTimer".to_string()), slots: vec![] };
    assert_eq!(nlu.get_command(&named), "setTimer");
    let other = ParsedIntent { intent_name: Some("playMusic".to_string()), slots: vec![] };
    assert_eq!(nlu.get_command(&other), "playMusic");
    let absent = ParsedIntent { intent_name: None, slots: vec![] };
    assert_eq!(nlu.get_command(&absent), "none");
}

#[test]
fn has_expected_slots_counts_exactly() {
    let nlu = NLU {};
    let mut parsed = ParsedIntent { intent_name: None, slots: vec![] };
    assert!(nlu.has_expected_slots(&parsed, 0));
    assert!(!nlu.has_expected_slots(&parsed, 1));
    parsed.slots.push(slot("snips/number", "first", SlotValue::new()));
    parsed.slots.push(slot("snips/number", "second", SlotValue::new()));
    assert!(nlu.has_expected_slots(&parsed, 2));
    assert!(!nlu.has_expected_slots(&parsed, 1));
    assert!(!nlu.has_expected_slots(&parsed, 3));
}

#[test]
fn get_slot_value_finds_by_entity_and_name() {
    let nlu = NLU {};
    let parsed = ParsedIntent {
        intent_name: Some("simpleCalculation".to_string()),
        slots: vec![
            slot("snips/number", "first", value_of(vec![("value", Scalar::Integer(3))])),
            slot("operation", "operation", value_of(vec![("value", Scalar::Text("plus".to_string()))])),
            slot("snips/number", "second", value_of(vec![("value", Scalar::Integer(4))])),
        ],
    };
    let second = nlu.get_slot_value(&parsed, "snips/number", "second");
    assert_eq!(nlu.get_float(second), Number::Integer(4));
    let first = nlu.get_slot_value(&parsed, "snips/number", "first");
    assert_eq!(nlu.get_float(first), Number::Integer(3));
    let operation = nlu.get_slot_value(&parsed, "operation", "operation");
    assert_eq!(nlu.get_string(operation), "plus");
    assert!(nlu.get_slot_value(&parsed, "snips/number", "third").is_none());
    assert!(nlu.get_slot_value(&parsed, "operation", "first").is_none());
    assert!(nlu.get_slot_value(&parsed, "snips/Number", "first").is_none());
}

#[test]
fn get_slot_value_takes_the_first_of_several() {
    let nlu = NLU {};
    let parsed = ParsedIntent {
        intent_name: None,
        slots: vec![
            slot("snips/number", "other", value_of(vec![("value", Scalar::Integer(9))])),
            slot("snips/number", "first", value_of(vec![("value", Scalar::Integer(1))])),
            slot("snips/number", "first", value_of(vec![("value", Scalar::Integer(2))])),
        ],
    };
    let found = nlu.get_slot_value(&parsed, "snips/number", "first");
    assert_eq!(nlu.get_float(found), Number::Integer(1));
}

#[test]
fn get_slot_value_of_no_slots_is_none() {
    let nlu = NLU {};
    let parsed = ParsedIntent { intent_name: None, slots: vec![] };
    assert!(nlu.get_slot_value(&parsed, "snips/duration", "duration").is_none());
}

#[test]
fn get_float_reads_numbers_and_defaults_to_zero() {
    let nlu = NLU {};
    let bits = 21.5f64.to_bits();
    let real = value_of(vec![("value", Scalar::Real(bits))]);
    assert_eq!(nlu.get_float(Some(&real)), Number::Real(bits));
    let integer = value_of(vec![("value", Scalar::Integer(-12))]);
    assert_eq!(nlu.get_float(Some(&integer)), Number::Integer(-12));
    let largest = value_of(vec![("value", Scalar::Integer(i64::MAX))]);
    assert_eq!(nlu.get_float(Some(&largest)), Number::Integer(i64::MAX as i128));
    let text = value_of(vec![("value", Scalar::Text("12".to_string()))]);
    assert_eq!(nlu.get_float(Some(&text)), Number::Integer(0));
    let other = value_of(vec![("value", Scalar::Other)]);
    assert_eq!(nlu.get_float(Some(&other)), Number::Integer(0));
    let elsewhere = value_of(vec![("amount", Scalar::Integer(5))]);
    assert_eq!(nlu.get_float(Some(&elsewhere)), Number::Integer(0));
    assert_eq!(nlu.get_float(None), Number::Integer(0));
}

#[test]
fn get_string_reads_text_and_defaults_to_empty() {
    let nlu = NLU {};
    let text = value_of(vec![("value", Scalar::Text("fahrenheit".to_string()))]);
    assert_eq!(nlu.get_string(Some(&text)), "fahrenheit");
    let number = value_of(vec![("value", Scalar::Integer(3))]);
    assert_eq!(nlu.get_string(Some(&number)), "");
    let elsewhere = value_of(vec![("unit", Scalar::Text("kelvin".to_string()))]);
    assert_eq!(nlu.get_string(Some(&elsewhere)), "");
    assert_eq!(nlu.get_string(None), "");
}

#[test]
fn get_string_custom_reads_the_named_field() {
    let nlu = NLU {};
    let value = value_of(vec![
        ("value", Scalar::Real(100.0f64.to_bits())),
        ("unit", Scalar::Text("celsius".to_string())),
    ]);
    assert_eq!(nlu.get_string_custom(Some(&value), "unit"), "celsius");
    assert_eq!(nlu.get_string_custom(Some(&value), "value"), "");
    assert_eq!(nlu.get_string_custom(Some(&value), "scale"), "");
    assert_eq!(nlu.get_string_custom(None, "unit"), "");
}

#[test]
fn duration_of_five_minutes() {
    let nlu = NLU {};
    let value = value_of(vec![("minutes", Scalar::Integer(5))]);
    assert_eq!(nlu.duration_as_seconds(&value), 300);
}

#[test]
fn duration_of_an_hour_and_a_half() {
    let nlu = NLU {};
    let value = value_of(vec![("hours", Scalar::Integer(1)), ("minutes", Scalar::Integer(30))]);
    assert_eq!(nlu.duration_as_seconds(&value), 5400);
}

#[test]
fn duration_weighs_each_field() {
    let nlu = NLU {};
    assert_eq!(nlu.duration_as_seconds(&value_of(vec![("seconds", Scalar::Integer(1))])), 1);
    assert_eq!(nlu.duration_as_seconds(&value_of(vec![("minutes", Scalar::Integer(1))])), 60);
    assert_eq!(nlu.duration_as_seconds(&value_of(vec![("hours", Scalar::Integer(1))])), 3600);
    assert_eq!(nlu.duration_as_seconds(&value_of(vec![("days", Scalar::Integer(1))])), 86400);
    assert_eq!(nlu.duration_as_seconds(&value_of(vec![("weeks", Scalar::Integer(1))])), 604800);
    assert_eq!(nlu.duration_as_seconds(&value_of(vec![("months", Scalar::Integer(1))])), 2592000);
    assert_eq!(nlu.duration_as_seconds(&value_of(vec![("years", Scalar::Integer(1))])), 31536000);
}

#[test]
fn duration_sums_all_fields() {
    let nlu = NLU {};
    let value = value_of(vec![
        ("kind", Scalar::Text("Duration".to_string())),
        ("years", Scalar::Integer(1)),
        ("quarters", Scalar::Integer(9)),
        ("months", Scalar::Integer(2)),
        ("weeks", Scalar::Integer(3)),
        ("days", Scalar::Integer(4)),
        ("hours", Scalar::Integer(5)),
        ("minutes", Scalar::Integer(6)),
        ("seconds", Scalar::Integer(7)),
        ("precision", Scalar::Text("Exact".to_string())),
    ]);
    assert_eq!(
        nlu.duration_as_seconds(&value),
        7 + 6 * 60 + 5 * 3600 + 4 * 86400 + 3 * 604800 + 2 * 2592000 + 31536000
    );
}

#[test]
fn duration_of_nothing_is_zero() {
    let nlu = NLU {};
    assert_eq!(nlu.duration_as_seconds(&SlotValue::new()), 0);
}

#[test]
fn duration_takes_fields_that_are_no_integers_as_zero() {
    let nlu = NLU {};
    let value = value_of(vec![
        ("seconds", Scalar::Real(2.5f64.to_bits())),
        ("minutes", Scalar::Text("5".to_string())),
        ("hours", Scalar::Other),
        ("days", Scalar::Integer(1)),
    ]);
    assert_eq!(nlu.duration_as_seconds(&value), 86400);
}

#[test]
fn duration_of_negative_and_extreme_fields() {
    let nlu = NLU {};
    let negative = value_of(vec![("minutes", Scalar::Integer(-2)), ("seconds", Scalar::Integer(30))]);
    assert_eq!(nlu.duration_as_seconds(&negative), -90);
    let extreme = value_of(vec![
        ("years", Scalar::Integer(i64::MAX)),
        ("months", Scalar::Integer(i64::MAX)),
    ]);
    assert_eq!(
        nlu.duration_as_seconds(&extreme),
        (i64::MAX as i128) * 31536000 + (i64::MAX as i128) * 2592000
    );
    let lowest = value_of(vec![("years", Scalar::Integer(i64::MIN))]);
    assert_eq!(nlu.duration_as_seconds(&lowest), (i64::MIN as i128) * 31536000);
}

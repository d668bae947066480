//! From a parsed intent to what is to be done.
//!
//! The intent's name selects a command. A command whose slot count is not the
//! one it takes is answered with "not understood". A timer is answered at
//! once. A temperature conversion and a calculation are handed back as a job:
//! their arithmetic is in floating point, which is the caller's to do, and
//! [`KakaiaResponse::temperature`] and [`KakaiaResponse::calculation`] then
//! make the response.

use vstd::prelude::*;
use vstd::string::StringExecFns;
use crate::command::{
    command_name, command_type_of, conversion_between, conversion_for, display_word,
    expected_slots, lemma_name_selects_command, operation_for, operation_named, operation_word,
    slot_arity, Conversion, KakaiaCommand, KakaiaCommandType, Operation,
};
use crate::nlu::{
    command_text, duration_seconds, number_field, slot_value, text_field, IntentModel,
    ParsedIntent, ScalarModel, SlotModel, NLU,
};
use crate::number::Number;
use crate::response::{KakaiaResponse, ResponseModel};
use crate::text::{signed_decimal, signed_decimal_string};

verus! {

/// A temperature to convert.
#[derive(Debug)]
pub struct TemperatureJob {
    pub degrees: Number,
    pub from_unit: String,
    pub to_unit: String,
    pub conversion: Conversion,
}

/// Two numbers to combine.
#[derive(Debug)]
pub struct CalculationJob {
    pub first: Number,
    pub second: Number,
    pub operation: Operation,
    pub word: String,
}

/// What a parsed intent asks for.
#[derive(Debug)]
pub enum Dispatch {
    /// Nothing is left to compute.
    Respond(KakaiaResponse),
    Convert(TemperatureJob),
    Calculate(CalculationJob),
}

/// The mathematical content of a [`Dispatch`].
pub ghost enum DispatchModel {
    Respond(ResponseModel),
    Convert { degrees: Number, from_unit: Seq<char>, to_unit: Seq<char>, conversion: Conversion },
    Calculate { first: Number, second: Number, operation: Operation, word: Seq<char> },
}

impl View for Dispatch {
    type V = DispatchModel;

    open spec fn view(&self) -> DispatchModel {
        match *self {
            Dispatch::Respond(response) => DispatchModel::Respond(response@),
            Dispatch::Convert(job) => DispatchModel::Convert {
                degrees: job.degrees,
                from_unit: job.from_unit@,
                to_unit: job.to_unit@,
                conversion: job.conversion,
            },
            Dispatch::Calculate(job) => DispatchModel::Calculate {
                first: job.first,
                second: job.second,
                operation: job.operation,
                word: job.word@,
            },
        }
    }
}

/// The command that an intent selects.
pub open spec fn selected_command(intent_name: Option<Seq<char>>) -> KakaiaCommandType {
    command_type_of(command_text(intent_name))
}

/// The number in the field `value` of a slot value, zero where there is no
/// slot value.
pub open spec fn number_of(value: Option<Map<Seq<char>, ScalarModel>>) -> Number {
    match value {
        Some(v) => number_field(v, "value"@),
        None => Number::Integer(0),
    }
}

/// The text in the field `name` of a slot value, empty where there is no slot
/// value.
pub open spec fn text_of(value: Option<Map<Seq<char>, ScalarModel>>, name: Seq<char>) -> Seq<
    char,
> {
    match value {
        Some(v) => text_field(v, name),
        None => Seq::empty(),
    }
}

/// The seconds that the duration slot of a timer intent comes to.
pub open spec fn timer_seconds(slots: Seq<SlotModel>) -> int {
    match slot_value(slots, "snips/duration"@, "duration"@) {
        Some(v) => duration_seconds(v),
        None => 0,
    }
}

/// The seconds of a timer are never beyond what the response can hold.
pub proof fn lemma_timer_seconds_in_range(slots: Seq<SlotModel>)
    ensures
        i128::MIN <= timer_seconds(slots) <= i128::MAX,
{
}

/// The response without a computation: the command's name, a message, the
/// transcript and zero.
pub open spec fn plain_response(
    command: KakaiaCommandType,
    human: Seq<char>,
    raw: Seq<char>,
) -> DispatchModel {
    DispatchModel::Respond(
        ResponseModel { command: command_name(command), human, raw, result: Number::Integer(0) },
    )
}

/// What an intent with its slots asks for, given the transcript it was
/// parsed from.
pub open spec fn dispatched(intent: IntentModel, raw: Seq<char>) -> DispatchModel {
    let slots = intent.slots;
    let command = selected_command(intent.intent_name);
    if command == KakaiaCommandType::NoCommand {
        plain_response(command, "no command"@, raw)
    } else if slots.len() != expected_slots(command) {
        plain_response(command, "not understood"@, raw)
    } else {
        match command {
            KakaiaCommandType::SetTimer => DispatchModel::Respond(
                ResponseModel {
                    command: command_name(command),
                    human: "set timer for "@ + signed_decimal(timer_seconds(slots)) + " seconds"@,
                    raw,
                    result: Number::Integer(timer_seconds(slots) as i128),
                },
            ),
            KakaiaCommandType::ConvertTemperature => {
                let from = slot_value(slots, "snips/temperature"@, "from"@);
                let to = slot_value(slots, "temperature_name"@, "to"@);
                DispatchModel::Convert {
                    degrees: number_of(from),
                    from_unit: text_of(from, "unit"@),
                    to_unit: text_of(to, "value"@),
                    conversion: conversion_between(text_of(from, "unit"@), text_of(to, "value"@)),
                }
            },
            _ => {
                let operation = operation_named(
                    text_of(slot_value(slots, "operation"@, "operation"@), "value"@),
                );
                DispatchModel::Calculate {
                    first: number_of(slot_value(slots, "snips/number"@, "first"@)),
                    second: number_of(slot_value(slots, "snips/number"@, "second"@)),
                    operation,
                    word: operation_word(operation),
                }
            },
        }
    }
}

/// An intent whose name selects a command, but whose slot count is not the
/// one that command takes, is answered with "not understood", the number zero
/// and the transcript as it came.
pub proof fn lemma_wrong_slot_count_not_understood(intent: IntentModel, raw: Seq<char>)
    requires
        selected_command(intent.intent_name) != KakaiaCommandType::NoCommand,
        intent.slots.len() != expected_slots(selected_command(intent.intent_name)),
    ensures
        dispatched(intent, raw) == DispatchModel::Respond(
            ResponseModel {
                command: command_name(selected_command(intent.intent_name)),
                human: "not understood"@,
                raw,
                result: Number::Integer(0),
            },
        ),
{
}

/// An intent without a name, or with a name that is none of the three known
/// ones, is answered with the command `none`, "no command" and the number
/// zero, whatever its slots.
pub proof fn lemma_unknown_intent_no_command(intent: IntentModel, raw: Seq<char>)
    requires
        intent.intent_name matches Some(name) ==> name != "setTimer"@ && name
            != "convertTemperature"@ && name != "simpleCalculation"@,
    ensures
        dispatched(intent, raw) == DispatchModel::Respond(
            ResponseModel {
                command: "none"@,
                human: "no command"@,
                raw,
                result: Number::Integer(0),
            },
        ),
{
    lemma_name_selects_command(KakaiaCommandType::NoCommand);
}

/// Decides what a parsed intent asks for. `raw` is the transcript that the
/// intent was parsed from.
pub fn dispatch(parsed: &ParsedIntent, raw: &str) -> (r: Dispatch)
    ensures
        r@ == dispatched(parsed@, raw@),
{
    let nlu = NLU {  };
    let name = nlu.get_command(parsed);
    let command = KakaiaCommand::from_str(name.as_str()).command;
    let canonical = KakaiaCommand::to_string(command);
    match command {
        KakaiaCommandType::NoCommand => Dispatch::Respond(
            KakaiaResponse::new(canonical.as_str(), "no command", raw, Number::Integer(0)),
        ),
        _ => {
            if !nlu.has_expected_slots(parsed, slot_arity(command)) {
                return Dispatch::Respond(
                    KakaiaResponse::new(
                        canonical.as_str(),
                        "not understood",
                        raw,
                        Number::Integer(0),
                    ),
                );
            }
            match command {
                KakaiaCommandType::SetTimer => {
                    let seconds = match nlu.get_slot_value(parsed, "snips/duration", "duration") {
                        Some(value) => nlu.duration_as_seconds(value),
                        None => 0,
                    };
                    let mut human = String::from_str("set timer for ");
                    human.append(signed_decimal_string(seconds).as_str());
                    human.append(" seconds");
                    Dispatch::Respond(
                        KakaiaResponse::new(
                            canonical.as_str(),
                            human.as_str(),
                            raw,
                            Number::Integer(seconds),
                        ),
                    )
                },
                KakaiaCommandType::ConvertTemperature => {
                    let from = nlu.get_slot_value(parsed, "snips/temperature", "from");
                    let degrees = nlu.get_float(from);
                    let from_unit = nlu.get_string_custom(from, "unit");
                    let to = nlu.get_slot_value(parsed, "temperature_name", "to");
                    let to_unit = nlu.get_string(to);
                    let conversion = conversion_for(from_unit.as_str(), to_unit.as_str());
                    Dispatch::Convert(TemperatureJob { degrees, from_unit, to_unit, conversion })
                },
                _ => {
                    let first = nlu.get_float(nlu.get_slot_value(parsed, "snips/number", "first"));
                    let second = nlu.get_float(
                        nlu.get_slot_value(parsed, "snips/number", "second"),
                    );
                    let name = nlu.get_string(
                        nlu.get_slot_value(parsed, "operation", "operation"),
                    );
                    let operation = operation_for(name.as_str());
                    let word = display_word(operation);
                    Dispatch::Calculate(CalculationJob { first, second, operation, word })
                },
            }
        },
    }
}

} // verus!

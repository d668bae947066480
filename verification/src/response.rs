//! The result of a request, as it is handed to the caller.

use vstd::prelude::*;
use vstd::string::StringExecFns;
use crate::number::Number;

verus! {

/// What a request came to: the command's name, a message for a person, the
/// transcript the command was read from, and a number.
#[derive(Debug)]
pub struct KakaiaResponse {
    pub command: String,
    pub human: String,
    pub raw: String,
    pub result: Number,
}

/// The mathematical content of a [`KakaiaResponse`].
pub ghost struct ResponseModel {
    pub command: Seq<char>,
    pub human: Seq<char>,
    pub raw: Seq<char>,
    pub result: Number,
}

impl View for KakaiaResponse {
    type V = ResponseModel;

    open spec fn view(&self) -> ResponseModel {
        ResponseModel {
            command: self.command@,
            human: self.human@,
            raw: self.raw@,
            result: self.result,
        }
    }
}

/// The message of a temperature conversion.
pub open spec fn temperature_message(
    degrees: Seq<char>,
    from_unit: Seq<char>,
    result: Seq<char>,
    to_unit: Seq<char>,
) -> Seq<char> {
    degrees + " degrees "@ + from_unit + " is "@ + result + " degrees "@ + to_unit
}

/// The message of a calculation.
pub open spec fn calculation_message(
    first: Seq<char>,
    word: Seq<char>,
    second: Seq<char>,
    result: Seq<char>,
) -> Seq<char> {
    first + " "@ + word + " "@ + second + " equals "@ + result
}

impl KakaiaResponse {
    /// A response with the given parts.
    pub fn new(command: &str, human: &str, raw: &str, result: Number) -> (r: KakaiaResponse)
        ensures
            r@ == (ResponseModel { command: command@, human: human@, raw: raw@, result }),
    {
        KakaiaResponse {
            command: String::from_str(command),
            human: String::from_str(human),
            raw: String::from_str(raw),
            result,
        }
    }

    /// The response to a request that failed before any command was found:
    /// no command, the number zero, and the failure's detail in place of a
    /// transcript.
    pub fn failure(human: &str, detail: &str) -> (r: KakaiaResponse)
        ensures
            r@ == (ResponseModel {
                command: "none"@,
                human: human@,
                raw: detail@,
                result: Number::Integer(0),
            }),
    {
        KakaiaResponse::new("none", human, detail, Number::Integer(0))
    }

    /// The response to a temperature conversion, from the converted number
    /// and the two numbers as they are to be shown.
    pub fn temperature(
        raw: &str,
        degrees: &str,
        from_unit: &str,
        result_text: &str,
        to_unit: &str,
        result: Number,
    ) -> (r: KakaiaResponse)
        ensures
            r@ == (ResponseModel {
                command: "convertTemperature"@,
                human: temperature_message(degrees@, from_unit@, result_text@, to_unit@),
                raw: raw@,
                result,
            }),
    {
        let mut human = String::from_str(degrees);
        human.append(" degrees ");
        human.append(from_unit);
        human.append(" is ");
        human.append(result_text);
        human.append(" degrees ");
        human.append(to_unit);
        KakaiaResponse {
            command: String::from_str("convertTemperature"),
            human,
            raw: String::from_str(raw),
            result,
        }
    }

    /// The response to a calculation, from its result and the numbers as they
    /// are to be shown.
    pub fn calculation(
        raw: &str,
        first: &str,
        word: &str,
        second: &str,
        result_text: &str,
        result: Number,
    ) -> (r: KakaiaResponse)
        ensures
            r@ == (ResponseModel {
                command: "simpleCalculation"@,
                human: calculation_message(first@, word@, second@, result_text@),
                raw: raw@,
                result,
            }),
    {
        let mut human = String::from_str(first);
        human.append(" ");
        human.append(word);
        human.append(" ");
        human.append(second);
        human.append(" equals ");
        human.append(result_text);
        KakaiaResponse {
            command: String::from_str("simpleCalculation"),
            human,
            raw: String::from_str(raw),
            result,
        }
    }
}

} // verus!

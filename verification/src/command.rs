//! The closed set of commands and the intent names that select them.

use vstd::prelude::*;
use vstd::string::StringExecFns;
use crate::text::same_text;

verus! {

/// The commands the service can carry out.
#[derive(Debug, Clone, Copy, PartialEq, Eq, Structural)]
pub enum KakaiaCommandType {
    NoCommand,
    SetTimer,
    ConvertTemperature,
    SimpleCalculation,
}

/// A command together with the intent name it was derived from.
#[derive(Debug)]
pub struct KakaiaCommand {
    pub command: KakaiaCommandType,
    pub string: String,
}

/// The command an intent name selects: an exact, case-sensitive match against
/// the three known names, and `NoCommand` for every other text.
pub open spec fn command_type_of(name: Seq<char>) -> KakaiaCommandType {
    if name == "setTimer"@ {
        KakaiaCommandType::SetTimer
    } else if name == "convertTemperature"@ {
        KakaiaCommandType::ConvertTemperature
    } else if name == "simpleCalculation"@ {
        KakaiaCommandType::SimpleCalculation
    } else {
        KakaiaCommandType::NoCommand
    }
}

/// The canonical name of a command.
pub open spec fn command_name(command: KakaiaCommandType) -> Seq<char> {
    match command {
        KakaiaCommandType::NoCommand => "none"@,
        KakaiaCommandType::SetTimer => "setTimer"@,
        KakaiaCommandType::ConvertTemperature => "convertTemperature"@,
        KakaiaCommandType::SimpleCalculation => "simpleCalculation"@,
    }
}

/// Each command is the one that its own canonical name selects.
pub proof fn lemma_name_selects_command(command: KakaiaCommandType)
    ensures
        command_type_of(command_name(command)) == command,
{
    reveal_strlit("none");
    reveal_strlit("setTimer");
    reveal_strlit("convertTemperature");
    reveal_strlit("simpleCalculation");
    assert("none"@.len() == 4);
    assert("setTimer"@.len() == 8);
    assert("convertTemperature"@.len() == 18);
    assert("simpleCalculation"@.len() == 17);
}

impl KakaiaCommand {
    /// Derives the command from an intent name, keeping the name as given.
    pub fn from_str(command_str: &str) -> (r: KakaiaCommand)
        ensures
            r.command == command_type_of(command_str@),
            r.string@ == command_str@,
    {
        let command_type = if same_text(command_str, "setTimer") {
            KakaiaCommandType::SetTimer
        } else if same_text(command_str, "convertTemperature") {
            KakaiaCommandType::ConvertTemperature
        } else if same_text(command_str, "simpleCalculation") {
            KakaiaCommandType::SimpleCalculation
        } else {
            KakaiaCommandType::NoCommand
        };
        KakaiaCommand { command: command_type, string: String::from_str(command_str) }
    }

    /// The canonical name of a command.
    pub fn to_string(command_type: KakaiaCommandType) -> (r: String)
        ensures
            r@ == command_name(command_type),
    {
        match command_type {
            KakaiaCommandType::NoCommand => String::from_str("none"),
            KakaiaCommandType::SetTimer => String::from_str("setTimer"),
            KakaiaCommandType::ConvertTemperature => String::from_str("convertTemperature"),
            KakaiaCommandType::SimpleCalculation => String::from_str("simpleCalculation"),
        }
    }
}

/// How many slots a command takes.
pub open spec fn expected_slots(command: KakaiaCommandType) -> nat {
    match command {
        KakaiaCommandType::NoCommand => 0,
        KakaiaCommandType::SetTimer => 1,
        KakaiaCommandType::ConvertTemperature => 2,
        KakaiaCommandType::SimpleCalculation => 3,
    }
}

/// How many slots a command takes.
pub fn slot_arity(command: KakaiaCommandType) -> (r: usize)
    ensures
        r == expected_slots(command),
{
    match command {
        KakaiaCommandType::NoCommand => 0,
        KakaiaCommandType::SetTimer => 1,
        KakaiaCommandType::ConvertTemperature => 2,
        KakaiaCommandType::SimpleCalculation => 3,
    }
}

/// The formula that takes a temperature from one scale to another.
#[derive(Debug, Clone, Copy, PartialEq, Eq, Structural)]
pub enum Conversion {
    /// `x * 1.8 + 32`
    CelsiusToFahrenheit,
    /// `x + 273.15`
    CelsiusToKelvin,
    /// `(x - 32) / 1.8`
    FahrenheitToCelsius,
    /// `(x - 32) / 1.8 + 273.15`
    FahrenheitToKelvin,
    /// `x - 273.15`
    KelvinToCelsius,
    /// `(x - 273.15) * 1.8 + 32`
    KelvinToFahrenheit,
    /// The same scale twice, or a scale that is not known: the result is zero.
    Undefined,
}

/// The conversion between two scales, named `celsius`, `fahrenheit` and
/// `kelvin`.
pub open spec fn conversion_between(from_unit: Seq<char>, to_unit: Seq<char>) -> Conversion {
    if from_unit == "celsius"@ {
        if to_unit == "fahrenheit"@ {
            Conversion::CelsiusToFahrenheit
        } else if to_unit == "kelvin"@ {
            Conversion::CelsiusToKelvin
        } else {
            Conversion::Undefined
        }
    } else if from_unit == "fahrenheit"@ {
        if to_unit == "celsius"@ {
            Conversion::FahrenheitToCelsius
        } else if to_unit == "kelvin"@ {
            Conversion::FahrenheitToKelvin
        } else {
            Conversion::Undefined
        }
    } else if from_unit == "kelvin"@ {
        if to_unit == "celsius"@ {
            Conversion::KelvinToCelsius
        } else if to_unit == "fahrenheit"@ {
            Conversion::KelvinToFahrenheit
        } else {
            Conversion::Undefined
        }
    } else {
        Conversion::Undefined
    }
}

/// What a conversion makes of a temperature, in exact arithmetic. Whoever
/// carries a conversion out in floating point computes an approximation of
/// this.
pub open spec fn converted(conversion: Conversion, degrees: real) -> real {
    match conversion {
        Conversion::CelsiusToFahrenheit => degrees * 9real / 5real + 32real,
        Conversion::CelsiusToKelvin => degrees + 27315real / 100real,
        Conversion::FahrenheitToCelsius => (degrees - 32real) * 5real / 9real,
        Conversion::FahrenheitToKelvin => (degrees - 32real) * 5real / 9real + 27315real
            / 100real,
        Conversion::KelvinToCelsius => degrees - 27315real / 100real,
        Conversion::KelvinToFahrenheit => (degrees - 27315real / 100real) * 9real / 5real
            + 32real,
        Conversion::Undefined => 0real,
    }
}

/// The conversion that leads back.
pub open spec fn inverse(conversion: Conversion) -> Conversion {
    match conversion {
        Conversion::CelsiusToFahrenheit => Conversion::FahrenheitToCelsius,
        Conversion::CelsiusToKelvin => Conversion::KelvinToCelsius,
        Conversion::FahrenheitToCelsius => Conversion::CelsiusToFahrenheit,
        Conversion::FahrenheitToKelvin => Conversion::KelvinToFahrenheit,
        Conversion::KelvinToCelsius => Conversion::CelsiusToKelvin,
        Conversion::KelvinToFahrenheit => Conversion::FahrenheitToKelvin,
        Conversion::Undefined => Conversion::Undefined,
    }
}

/// In exact arithmetic a temperature that is converted and converted back is
/// the temperature itself.
pub proof fn lemma_conversion_round_trip(conversion: Conversion, degrees: real)
    requires
        conversion != Conversion::Undefined,
    ensures
        converted(inverse(conversion), converted(conversion, degrees)) == degrees,
{
}

/// In exact arithmetic the way from Fahrenheit to Kelvin, or back, leads
/// through Celsius.
pub proof fn lemma_conversion_through_celsius(degrees: real)
    ensures
        converted(Conversion::FahrenheitToKelvin, degrees) == converted(
            Conversion::CelsiusToKelvin,
            converted(Conversion::FahrenheitToCelsius, degrees),
        ),
        converted(Conversion::KelvinToFahrenheit, degrees) == converted(
            Conversion::CelsiusToFahrenheit,
            converted(Conversion::KelvinToCelsius, degrees),
        ),
{
}

/// The inverse of the conversion between two scales is the conversion
/// between them the other way round.
pub proof fn lemma_inverse_swaps_scales(from_unit: Seq<char>, to_unit: Seq<char>)
    ensures
        inverse(conversion_between(from_unit, to_unit)) == conversion_between(to_unit, from_unit),
{
    reveal_strlit("celsius");
    reveal_strlit("fahrenheit");
    reveal_strlit("kelvin");
    assert("celsius"@.len() == 7);
    assert("fahrenheit"@.len() == 10);
    assert("kelvin"@.len() == 6);
}

/// The conversion between two scales.
pub fn conversion_for(from_unit: &str, to_unit: &str) -> (r: Conversion)
    ensures
        r == conversion_between(from_unit@, to_unit@),
{
    if same_text(from_unit, "celsius") {
        if same_text(to_unit, "fahrenheit") {
            Conversion::CelsiusToFahrenheit
        } else if same_text(to_unit, "kelvin") {
            Conversion::CelsiusToKelvin
        } else {
            Conversion::Undefined
        }
    } else if same_text(from_unit, "fahrenheit") {
        if same_text(to_unit, "celsius") {
            Conversion::FahrenheitToCelsius
        } else if same_text(to_unit, "kelvin") {
            Conversion::FahrenheitToKelvin
        } else {
            Conversion::Undefined
        }
    } else if same_text(from_unit, "kelvin") {
        if same_text(to_unit, "celsius") {
            Conversion::KelvinToCelsius
        } else if same_text(to_unit, "fahrenheit") {
            Conversion::KelvinToFahrenheit
        } else {
            Conversion::Undefined
        }
    } else {
        Conversion::Undefined
    }
}

/// An arithmetic operation on two numbers.
#[derive(Debug, Clone, Copy, PartialEq, Eq, Structural)]
pub enum Operation {
    Plus,
    Minus,
    Multiply,
    Divide,
    /// A name that is not known: the result is zero.
    Unknown,
}

/// The operation that a name stands for.
pub open spec fn operation_named(name: Seq<char>) -> Operation {
    if name == "plus"@ {
        Operation::Plus
    } else if name == "minus"@ {
        Operation::Minus
    } else if name == "multiply"@ {
        Operation::Multiply
    } else if name == "divide"@ {
        Operation::Divide
    } else {
        Operation::Unknown
    }
}

/// The word that shows an operation in a message.
pub open spec fn operation_word(operation: Operation) -> Seq<char> {
    match operation {
        Operation::Plus => "plus"@,
        Operation::Minus => "minus"@,
        Operation::Multiply => "times"@,
        Operation::Divide => "divided by"@,
        Operation::Unknown => "???"@,
    }
}

/// What an operation makes of two numbers, in exact arithmetic. A division
/// by zero is left open here, as it is left to the arithmetic of whoever
/// carries the operation out.
pub open spec fn calculated(operation: Operation, first: real, second: real) -> real {
    match operation {
        Operation::Plus => first + second,
        Operation::Minus => first - second,
        Operation::Multiply => first * second,
        Operation::Divide => first / second,
        Operation::Unknown => 0real,
    }
}

/// The operation that a name stands for.
pub fn operation_for(name: &str) -> (r: Operation)
    ensures
        r == operation_named(name@),
{
    if same_text(name, "plus") {
        Operation::Plus
    } else if same_text(name, "minus") {
        Operation::Minus
    } else if same_text(name, "multiply") {
        Operation::Multiply
    } else if same_text(name, "divide") {
        Operation::Divide
    } else {
        Operation::Unknown
    }
}

/// The word that shows an operation in a message.
pub fn display_word(operation: Operation) -> (r: String)
    ensures
        r@ == operation_word(operation),
{
    match operation {
        Operation::Plus => String::from_str("plus"),
        Operation::Minus => String::from_str("minus"),
        Operation::Multiply => String::from_str("times"),
        Operation::Divide => String::from_str("divided by"),
        Operation::Unknown => String::from_str("???"),
    }
}

} // verus!

//! Where audio and transcript are kept: a directory for each day, and in it
//! files named by the time of day.

use vstd::prelude::*;
use vstd::string::StringExecFns;
use crate::text::{decimal, decimal_string};

verus! {

/// A number in at least two digits.
pub open spec fn two_digits(n: nat) -> Seq<char> {
    if n < 10 {
        "0"@ + decimal(n)
    } else {
        decimal(n)
    }
}

/// A year in at least four digits.
pub open spec fn year_digits(year: nat) -> Seq<char> {
    if year < 10 {
        "000"@ + decimal(year)
    } else if year < 100 {
        "00"@ + decimal(year)
    } else if year < 1000 {
        "0"@ + decimal(year)
    } else {
        decimal(year)
    }
}

/// The directory of a day: `archive/`, then year, month and day, each
/// followed by a slash.
pub open spec fn directory_of(year: nat, month: nat, day: nat) -> Seq<char> {
    "archive/"@ + year_digits(year) + "/"@ + two_digits(month) + "/"@ + two_digits(day) + "/"@
}

/// The path, without extension, of what was received at a time of day.
pub open spec fn base_of(directory: Seq<char>, hour: nat, minute: nat, second: nat) -> Seq<char> {
    directory + "/audio-"@ + two_digits(hour) + "-"@ + two_digits(minute) + "-"@ + two_digits(
        second,
    )
}

fn two_digit_string(n: u8) -> (r: String)
    ensures
        r@ == two_digits(n as nat),
{
    let digits = decimal_string(n as u128);
    if n < 10 {
        let mut text = String::from_str("0");
        text.append(digits.as_str());
        text
    } else {
        digits
    }
}

/// The directory of a day.
pub fn archive_directory(year: u32, month: u8, day: u8) -> (r: String)
    ensures
        r@ == directory_of(year as nat, month as nat, day as nat),
{
    let mut path = String::from_str("archive/");
    if year < 10 {
        path.append("000");
    } else if year < 100 {
        path.append("00");
    } else if year < 1000 {
        path.append("0");
    }
    path.append(decimal_string(year as u128).as_str());
    path.append("/");
    path.append(two_digit_string(month).as_str());
    path.append("/");
    path.append(two_digit_string(day).as_str());
    path.append("/");
    assert(path@ =~= directory_of(year as nat, month as nat, day as nat));
    path
}

/// The path, without extension, of what was received at a time of day.
pub fn archive_base(directory: &str, hour: u8, minute: u8, second: u8) -> (r: String)
    ensures
        r@ == base_of(directory@, hour as nat, minute as nat, second as nat),
{
    let mut path = String::from_str(directory);
    path.append("/audio-");
    path.append(two_digit_string(hour).as_str());
    path.append("-");
    path.append(two_digit_string(minute).as_str());
    path.append("-");
    path.append(two_digit_string(second).as_str());
    path
}

/// The path of the audio: the base, a dot and the file extension.
pub fn archive_audio_path(base: &str, extension: &str) -> (r: String)
    ensures
        r@ == base@ + "."@ + extension@,
{
    let mut path = String::from_str(base);
    path.append(".");
    path.append(extension);
    path
}

/// The path of the transcript: the base and `.txt`.
pub fn archive_text_path(base: &str) -> (r: String)
    ensures
        r@ == base@ + ".txt"@,
{
    let mut path = String::from_str(base);
    path.append(".txt");
    path
}

} // verus!

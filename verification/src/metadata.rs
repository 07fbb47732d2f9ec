//! Description of a model for the GUI.

use vstd::prelude::*;
use vstd::string::StringExecFns;
use crate::shared::NamModelMetadata;

verus! {

/// A date of which parts may be missing.
#[derive(Clone, Copy, Debug, PartialEq, Eq, Structural)]
pub struct ModelDate {
    pub year: Option<u32>,
    pub month: Option<u32>,
    pub day: Option<u32>,
}

/// What a model file says about the model.
#[derive(Debug)]
pub struct ModelMetadata {
    pub modeled_by: Option<String>,
    pub gear_make: Option<String>,
    pub gear_model: Option<String>,
    pub gear_type: Option<String>,
    pub tone_type: Option<String>,
    pub date: Option<ModelDate>,
}

/// The character of a digit.
pub open spec fn digit(d: int) -> char {
    if d == 0 {
        '0'
    } else if d == 1 {
        '1'
    } else if d == 2 {
        '2'
    } else if d == 3 {
        '3'
    } else if d == 4 {
        '4'
    } else if d == 5 {
        '5'
    } else if d == 6 {
        '6'
    } else if d == 7 {
        '7'
    } else if d == 8 {
        '8'
    } else {
        '9'
    }
}

/// `n` in decimal, with zeros in front up to `width` digits.
pub open spec fn padded(n: nat, width: nat) -> Seq<char>
    decreases n, width,
{
    if n < 10 && width <= 1 {
        seq![digit(n as int)]
    } else {
        padded(n / 10, if width > 0 {
            (width - 1) as nat
        } else {
            0
        }).push(digit((n % 10) as int))
    }
}

/// A date as it is shown: as far as it is known from the year on, nothing without a year.
pub open spec fn shown_date(date: ModelDate) -> Option<Seq<char>> {
    match (date.year, date.month, date.day) {
        (Some(y), Some(m), Some(d)) => Some(
            padded(y as nat, 4) + seq!['-'] + padded(m as nat, 2) + seq!['-'] + padded(
                d as nat,
                2,
            ),
        ),
        (Some(y), Some(m), None) => Some(padded(y as nat, 4) + seq!['-'] + padded(m as nat, 2)),
        (Some(y), None, None) => Some(padded(y as nat, 4)),
        _ => None,
    }
}

fn append_digit(text: &mut String, d: u32)
    requires
        d < 10,
    ensures
        final(text)@ == old(text)@.push(digit(d as int)),
{
    proof {
        reveal_strlit("0");
        reveal_strlit("1");
        reveal_strlit("2");
        reveal_strlit("3");
        reveal_strlit("4");
        reveal_strlit("5");
        reveal_strlit("6");
        reveal_strlit("7");
        reveal_strlit("8");
        reveal_strlit("9");
    }
    let figure: &str = match d {
        0 => "0",
        1 => "1",
        2 => "2",
        3 => "3",
        4 => "4",
        5 => "5",
        6 => "6",
        7 => "7",
        8 => "8",
        _ => "9",
    };
    text.append(figure);
    assert(text@ =~= old(text)@.push(digit(d as int)));
}

fn append_padded(text: &mut String, n: u32, width: u32)
    ensures
        final(text)@ == old(text)@ + padded(n as nat, width as nat),
    decreases n, width,
{
    if n >= 10 || width > 1 {
        append_padded(text, n / 10, if width > 0 { width - 1 } else { 0 });
    }
    append_digit(text, n % 10);
    assert(text@ =~= old(text)@ + padded(n as nat, width as nat));
}

fn append_dash(text: &mut String)
    ensures
        final(text)@ == old(text)@ + seq!['-'],
{
    proof {
        reveal_strlit("-");
    }
    text.append("-");
    assert(text@ =~= old(text)@ + seq!['-']);
}

/// Formats a date as far as it is known.
pub fn format_date(date: ModelDate) -> (text: Option<String>)
    ensures
        text is Some <==> shown_date(date) is Some,
        text is Some ==> text->Some_0@ == shown_date(date)->Some_0,
{
    match date.year {
        None => None,
        Some(y) => {
            if date.month.is_none() && date.day.is_some() {
                return None;
            }
            let mut text = String::new();
            append_padded(&mut text, y, 4);
            assert(text@ =~= padded(y as nat, 4));
            if let Some(m) = date.month {
                append_dash(&mut text);
                append_padded(&mut text, m, 2);
                if let Some(d) = date.day {
                    append_dash(&mut text);
                    append_padded(&mut text, d, 2);
                }
            }
            Some(text)
        },
    }
}

/// `shown` describes a model for the GUI.
pub open spec fn describes(
    shown: NamModelMetadata,
    architecture: Seq<char>,
    topology: Seq<char>,
    sample_rate: u32,
    metadata: Option<ModelMetadata>,
) -> bool {
    &&& shown.architecture@ == architecture
    &&& shown.topology@ == topology
    &&& shown.sample_rate == sample_rate
    &&& match metadata {
        Some(m) => {
            &&& shown.modeled_by == m.modeled_by
            &&& shown.gear_make == m.gear_make
            &&& shown.gear_model == m.gear_model
            &&& shown.gear_type == m.gear_type
            &&& shown.tone_type == m.tone_type
            &&& match m.date {
                Some(date) => {
                    &&& shown.date is Some <==> shown_date(date) is Some
                    &&& shown.date is Some ==> shown.date->Some_0@ == shown_date(date)->Some_0
                },
                None => shown.date is None,
            }
        },
        None => {
            &&& shown.modeled_by is None
            &&& shown.gear_make is None
            &&& shown.gear_model is None
            &&& shown.gear_type is None
            &&& shown.tone_type is None
            &&& shown.date is None
        },
    }
}

/// Describes a model for the GUI.
pub fn describe(
    architecture: String,
    topology: String,
    sample_rate: u32,
    metadata: Option<ModelMetadata>,
) -> (shown: NamModelMetadata)
    ensures
        describes(shown, architecture@, topology@, sample_rate, metadata),
{
    match metadata {
        Some(m) => {
            let date = match m.date {
                Some(date) => format_date(date),
                None => None,
            };
            NamModelMetadata {
                architecture,
                topology,
                sample_rate,
                modeled_by: m.modeled_by,
                gear_make: m.gear_make,
                gear_model: m.gear_model,
                gear_type: m.gear_type,
                tone_type: m.tone_type,
                date,
            }
        },
        None => NamModelMetadata {
            architecture,
            topology,
            sample_rate,
            modeled_by: None,
            gear_make: None,
            gear_model: None,
            gear_type: None,
            tone_type: None,
            date: None,
        },
    }
}

} // verus!

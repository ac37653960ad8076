//! The settings of the x264 video encoder.
//!
//! A workflow step configures the encoder through four parameters: `height`,
//! `width` and `fps`, which are numbers, and `preset`, which names a speed
//! preset. A parameter that is missing, has no value, or is no number where
//! one is expected leaves its setting open.

use vstd::prelude::*;
use vstd::std_specs::iter::IteratorSpec;
use vstd::string::*;
use crate::workflows::definitions::{
    optional_text,
    parameter_views,
    StepParameter,
    StepParameterView,
};

verus! {

/// Whether the character is a decimal digit.
pub open spec fn is_digit(c: char) -> bool {
    '0' <= c && c <= '9'
}

/// The number that a sequence of decimal digits writes.
pub open spec fn decimal_value(digits: Seq<char>) -> nat
    decreases digits.len(),
{
    if digits.len() == 0 {
        0
    } else {
        decimal_value(digits.drop_last()) * 10 + (digits.last() as nat - '0' as nat) as nat
    }
}

/// The digits of a text that may start with a plus sign.
pub open spec fn without_sign(text: Seq<char>) -> Seq<char> {
    if text.len() > 0 && text[0] == '+' {
        text.subrange(1, text.len() as int)
    } else {
        text
    }
}

/// The number that a text writes: an optional plus sign and then decimal
/// digits, at least one and nothing else, for a value that fits in 32 bits.
/// Any other text writes no number.
pub open spec fn parsed_number(text: Seq<char>) -> Option<u32> {
    let digits = without_sign(text);
    if digits.len() > 0 && (forall|i: int| 0 <= i < digits.len() ==> is_digit(#[trigger] digits[i]))
        && decimal_value(digits) <= u32::MAX {
        Some(decimal_value(digits) as u32)
    } else {
        None
    }
}

/// The value of the first parameter called `name`: `None` if there is no
/// such parameter, `Some(None)` if it stands without a value.
pub open spec fn parameter_value(parameters: Seq<StepParameterView>, name: Seq<char>) -> Option<
    Option<Seq<char>>,
>
    decreases parameters.len(),
{
    if parameters.len() == 0 {
        None
    } else if parameters[0].name == name {
        Some(parameters[0].value)
    } else {
        parameter_value(parameters.drop_first(), name)
    }
}

/// The number that the parameter called `name` gives, if it gives one.
pub open spec fn number_parameter(parameters: Seq<StepParameterView>, name: Seq<char>) -> Option<
    u32,
> {
    match parameter_value(parameters, name) {
        Some(Some(text)) => parsed_number(text),
        _ => None,
    }
}

/// The text that the parameter called `name` gives, if it has a value.
pub open spec fn text_parameter(parameters: Seq<StepParameterView>, name: Seq<char>) -> Option<
    Seq<char>,
> {
    match parameter_value(parameters, name) {
        Some(Some(text)) => Some(text),
        _ => None,
    }
}

/// The numerator of the frame rate that is asked of the encoder for `fps`
/// frames per second: `fps` itself where it fits a signed 32-bit number, and
/// `fps` less 2^32 where it does not.
pub open spec fn framerate(fps: u32) -> int {
    if fps <= i32::MAX {
        fps as int
    } else {
        fps - 0x1_0000_0000
    }
}

/// What is asked of the x264 encoder.
#[verifier::ext_equal]
pub struct X264SettingsView {
    pub height: Option<u32>,
    pub width: Option<u32>,
    pub fps: Option<u32>,
    pub preset: Option<Seq<char>>,
}

/// What the parameters of a step ask of the x264 encoder.
pub open spec fn x264_settings(parameters: Seq<StepParameterView>) -> X264SettingsView {
    X264SettingsView {
        height: number_parameter(parameters, "height"@),
        width: number_parameter(parameters, "width"@),
        fps: number_parameter(parameters, "fps"@),
        preset: text_parameter(parameters, "preset"@),
    }
}

/// A number that is written with one digit more is ten times the number and
/// the digit.
proof fn lemma_decimal_value_grows(digits: Seq<char>, digit: char)
    ensures
        decimal_value(digits.push(digit)) == decimal_value(digits) * 10 + (digit as nat
            - '0' as nat) as nat,
{
    assert(digits.push(digit).drop_last() =~= digits);
}

/// Looking a name up in parameters whose first one has another name is
/// looking it up in the rest.
proof fn lemma_parameter_value_skips(
    parameters: Seq<StepParameterView>,
    name: Seq<char>,
    from: int,
)
    requires
        0 <= from < parameters.len(),
        parameters[from].name != name,
    ensures
        parameter_value(parameters.subrange(from, parameters.len() as int), name)
            == parameter_value(parameters.subrange(from + 1, parameters.len() as int), name),
{
    let rest = parameters.subrange(from, parameters.len() as int);
    assert(rest[0] == parameters[from]);
    assert(rest.drop_first() =~= parameters.subrange(from + 1, parameters.len() as int));
}

/// Digits written with more digits write no smaller number.
proof fn lemma_decimal_value_is_monotonic(digits: Seq<char>, upto: int)
    requires
        0 <= upto <= digits.len(),
    ensures
        decimal_value(digits.subrange(0, upto)) <= decimal_value(digits),
    decreases digits.len() - upto,
{
    if upto < digits.len() {
        lemma_decimal_value_is_monotonic(digits, upto + 1);
        assert(digits.subrange(0, upto + 1).drop_last() =~= digits.subrange(0, upto));
    } else {
        assert(digits.subrange(0, upto) =~= digits);
    }
}

/// Reads a number: an optional plus sign and then decimal digits, at least
/// one and nothing else, for a value that fits in 32 bits.
pub fn parse_number(text: &str) -> (number: Option<u32>)
    ensures
        number == parsed_number(text@),
{
    broadcast use vstd::string::group_string_axioms;

    let ghost digits = without_sign(text@);
    let ghost mut seen: int = 0;
    let mut chars = text.chars();
    let mut value: u32 = 0;
    let mut first = true;
    let mut any = false;
    loop
        invariant
            digits == without_sign(text@),
            chars.obeys_prophetic_iter_laws(),
            chars.decrease() is Some,
            first ==> seen == 0 && chars.remaining() == text@,
            !first ==> chars.remaining() == digits.subrange(seen, digits.len() as int),
            0 <= seen <= digits.len(),
            any == (seen > 0),
            forall|i: int| 0 <= i < seen ==> is_digit(#[trigger] digits[i]),
            value == decimal_value(digits.subrange(0, seen)),
        decreases chars.decrease()->0,
    {
        let ghost before = chars;
        let next = chars.next();
        proof {
            vstd::string::next_postcondition(&before, &chars, next);
        }
        match next {
            None => {
                assert(digits.subrange(0, seen) =~= digits) by {
                    if first {
                        assert(text@.len() == 0);
                    }
                }
                return if any {
                    Some(value)
                } else {
                    None
                };
            },
            Some(c) => {
                if first && c == '+' {
                    first = false;
                    assert(chars.remaining() =~= digits.subrange(0, digits.len() as int));
                } else {
                    proof {
                        if first {
                            assert(digits == text@);
                        }
                        assert(c == digits[seen]);
                        assert(chars.remaining() =~= digits.subrange(seen + 1, digits.len() as int));
                    }
                    first = false;
                    if !(c >= '0' && c <= '9') {
                        assert(!is_digit(digits[seen]));
                        return None;
                    }
                    let digit: u32 = (c as u32) - ('0' as u32);
                    proof {
                        assert(digits.subrange(0, seen + 1) =~= digits.subrange(0, seen).push(c));
                        lemma_decimal_value_grows(digits.subrange(0, seen), c);
                        lemma_decimal_value_is_monotonic(digits, seen + 1);
                    }
                    if value > (u32::MAX - digit) / 10 {
                        assert(decimal_value(digits) > u32::MAX);
                        return None;
                    }
                    value = value * 10 + digit;
                    any = true;
                    proof {
                        seen = seen + 1;
                    }
                }
            },
        }
    }
}

/// The value of the first parameter called `key`.
fn find_parameter<'a>(parameters: &'a Vec<StepParameter>, key: &str) -> (value: Option<
    &'a Option<String>,
>)
    ensures
        parameter_value(parameter_views(parameters@), key@) == match value {
            Some(found) => Some(optional_text(*found)),
            None => None,
        },
{
    let name = String::from_str(key);
    let ghost views = parameter_views(parameters@);
    let mut i: usize = 0;
    assert(views.subrange(0, views.len() as int) =~= views);
    while i < parameters.len()
        invariant
            i <= parameters@.len(),
            views == parameter_views(parameters@),
            name@ == key@,
            parameter_value(views, key@) == parameter_value(
                views.subrange(i as int, views.len() as int),
                key@,
            ),
        decreases parameters@.len() - i,
    {
        let ghost rest = views.subrange(i as int, views.len() as int);
        assert(rest.len() > 0 && rest[0] == parameters@[i as int]@);
        if parameters[i].name == name {
            assert(parameter_value(rest, key@) == Some(rest[0].value));
            return Some(&parameters[i].value);
        }
        proof {
            lemma_parameter_value_skips(views, key@, i as int);
        }
        i += 1;
    }
    None
}

/// The number that the parameter called `key` gives: `None` where there is
/// no such parameter, where it has no value, and where its value is no
/// number.
pub fn get_number(parameters: &Vec<StepParameter>, key: &str) -> (number: Option<u32>)
    ensures
        number == number_parameter(parameter_views(parameters@), key@),
{
    match find_parameter(parameters, key) {
        Some(Some(text)) => parse_number(text.as_str()),
        _ => None,
    }
}

/// The text that the parameter called `key` gives: `None` where there is no
/// such parameter and where it has no value.
pub fn get_text(parameters: &Vec<StepParameter>, key: &str) -> (text: Option<String>)
    ensures
        optional_text(text) == text_parameter(parameter_views(parameters@), key@),
{
    match find_parameter(parameters, key) {
        Some(Some(text)) => Some(text.clone()),
        _ => None,
    }
}

/// The numerator of the frame rate for `fps` frames per second, as the
/// encoder takes it.
pub fn framerate_numerator(fps: u32) -> (numerator: i32)
    ensures
        numerator == framerate(fps),
{
    if fps <= 0x7fff_ffff {
        fps as i32
    } else {
        let above: i32 = (fps - 0x8000_0000) as i32;
        above - 0x7fff_ffff - 1
    }
}

/// What is asked of the x264 encoder: the size of the picture, the frames
/// per second and the speed preset, each only where the step has set it.
#[derive(Debug, PartialEq, Eq)]
pub struct X264Settings {
    pub height: Option<u32>,
    pub width: Option<u32>,
    pub fps: Option<u32>,
    pub preset: Option<String>,
}

impl View for X264Settings {
    type V = X264SettingsView;

    open spec fn view(&self) -> X264SettingsView {
        X264SettingsView {
            height: self.height,
            width: self.width,
            fps: self.fps,
            preset: optional_text(self.preset),
        }
    }
}

/// Makes x264 video encoders for workflow steps.
#[derive(Debug)]
pub struct X264EncoderGenerator {}

impl X264EncoderGenerator {
    /// Reads what the parameters of a step ask of the encoder.
    pub fn settings(&self, parameters: &Vec<StepParameter>) -> (settings: X264Settings)
        ensures
            settings@ == x264_settings(parameter_views(parameters@)),
    {
        X264Settings {
            height: get_number(parameters, "height"),
            width: get_number(parameters, "width"),
            fps: get_number(parameters, "fps"),
            preset: get_text(parameters, "preset"),
        }
    }
}

} // verus!

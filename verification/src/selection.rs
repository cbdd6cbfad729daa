//! What the calculator makes of the line typed at its menu.

use vstd::prelude::*;
use crate::decimal::{
    after_sign, decimal_digits, decimal_value, is_digit, is_unsigned, lemma_decimal_digits,
    lemma_parse_of_format, parse_u32, parsed_u32,
};
use crate::operation::Operation;
use crate::whitespace::{
    all_whitespace, lemma_trimmed_ignores_padding, lemma_trimmed_is_whole, trim, trimmed,
};

verus! {

/// The menu number that a line of input holds: the unsigned number left when
/// the white space at both ends is taken away, if that is one.
pub open spec fn selector_of(line: Seq<char>) -> Option<u32> {
    parsed_u32(trimmed(line))
}

/// The calculator's answer to the line typed at its menu.
#[derive(Clone, Copy, Debug, PartialEq, Eq, Structural)]
pub enum Selection {
    /// The line holds no unsigned number. The calculator says so and stops;
    /// it asks for no operands and computes nothing.
    InvalidInput,
    /// The line holds a number that selects no operation. The calculator still
    /// asks for both operands, then says so and reports zero.
    InvalidOperation,
    /// The line selects this operation, to be applied to the two operands.
    Apply(Operation),
}

/// The answer that a line of input calls for.
pub open spec fn selection_of(line: Seq<char>) -> Selection {
    match selector_of(line) {
        None => Selection::InvalidInput,
        Some(selector) => match Operation::of_selector(selector) {
            None => Selection::InvalidOperation,
            Some(operation) => Selection::Apply(operation),
        },
    }
}

/// Reads the menu number from a line of input, ignoring white space at both
/// ends of it.
pub fn parse_selector(line: &str) -> (selector: Option<u32>)
    ensures
        selector == selector_of(line@),
{
    parse_u32(trim(line))
}

/// Decides what the calculator does with the line typed at its menu.
pub fn read_selection(line: &str) -> (selection: Selection)
    ensures
        selection == selection_of(line@),
{
    match parse_selector(line) {
        None => Selection::InvalidInput,
        Some(selector) => match Operation::from_selector(selector) {
            None => Selection::InvalidOperation,
            Some(operation) => Selection::Apply(operation),
        },
    }
}

/// A line selects an operation exactly when, white space at its ends aside,
/// it writes that operation's menu number.
pub proof fn lemma_selection_by_number(line: Seq<char>, operation: Operation)
    ensures
        selection_of(line) == Selection::Apply(operation) <==> is_unsigned(trimmed(line))
            && decimal_value(after_sign(trimmed(line))) == operation.number(),
{
}

/// A line is refused as invalid input exactly when, white space at its ends
/// aside, it writes no unsigned number that fits 32 bits.
pub proof fn lemma_invalid_input(line: Seq<char>)
    ensures
        selection_of(line) == Selection::InvalidInput <==> !(is_unsigned(trimmed(line))
            && decimal_value(after_sign(trimmed(line))) <= u32::MAX),
{
}

/// White space before and after what was typed changes nothing: the line end
/// that comes with a line of input is of no account.
pub proof fn lemma_selection_ignores_padding(before: Seq<char>, line: Seq<char>, after: Seq<char>)
    requires
        all_whitespace(before),
        all_whitespace(after),
    ensures
        selector_of(before + line + after) == selector_of(line),
        selection_of(before + line + after) == selection_of(line),
{
    lemma_trimmed_ignores_padding(before, line, after);
}

/// The number under which the menu offers an operation, typed back with any
/// white space around it, selects that operation.
pub proof fn lemma_menu_number_selects(operation: Operation, before: Seq<char>, after: Seq<char>)
    requires
        all_whitespace(before),
        all_whitespace(after),
    ensures
        selection_of(before + decimal_digits(operation.number() as nat) + after)
            == Selection::Apply(operation),
{
    let typed = decimal_digits(operation.number() as nat);
    lemma_decimal_digits(operation.number() as nat);
    lemma_parse_of_format(operation.number());
    assert(is_digit(typed.first()) && is_digit(typed.last()));
    lemma_trimmed_is_whole(typed);
    lemma_selection_ignores_padding(before, typed, after);
}

} // verus!

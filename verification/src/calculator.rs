//! Every line of text that the calculator shows.

use vstd::prelude::*;
use vstd::string::*;
use crate::decimal::{decimal_digits, format_u32};
use crate::operation::Operation;

verus! {

/// Something the calculator tells its user when it cannot do what was asked.
#[derive(Clone, Copy, Debug, PartialEq, Eq, Structural)]
pub enum Notice {
    /// The line typed at the menu holds no unsigned number.
    InvalidInput,
    /// The number typed at the menu selects no operation.
    InvalidOperation,
    /// The divisor is zero, so the quotient is replaced by zero.
    DivisionByZero,
}

impl Notice {
    /// The words of the notice.
    pub open spec fn wording(self) -> Seq<char> {
        match self {
            Notice::InvalidInput => "Invalid input!"@,
            Notice::InvalidOperation => "Invalid operation!"@,
            Notice::DivisionByZero => "Error: Cannot divide by zero!"@,
        }
    }

    /// The words of the notice.
    pub fn text(self) -> (text: &'static str)
        ensures
            text@ == self.wording(),
    {
        match self {
            Notice::InvalidInput => "Invalid input!",
            Notice::InvalidOperation => "Invalid operation!",
            Notice::DivisionByZero => "Error: Cannot divide by zero!",
        }
    }
}

/// One of the two numbers that an operation is applied to.
#[derive(Clone, Copy, Debug, PartialEq, Eq, Structural)]
pub enum Operand {
    First,
    Second,
}

impl Operand {
    /// The line that asks for the operand.
    pub open spec fn prompt_text(self) -> Seq<char> {
        match self {
            Operand::First => "Enter first number:"@,
            Operand::Second => "Enter second number:"@,
        }
    }

    /// The line that asks for the operand.
    pub fn prompt(self) -> (text: &'static str)
        ensures
            text@ == self.prompt_text(),
    {
        match self {
            Operand::First => "Enter first number:",
            Operand::Second => "Enter second number:",
        }
    }
}

/// The menu line that offers an operation: its number, a full stop, a space
/// and its name.
pub open spec fn menu_entry_text(operation: Operation) -> Seq<char> {
    decimal_digits(operation.number() as nat) + ". "@ + operation.label_text()
}

/// The menu: a title, a request to choose, and one entry for each operation
/// in the order of their numbers.
pub open spec fn menu_text() -> Seq<Seq<char>> {
    seq![
        "=== Simple Rust Calculator ==="@,
        "Choose an operation:"@,
        menu_entry_text(Operation::Add),
        menu_entry_text(Operation::Subtract),
        menu_entry_text(Operation::Multiply),
        menu_entry_text(Operation::Divide),
    ]
}

/// The line that shows an operation with its operands and its result, each
/// given as the text to show for it.
pub open spec fn equation_text(
    operation: Operation,
    left: Seq<char>,
    right: Seq<char>,
    result: Seq<char>,
) -> Seq<char> {
    left + " "@ + operation.symbol_text() + " "@ + right + " = "@ + result
}

/// The closing text: an empty line, then the result under its heading.
pub open spec fn result_text(result: Seq<char>) -> Seq<char> {
    "\nResult: "@ + result
}

/// Composes the menu line that offers an operation.
pub fn menu_entry(operation: Operation) -> (line: String)
    ensures
        line@ == menu_entry_text(operation),
{
    format_u32(operation.selector()).concat(". ").concat(operation.label())
}

/// Composes the menu, one line per element.
pub fn menu() -> (lines: Vec<String>)
    ensures
        lines.deep_view() == menu_text(),
{
    let mut lines: Vec<String> = Vec::new();
    lines.push(String::from_str("=== Simple Rust Calculator ==="));
    lines.push(String::from_str("Choose an operation:"));
    lines.push(menu_entry(Operation::Add));
    lines.push(menu_entry(Operation::Subtract));
    lines.push(menu_entry(Operation::Multiply));
    lines.push(menu_entry(Operation::Divide));
    assert(lines.deep_view() =~= menu_text());
    lines
}

/// Composes the line that shows an operation with its operands and its
/// result, each given as the text to show for it.
pub fn equation_line(operation: Operation, left: &str, right: &str, result: &str) -> (line: String)
    ensures
        line@ == equation_text(operation, left@, right@, result@),
{
    String::from_str(left).concat(" ").concat(operation.symbol()).concat(" ").concat(right).concat(
        " = ",
    ).concat(result)
}

/// Composes the closing text that reports the result.
pub fn result_line(result: &str) -> (line: String)
    ensures
        line@ == result_text(result@),
{
    String::from_str("\nResult: ").concat(result)
}

} // verus!

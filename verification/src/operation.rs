//! The four operations of the calculator and the menu numbers that select them.

use vstd::prelude::*;

verus! {

/// An arithmetic operation the calculator offers.
#[derive(Clone, Copy, Debug, PartialEq, Eq, Structural)]
pub enum Operation {
    Add,
    Subtract,
    Multiply,
    Divide,
}

impl Operation {
    /// The operation that a menu number selects, if it selects one.
    pub open spec fn of_selector(selector: u32) -> Option<Operation> {
        if selector == 1 {
            Some(Operation::Add)
        } else if selector == 2 {
            Some(Operation::Subtract)
        } else if selector == 3 {
            Some(Operation::Multiply)
        } else if selector == 4 {
            Some(Operation::Divide)
        } else {
            None
        }
    }

    /// The menu number under which the operation is offered.
    pub open spec fn number(self) -> u32 {
        match self {
            Operation::Add => 1,
            Operation::Subtract => 2,
            Operation::Multiply => 3,
            Operation::Divide => 4,
        }
    }

    /// The word that names the operation in the menu.
    pub open spec fn label_text(self) -> Seq<char> {
        match self {
            Operation::Add => "Add"@,
            Operation::Subtract => "Subtract"@,
            Operation::Multiply => "Multiply"@,
            Operation::Divide => "Divide"@,
        }
    }

    /// The sign that stands between the operands when the operation is shown.
    pub open spec fn symbol_text(self) -> Seq<char> {
        match self {
            Operation::Add => "+"@,
            Operation::Subtract => "-"@,
            Operation::Multiply => "×"@,
            Operation::Divide => "÷"@,
        }
    }

    /// Chooses the operation for a menu number: 1 adds, 2 subtracts,
    /// 3 multiplies, 4 divides, and every other number selects nothing.
    pub fn from_selector(selector: u32) -> (operation: Option<Operation>)
        ensures
            operation == Self::of_selector(selector),
            operation is Some <==> 1 <= selector <= 4,
    {
        match selector {
            1 => Some(Operation::Add),
            2 => Some(Operation::Subtract),
            3 => Some(Operation::Multiply),
            4 => Some(Operation::Divide),
            _ => None,
        }
    }

    /// The menu number of the operation: the one number that selects it.
    pub fn selector(self) -> (selector: u32)
        ensures
            selector == self.number(),
            Self::of_selector(selector) == Some(self),
    {
        match self {
            Operation::Add => 1,
            Operation::Subtract => 2,
            Operation::Multiply => 3,
            Operation::Divide => 4,
        }
    }

    /// The word that names the operation in the menu.
    pub fn label(self) -> (text: &'static str)
        ensures
            text@ == self.label_text(),
    {
        match self {
            Operation::Add => "Add",
            Operation::Subtract => "Subtract",
            Operation::Multiply => "Multiply",
            Operation::Divide => "Divide",
        }
    }

    /// The sign that stands between the operands when the operation is shown.
    pub fn symbol(self) -> (text: &'static str)
        ensures
            text@ == self.symbol_text(),
    {
        match self {
            Operation::Add => "+",
            Operation::Subtract => "-",
            Operation::Multiply => "×",
            Operation::Divide => "÷",
        }
    }
}

/// A menu number selects an operation exactly when it is that operation's own
/// number: the menu numbers and the operations correspond one to one.
pub proof fn lemma_selected_by_own_number(selector: u32, operation: Operation)
    ensures
        Operation::of_selector(selector) == Some(operation) <==> selector == operation.number(),
        1 <= operation.number() <= 4,
{
}

} // verus!

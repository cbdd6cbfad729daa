//! The text of the two greeting programs: a fixed banner, and three lines
//! with a name, a language and a year put into them.

use vstd::prelude::*;
use vstd::string::*;
use crate::decimal::{format_i32, signed_decimal};

verus! {

/// The banner, line by line. It depends on nothing: every run shows it alike.
pub open spec fn banner_text() -> Seq<Seq<char>> {
    seq![
        "🦀 Welcome to Rust Programming!"@,
        "================================"@,
        ""@,
        "This is your first Rust program!"@,
        ""@,
        "Rust is a systems programming language that focuses on:"@,
        "  ✓ Memory safety"@,
        "  ✓ Speed"@,
        "  ✓ Concurrency"@,
        ""@,
        "Happy coding! 🚀"@,
    ]
}

/// The line that welcomes someone by name.
pub open spec fn welcome_text(name: Seq<char>) -> Seq<char> {
    "Welcome, "@ + name + "!"@
}

/// The line that says which language is being learnt, and in which year.
pub open spec fn learning_text(language: Seq<char>, year: int) -> Seq<char> {
    "Learning "@ + language + " in "@ + signed_decimal(year) + "!"@
}

/// The three lines of the second program: a greeting to the world, a welcome
/// to the Rust developer, and the year 2024 spent learning Rust.
pub open spec fn hello_text() -> Seq<Seq<char>> {
    seq![
        "Hello, World!"@,
        welcome_text("Rust Developer"@),
        learning_text("Rust"@, 2024),
    ]
}

/// The banner, one line per element.
pub fn banner() -> (lines: Vec<&'static str>)
    ensures
        lines.deep_view() == banner_text(),
{
    let mut lines: Vec<&'static str> = Vec::new();
    lines.push("🦀 Welcome to Rust Programming!");
    lines.push("================================");
    lines.push("");
    lines.push("This is your first Rust program!");
    lines.push("");
    lines.push("Rust is a systems programming language that focuses on:");
    lines.push("  ✓ Memory safety");
    lines.push("  ✓ Speed");
    lines.push("  ✓ Concurrency");
    lines.push("");
    lines.push("Happy coding! 🚀");
    assert(lines.deep_view() =~= banner_text());
    lines
}

/// Composes the line that welcomes someone by name.
pub fn welcome_line(name: &str) -> (line: String)
    ensures
        line@ == welcome_text(name@),
{
    String::from_str("Welcome, ").concat(name).concat("!")
}

/// Composes the line that says which language is being learnt, and in which
/// year.
pub fn learning_line(language: &str, year: i32) -> (line: String)
    ensures
        line@ == learning_text(language@, year as int),
{
    String::from_str("Learning ").concat(language).concat(" in ").concat(
        format_i32(year).as_str(),
    ).concat("!")
}

/// The three lines of the second program, one per element.
pub fn hello() -> (lines: Vec<String>)
    ensures
        lines.deep_view() == hello_text(),
{
    let mut lines: Vec<String> = Vec::new();
    lines.push(String::from_str("Hello, World!"));
    lines.push(welcome_line("Rust Developer"));
    lines.push(learning_line("Rust", 2024));
    assert(lines.deep_view() =~= hello_text());
    lines
}

} // verus!

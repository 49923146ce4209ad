//! The menu: what a line typed at it asks for.

use crate::text::{parse_u32, parsed_u32, trim, trimmed};
use vstd::prelude::*;

verus! {

/// What the user can ask for at the menu.
#[derive(Clone, Copy, Debug, PartialEq, Eq, Structural)]
pub enum Command {
    AddBook,
    ShowInventory,
    EditBook,
    RemoveBook,
    Exit,
    Invalid,
}

/// The command that a line stands for: the numbers one to five name the menu
/// entries in order, white space around the number is ignored, and anything
/// else is invalid.
pub open spec fn command_of(line: Seq<char>) -> Command {
    match parsed_u32(trimmed(line)) {
        Some(n) => if n == 1 {
            Command::AddBook
        } else if n == 2 {
            Command::ShowInventory
        } else if n == 3 {
            Command::EditBook
        } else if n == 4 {
            Command::RemoveBook
        } else if n == 5 {
            Command::Exit
        } else {
            Command::Invalid
        },
        None => Command::Invalid,
    }
}

/// Reads a line typed at the menu.
pub fn parse_command(line: &str) -> (command: Command)
    ensures
        command == command_of(line@),
{
    match parse_u32(trim(line)) {
        Some(1) => Command::AddBook,
        Some(2) => Command::ShowInventory,
        Some(3) => Command::EditBook,
        Some(4) => Command::RemoveBook,
        Some(5) => Command::Exit,
        _ => Command::Invalid,
    }
}

} // verus!

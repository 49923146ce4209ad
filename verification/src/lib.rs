//! A book inventory kept in an SQLite table, and the menu-driven shell that
//! edits it.
//!
//! The library holds the rules: how a line of input becomes a command, how
//! the shell moves from prompt to prompt, which statement each operation runs
//! and what it does to the table, and how a record is shown. Reading input
//! and printing are left to the program that uses it.

pub mod book;
pub mod command;
pub mod laws;
pub mod shell;
pub mod store;
pub mod text;

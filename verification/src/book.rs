//! The book record and its mathematical view.

use crate::text::{decimal, push_decimal, push_signed_decimal, signed_decimal};
use vstd::prelude::*;
use vstd::string::*;

verus! {

/// What a record holds besides its id.
pub struct Entry {
    pub title: Seq<char>,
    pub author: Seq<char>,
    pub year: int,
    pub genre: Seq<char>,
}

/// A record as contracts speak of it: the id and what is stored under it.
pub struct BookView {
    pub id: int,
    pub entry: Entry,
}

/// One row of the inventory.
#[derive(Debug)]
pub struct Book {
    pub id: i32,
    pub title: String,
    pub author: String,
    pub year: u32,
    pub genre: String,
}

/// The entry made of the four values that a caller supplies.
pub open spec fn entry_of(title: Seq<char>, author: Seq<char>, year: int, genre: Seq<char>) -> Entry {
    Entry { title, author, year, genre }
}

impl View for Book {
    type V = BookView;

    open spec fn view(&self) -> BookView {
        BookView {
            id: self.id as int,
            entry: entry_of(self.title@, self.author@, self.year as int, self.genre@),
        }
    }
}

impl Clone for Book {
    fn clone(&self) -> (copy: Book)
        ensures
            copy@ == self@,
    {
        Book {
            id: self.id,
            title: self.title.clone(),
            author: self.author.clone(),
            year: self.year,
            genre: self.genre.clone(),
        }
    }
}

/// The line that shows a record: every field, each with its label.
pub open spec fn line_of(book: BookView) -> Seq<char> {
    "ID: "@ + signed_decimal(book.id) + ", Title: "@ + book.entry.title + ", Author: "@
        + book.entry.author + ", Year: "@ + decimal(book.entry.year as nat) + ", Genre: "@
        + book.entry.genre
}

/// The line that shows `book`.
pub fn render_book(book: &Book) -> (line: String)
    ensures
        line@ == line_of(book@),
{
    let mut line = String::from_str("ID: ");
    push_signed_decimal(&mut line, book.id as i64);
    line.append(", Title: ");
    line.append(book.title.as_str());
    line.append(", Author: ");
    line.append(book.author.as_str());
    line.append(", Year: ");
    push_decimal(&mut line, book.year as u64);
    line.append(", Genre: ");
    line.append(book.genre.as_str());
    line
}

} // verus!

//! The interactive shell as a state machine: a state and a line of input give
//! the next state and what is to be done. Reading the line and doing it are
//! the caller's part.

use crate::command::{command_of, parse_command, Command};
use crate::text::{parse_i32, parse_u32, parsed_i32, parsed_u32, trim, trimmed};
use vstd::prelude::*;
use vstd::string::*;

verus! {

/// A line that was to be a number and is none. The shell does not ask again:
/// its caller is expected to stop.
#[derive(Clone, Copy, Debug, PartialEq, Eq, Structural)]
pub enum InputParseError {
    /// The id of the record to edit or remove.
    Id,
    /// The year of publication.
    Year,
}

/// How far the questions for a new record have come: the answer awaited, and
/// the answers given.
#[derive(Debug)]
pub enum AddStage {
    Title,
    Author { title: String },
    Year { title: String, author: String },
    Genre { title: String, author: String, year: u32 },
}

/// How far the questions for an edit have come.
#[derive(Debug)]
pub enum EditStage {
    Id,
    Title { id: i32 },
    Author { id: i32, title: String },
    Year { id: i32, title: String, author: String },
    Genre { id: i32, title: String, author: String, year: u32 },
}

/// Where the shell stands.
#[derive(Debug)]
pub enum ShellState {
    /// The menu is shown and a choice awaited.
    MenuWait,
    /// The fields of a new record are asked for, one by one.
    AddPrompt(AddStage),
    /// The id of a record and its new fields are asked for, one by one.
    EditPrompt(EditStage),
    /// The id of the record to remove is awaited.
    RemovePrompt,
    /// The user has left; nothing follows.
    Done,
}

/// What the caller is to do after a line was taken in.
#[derive(Debug)]
pub enum Action {
    /// Nothing but to go on reading.
    Nothing,
    /// Add a record with these fields.
    Add { title: String, author: String, year: u32, genre: String },
    /// Show the inventory.
    List,
    /// Overwrite the fields of the record with this id.
    Update { id: i32, title: String, author: String, year: u32, genre: String },
    /// Remove the record with this id.
    Remove { id: i32 },
    /// Tell the user that the menu has no such entry.
    Reject,
    /// Say goodbye and stop.
    Quit,
}

/// `AddStage` with its texts as sequences of characters.
pub enum AddStageView {
    Title,
    Author { title: Seq<char> },
    Year { title: Seq<char>, author: Seq<char> },
    Genre { title: Seq<char>, author: Seq<char>, year: u32 },
}

/// `EditStage` with its texts as sequences of characters.
pub enum EditStageView {
    Id,
    Title { id: i32 },
    Author { id: i32, title: Seq<char> },
    Year { id: i32, title: Seq<char>, author: Seq<char> },
    Genre { id: i32, title: Seq<char>, author: Seq<char>, year: u32 },
}

/// `ShellState` as contracts speak of it.
pub enum ShellStateView {
    MenuWait,
    AddPrompt(AddStageView),
    EditPrompt(EditStageView),
    RemovePrompt,
    Done,
}

/// `Action` as contracts speak of it.
pub enum ActionView {
    Nothing,
    Add { title: Seq<char>, author: Seq<char>, year: u32, genre: Seq<char> },
    List,
    Update { id: i32, title: Seq<char>, author: Seq<char>, year: u32, genre: Seq<char> },
    Remove { id: i32 },
    Reject,
    Quit,
}

impl View for AddStage {
    type V = AddStageView;

    open spec fn view(&self) -> AddStageView {
        match self {
            AddStage::Title => AddStageView::Title,
            AddStage::Author { title } => AddStageView::Author { title: title@ },
            AddStage::Year { title, author } => AddStageView::Year {
                title: title@,
                author: author@,
            },
            AddStage::Genre { title, author, year } => AddStageView::Genre {
                title: title@,
                author: author@,
                year: *year,
            },
        }
    }
}

impl View for EditStage {
    type V = EditStageView;

    open spec fn view(&self) -> EditStageView {
        match self {
            EditStage::Id => EditStageView::Id,
            EditStage::Title { id } => EditStageView::Title { id: *id },
            EditStage::Author { id, title } => EditStageView::Author { id: *id, title: title@ },
            EditStage::Year { id, title, author } => EditStageView::Year {
                id: *id,
                title: title@,
                author: author@,
            },
            EditStage::Genre { id, title, author, year } => EditStageView::Genre {
                id: *id,
                title: title@,
                author: author@,
                year: *year,
            },
        }
    }
}

impl View for ShellState {
    type V = ShellStateView;

    open spec fn view(&self) -> ShellStateView {
        match self {
            ShellState::MenuWait => ShellStateView::MenuWait,
            ShellState::AddPrompt(stage) => ShellStateView::AddPrompt(stage@),
            ShellState::EditPrompt(stage) => ShellStateView::EditPrompt(stage@),
            ShellState::RemovePrompt => ShellStateView::RemovePrompt,
            ShellState::Done => ShellStateView::Done,
        }
    }
}

impl View for Action {
    type V = ActionView;

    open spec fn view(&self) -> ActionView {
        match self {
            Action::Nothing => ActionView::Nothing,
            Action::Add { title, author, year, genre } => ActionView::Add {
                title: title@,
                author: author@,
                year: *year,
                genre: genre@,
            },
            Action::List => ActionView::List,
            Action::Update { id, title, author, year, genre } => ActionView::Update {
                id: *id,
                title: title@,
                author: author@,
                year: *year,
                genre: genre@,
            },
            Action::Remove { id } => ActionView::Remove { id: *id },
            Action::Reject => ActionView::Reject,
            Action::Quit => ActionView::Quit,
        }
    }
}

/// The menu, shown each time a choice is awaited.
pub const MENU: &'static str =
    "Book Inventory CLI:\n1. Add a new book\n2. Show book inventory\n3. Edit book information\n4. Remove a book from inventory\n5. Exit the program";

/// The questions, the confirmations and the complaints, word for word.
pub const ASK_TITLE: &'static str = "Enter book title: ";

pub const ASK_AUTHOR: &'static str = "Enter author's name: ";

pub const ASK_YEAR: &'static str = "Enter year of publication: ";

pub const ASK_GENRE: &'static str = "Enter genre of the book: ";

pub const ASK_EDIT_ID: &'static str = "Enter the ID of the book to edit: ";

pub const ASK_NEW_TITLE: &'static str = "Enter new title: ";

pub const ASK_NEW_AUTHOR: &'static str = "Enter new author's name: ";

pub const ASK_NEW_YEAR: &'static str = "Enter new year of publication: ";

pub const ASK_NEW_GENRE: &'static str = "Enter new genre: ";

pub const ASK_REMOVE_ID: &'static str = "Enter the ID of the book to remove: ";

pub const ADDED: &'static str = "Book added to inventory!";

pub const UPDATED: &'static str = "Book information updated!";

pub const REMOVED: &'static str = "Book removed from inventory!";

pub const REJECTED: &'static str = "Invalid command, please try again.";

pub const GOODBYE: &'static str = "Exiting the program.";

pub const BAD_ID: &'static str = "Please enter a valid number for ID";

pub const NO_LINE: &'static str = "Failed to read line";

pub const NO_TITLE: &'static str = "Failed to read title";

pub const NO_AUTHOR: &'static str = "Failed to read author";

pub const NO_YEAR: &'static str = "Failed to read year of publication";

pub const NO_GENRE: &'static str = "Failed to read genre";

pub const NO_ID: &'static str = "Failed to read ID";

pub const BAD_YEAR: &'static str = "Please enter a valid number for the year";

/// What is shown before a line is read in `state`: the menu, or the question
/// whose answer is awaited. Once the shell is done there is nothing to show.
pub open spec fn prompt_of(state: ShellStateView) -> Option<Seq<char>> {
    match state {
        ShellStateView::MenuWait => Some(MENU@),
        ShellStateView::AddPrompt(AddStageView::Title) => Some(ASK_TITLE@),
        ShellStateView::AddPrompt(AddStageView::Author { .. }) => Some(ASK_AUTHOR@),
        ShellStateView::AddPrompt(AddStageView::Year { .. }) => Some(ASK_YEAR@),
        ShellStateView::AddPrompt(AddStageView::Genre { .. }) => Some(ASK_GENRE@),
        ShellStateView::EditPrompt(EditStageView::Id) => Some(ASK_EDIT_ID@),
        ShellStateView::EditPrompt(EditStageView::Title { .. }) => Some(ASK_NEW_TITLE@),
        ShellStateView::EditPrompt(EditStageView::Author { .. }) => Some(ASK_NEW_AUTHOR@),
        ShellStateView::EditPrompt(EditStageView::Year { .. }) => Some(ASK_NEW_YEAR@),
        ShellStateView::EditPrompt(EditStageView::Genre { .. }) => Some(ASK_NEW_GENRE@),
        ShellStateView::RemovePrompt => Some(ASK_REMOVE_ID@),
        ShellStateView::Done => None,
    }
}

/// What is said where no line can be read in `state`: it names what was
/// awaited. Once the shell is done nothing is read.
pub open spec fn read_failure_of(state: ShellStateView) -> Option<Seq<char>> {
    match state {
        ShellStateView::MenuWait => Some(NO_LINE@),
        ShellStateView::AddPrompt(AddStageView::Title) => Some(NO_TITLE@),
        ShellStateView::AddPrompt(AddStageView::Author { .. }) => Some(NO_AUTHOR@),
        ShellStateView::AddPrompt(AddStageView::Year { .. }) => Some(NO_YEAR@),
        ShellStateView::AddPrompt(AddStageView::Genre { .. }) => Some(NO_GENRE@),
        ShellStateView::EditPrompt(EditStageView::Id) => Some(NO_ID@),
        ShellStateView::EditPrompt(EditStageView::Title { .. }) => Some(NO_TITLE@),
        ShellStateView::EditPrompt(EditStageView::Author { .. }) => Some(NO_AUTHOR@),
        ShellStateView::EditPrompt(EditStageView::Year { .. }) => Some(NO_YEAR@),
        ShellStateView::EditPrompt(EditStageView::Genre { .. }) => Some(NO_GENRE@),
        ShellStateView::RemovePrompt => Some(NO_ID@),
        ShellStateView::Done => None,
    }
}

/// What the user is told once `action` has been carried out, if anything.
pub open spec fn notice_of(action: ActionView) -> Option<Seq<char>> {
    match action {
        ActionView::Nothing => None,
        ActionView::Add { .. } => Some(ADDED@),
        ActionView::List => None,
        ActionView::Update { .. } => Some(UPDATED@),
        ActionView::Remove { .. } => Some(REMOVED@),
        ActionView::Reject => Some(REJECTED@),
        ActionView::Quit => Some(GOODBYE@),
    }
}

/// Whether `text` is `expected`, seen through the view.
pub open spec fn reads(text: Option<&'static str>, expected: Option<Seq<char>>) -> bool {
    match (text, expected) {
        (Some(text), Some(expected)) => text@ == expected,
        (None, None) => true,
        _ => false,
    }
}

/// What a choice at the menu leads to.
pub open spec fn after_menu(command: Command) -> (ShellStateView, ActionView) {
    match command {
        Command::AddBook => (ShellStateView::AddPrompt(AddStageView::Title), ActionView::Nothing),
        Command::ShowInventory => (ShellStateView::MenuWait, ActionView::List),
        Command::EditBook => (ShellStateView::EditPrompt(EditStageView::Id), ActionView::Nothing),
        Command::RemoveBook => (ShellStateView::RemovePrompt, ActionView::Nothing),
        Command::Exit => (ShellStateView::Done, ActionView::Quit),
        Command::Invalid => (ShellStateView::MenuWait, ActionView::Reject),
    }
}

/// What an answer leads to while a new record is asked for. The answer is
/// the line without the white space around it; the year has to be a number.
pub open spec fn after_add_answer(stage: AddStageView, answer: Seq<char>) -> Result<
    (ShellStateView, ActionView),
    InputParseError,
> {
    match stage {
        AddStageView::Title => Ok(
            (
                ShellStateView::AddPrompt(AddStageView::Author { title: answer }),
                ActionView::Nothing,
            ),
        ),
        AddStageView::Author { title } => Ok(
            (
                ShellStateView::AddPrompt(AddStageView::Year { title, author: answer }),
                ActionView::Nothing,
            ),
        ),
        AddStageView::Year { title, author } => match parsed_u32(answer) {
            Some(year) => Ok(
                (
                    ShellStateView::AddPrompt(AddStageView::Genre { title, author, year }),
                    ActionView::Nothing,
                ),
            ),
            None => Err(InputParseError::Year),
        },
        AddStageView::Genre { title, author, year } => Ok(
            (ShellStateView::MenuWait, ActionView::Add { title, author, year, genre: answer }),
        ),
    }
}

/// What an answer leads to while an edit is asked for. The id and the year
/// have to be numbers.
pub open spec fn after_edit_answer(stage: EditStageView, answer: Seq<char>) -> Result<
    (ShellStateView, ActionView),
    InputParseError,
> {
    match stage {
        EditStageView::Id => match parsed_i32(answer) {
            Some(id) => Ok(
                (ShellStateView::EditPrompt(EditStageView::Title { id }), ActionView::Nothing),
            ),
            None => Err(InputParseError::Id),
        },
        EditStageView::Title { id } => Ok(
            (
                ShellStateView::EditPrompt(EditStageView::Author { id, title: answer }),
                ActionView::Nothing,
            ),
        ),
        EditStageView::Author { id, title } => Ok(
            (
                ShellStateView::EditPrompt(EditStageView::Year { id, title, author: answer }),
                ActionView::Nothing,
            ),
        ),
        EditStageView::Year { id, title, author } => match parsed_u32(answer) {
            Some(year) => Ok(
                (
                    ShellStateView::EditPrompt(EditStageView::Genre { id, title, author, year }),
                    ActionView::Nothing,
                ),
            ),
            None => Err(InputParseError::Year),
        },
        EditStageView::Genre { id, title, author, year } => Ok(
            (
                ShellStateView::MenuWait,
                ActionView::Update { id, title, author, year, genre: answer },
            ),
        ),
    }
}

/// The transition of the shell: the state that follows `state` when `line`
/// is read, and what is to be done then; or the answer that was no number.
pub open spec fn step_of(state: ShellStateView, line: Seq<char>) -> Result<
    (ShellStateView, ActionView),
    InputParseError,
> {
    match state {
        ShellStateView::MenuWait => Ok(after_menu(command_of(line))),
        ShellStateView::AddPrompt(stage) => after_add_answer(stage, trimmed(line)),
        ShellStateView::EditPrompt(stage) => after_edit_answer(stage, trimmed(line)),
        ShellStateView::RemovePrompt => match parsed_i32(trimmed(line)) {
            Some(id) => Ok((ShellStateView::MenuWait, ActionView::Remove { id })),
            None => Err(InputParseError::Id),
        },
        ShellStateView::Done => Ok((ShellStateView::Done, ActionView::Nothing)),
    }
}

/// Whether `outcome` is `expected`, seen through the views.
pub open spec fn agrees(
    outcome: Result<(ShellState, Action), InputParseError>,
    expected: Result<(ShellStateView, ActionView), InputParseError>,
) -> bool {
    match (outcome, expected) {
        (Ok((next, action)), Ok((next_view, action_view))) => next@ == next_view && action@
            == action_view,
        (Err(error), Err(expected_error)) => error == expected_error,
        _ => false,
    }
}

/// At the menu no line is an error: one that names no entry is rejected, and
/// the menu stays.
pub proof fn law_menu_never_fails(line: Seq<char>)
    ensures
        step_of(ShellStateView::MenuWait, line) is Ok,
        command_of(line) == Command::Invalid ==> step_of(ShellStateView::MenuWait, line) == Ok::<
            (ShellStateView, ActionView),
            InputParseError,
        >((ShellStateView::MenuWait, ActionView::Reject)),
{
}

/// Only an answer that has to be a number can be an error: the id where an id
/// is awaited, the year where a year is.
pub proof fn law_only_numbers_fail(state: ShellStateView, line: Seq<char>)
    requires
        step_of(state, line) is Err,
    ensures
        step_of(state, line) == Err::<(ShellStateView, ActionView), InputParseError>(
            InputParseError::Id,
        ) ==> (state == ShellStateView::RemovePrompt || state == ShellStateView::EditPrompt(
            EditStageView::Id,
        )) && parsed_i32(trimmed(line)) is None,
        step_of(state, line) == Err::<(ShellStateView, ActionView), InputParseError>(
            InputParseError::Year,
        ) ==> (state matches ShellStateView::AddPrompt(AddStageView::Year { .. })
            || state matches ShellStateView::EditPrompt(EditStageView::Year { .. })) && parsed_u32(
            trimmed(line),
        ) is None,
{
}

/// Whatever is asked of the store is asked with the last answer, on the way
/// back to the menu.
pub proof fn law_store_work_returns_to_menu(state: ShellStateView, line: Seq<char>)
    ensures
        step_of(state, line) matches Ok((next, action)) ==> (action is Add || action is List
            || action is Update || action is Remove) ==> next == ShellStateView::MenuWait,
{
}

/// Wherever the shell asks for a line, it has words for the line that cannot
/// be read; and it asks in every state but the last.
pub proof fn law_every_question_has_its_complaint(state: ShellStateView)
    ensures
        prompt_of(state) is Some <==> read_failure_of(state) is Some,
        prompt_of(state) is Some <==> state != ShellStateView::Done,
{
}

/// Once the shell is done it stays done, and asks for nothing more.
pub proof fn law_done_is_final(line: Seq<char>)
    ensures
        step_of(ShellStateView::Done, line) == Ok::<(ShellStateView, ActionView), InputParseError>(
            (ShellStateView::Done, ActionView::Nothing),
        ),
{
}

impl InputParseError {
    /// The text of the error: which number was asked for.
    pub open spec fn message_of(self) -> Seq<char> {
        match self {
            InputParseError::Id => BAD_ID@,
            InputParseError::Year => BAD_YEAR@,
        }
    }

    /// The text of the error.
    pub fn message(&self) -> (text: &'static str)
        ensures
            text@ == self.message_of(),
    {
        match self {
            InputParseError::Id => BAD_ID,
            InputParseError::Year => BAD_YEAR,
        }
    }
}

/// What to show before reading a line in `state`.
pub fn prompt(state: &ShellState) -> (text: Option<&'static str>)
    ensures
        reads(text, prompt_of(state@)),
{
    match state {
        ShellState::MenuWait => Some(MENU),
        ShellState::AddPrompt(AddStage::Title) => Some(ASK_TITLE),
        ShellState::AddPrompt(AddStage::Author { .. }) => Some(ASK_AUTHOR),
        ShellState::AddPrompt(AddStage::Year { .. }) => Some(ASK_YEAR),
        ShellState::AddPrompt(AddStage::Genre { .. }) => Some(ASK_GENRE),
        ShellState::EditPrompt(EditStage::Id) => Some(ASK_EDIT_ID),
        ShellState::EditPrompt(EditStage::Title { .. }) => Some(ASK_NEW_TITLE),
        ShellState::EditPrompt(EditStage::Author { .. }) => Some(ASK_NEW_AUTHOR),
        ShellState::EditPrompt(EditStage::Year { .. }) => Some(ASK_NEW_YEAR),
        ShellState::EditPrompt(EditStage::Genre { .. }) => Some(ASK_NEW_GENRE),
        ShellState::RemovePrompt => Some(ASK_REMOVE_ID),
        ShellState::Done => None,
    }
}

/// What to say where no line can be read in `state`.
pub fn read_failure(state: &ShellState) -> (text: Option<&'static str>)
    ensures
        reads(text, read_failure_of(state@)),
{
    match state {
        ShellState::MenuWait => Some(NO_LINE),
        ShellState::AddPrompt(AddStage::Title) => Some(NO_TITLE),
        ShellState::AddPrompt(AddStage::Author { .. }) => Some(NO_AUTHOR),
        ShellState::AddPrompt(AddStage::Year { .. }) => Some(NO_YEAR),
        ShellState::AddPrompt(AddStage::Genre { .. }) => Some(NO_GENRE),
        ShellState::EditPrompt(EditStage::Id) => Some(NO_ID),
        ShellState::EditPrompt(EditStage::Title { .. }) => Some(NO_TITLE),
        ShellState::EditPrompt(EditStage::Author { .. }) => Some(NO_AUTHOR),
        ShellState::EditPrompt(EditStage::Year { .. }) => Some(NO_YEAR),
        ShellState::EditPrompt(EditStage::Genre { .. }) => Some(NO_GENRE),
        ShellState::RemovePrompt => Some(NO_ID),
        ShellState::Done => None,
    }
}

/// What to tell the user once `action` has been carried out.
pub fn notice(action: &Action) -> (text: Option<&'static str>)
    ensures
        reads(text, notice_of(action@)),
{
    match action {
        Action::Nothing => None,
        Action::Add { .. } => Some(ADDED),
        Action::List => None,
        Action::Update { .. } => Some(UPDATED),
        Action::Remove { .. } => Some(REMOVED),
        Action::Reject => Some(REJECTED),
        Action::Quit => Some(GOODBYE),
    }
}

/// The state in which the shell starts.
pub fn start() -> (state: ShellState)
    ensures
        state@ == ShellStateView::MenuWait,
{
    ShellState::MenuWait
}

/// Takes a choice typed at the menu.
fn step_menu(line: &str) -> (r: (ShellState, Action))
    ensures
        (r.0@, r.1@) == after_menu(command_of(line@)),
{
    match parse_command(line) {
        Command::AddBook => (ShellState::AddPrompt(AddStage::Title), Action::Nothing),
        Command::ShowInventory => (ShellState::MenuWait, Action::List),
        Command::EditBook => (ShellState::EditPrompt(EditStage::Id), Action::Nothing),
        Command::RemoveBook => (ShellState::RemovePrompt, Action::Nothing),
        Command::Exit => (ShellState::Done, Action::Quit),
        Command::Invalid => (ShellState::MenuWait, Action::Reject),
    }
}

/// Takes an answer while a new record is asked for.
fn step_add(stage: AddStage, answer: &str) -> (r: Result<(ShellState, Action), InputParseError>)
    ensures
        agrees(r, after_add_answer(stage@, answer@)),
{
    match stage {
        AddStage::Title => Ok(
            (
                ShellState::AddPrompt(AddStage::Author { title: String::from_str(answer) }),
                Action::Nothing,
            ),
        ),
        AddStage::Author { title } => Ok(
            (
                ShellState::AddPrompt(AddStage::Year { title, author: String::from_str(answer) }),
                Action::Nothing,
            ),
        ),
        AddStage::Year { title, author } => match parse_u32(answer) {
            Some(year) => Ok(
                (ShellState::AddPrompt(AddStage::Genre { title, author, year }), Action::Nothing),
            ),
            None => Err(InputParseError::Year),
        },
        AddStage::Genre { title, author, year } => Ok(
            (
                ShellState::MenuWait,
                Action::Add { title, author, year, genre: String::from_str(answer) },
            ),
        ),
    }
}

/// Takes an answer while an edit is asked for.
fn step_edit(stage: EditStage, answer: &str) -> (r: Result<(ShellState, Action), InputParseError>)
    ensures
        agrees(r, after_edit_answer(stage@, answer@)),
{
    match stage {
        EditStage::Id => match parse_i32(answer) {
            Some(id) => Ok((ShellState::EditPrompt(EditStage::Title { id }), Action::Nothing)),
            None => Err(InputParseError::Id),
        },
        EditStage::Title { id } => Ok(
            (
                ShellState::EditPrompt(EditStage::Author { id, title: String::from_str(answer) }),
                Action::Nothing,
            ),
        ),
        EditStage::Author { id, title } => Ok(
            (
                ShellState::EditPrompt(
                    EditStage::Year { id, title, author: String::from_str(answer) },
                ),
                Action::Nothing,
            ),
        ),
        EditStage::Year { id, title, author } => match parse_u32(answer) {
            Some(year) => Ok(
                (
                    ShellState::EditPrompt(EditStage::Genre { id, title, author, year }),
                    Action::Nothing,
                ),
            ),
            None => Err(InputParseError::Year),
        },
        EditStage::Genre { id, title, author, year } => Ok(
            (
                ShellState::MenuWait,
                Action::Update { id, title, author, year, genre: String::from_str(answer) },
            ),
        ),
    }
}

/// Takes in one line of input.
///
/// At the menu the line is a choice, and one that names no entry is rejected
/// and asked for again. In a prompt it is an answer, taken without the white
/// space around it; one that should be a number and is none is an error.
/// Once the shell is done, lines are ignored.
pub fn step(state: ShellState, line: &str) -> (r: Result<(ShellState, Action), InputParseError>)
    ensures
        agrees(r, step_of(state@, line@)),
{
    match state {
        ShellState::MenuWait => Ok(step_menu(line)),
        ShellState::AddPrompt(stage) => step_add(stage, trim(line)),
        ShellState::EditPrompt(stage) => step_edit(stage, trim(line)),
        ShellState::RemovePrompt => match parse_i32(trim(line)) {
            Some(id) => Ok((ShellState::MenuWait, Action::Remove { id })),
            None => Err(InputParseError::Id),
        },
        ShellState::Done => Ok((ShellState::Done, Action::Nothing)),
    }
}

} // verus!

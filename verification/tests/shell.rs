use book_inventory::shell::{
    notice, prompt, read_failure, start, step, Action, AddStage, EditStage, InputParseError,
    ShellState,
};

fn advance(state: ShellState, line: &str) -> (ShellState, Action) {
    step(state, line).unwrap()
}

#[test]
fn shell_starts_at_the_menu() {
    assert!(matches!(start(), ShellState::MenuWait));
}

#[test]
fn menu_choice_one_asks_for_a_title() {
    let (state, action) = advance(start(), "1\n");
    assert!(matches!(state, ShellState::AddPrompt(AddStage::Title)));
    assert!(matches!(action, Action::Nothing));
}

#[test]
fn menu_choice_two_lists_and_stays() {
    let (state, action) = advance(start(), "2\n");
    assert!(matches!(state, ShellState::MenuWait));
    assert!(matches!(action, Action::List));
}

#[test]
fn menu_choice_three_asks_for_an_id() {
    let (state, action) = advance(start(), "3\n");
    assert!(matches!(state, ShellState::EditPrompt(EditStage::Id)));
    assert!(matches!(action, Action::Nothing));
}

#[test]
fn menu_choice_four_asks_for_an_id() {
    let (state, action) = advance(start(), "4\n");
    assert!(matches!(state, ShellState::RemovePrompt));
    assert!(matches!(action, Action::Nothing));
}

#[test]
fn menu_choice_five_ends_the_shell() {
    let (state, action) = advance(start(), "5\n");
    assert!(matches!(state, ShellState::Done));
    assert!(matches!(action, Action::Quit));
}

#[test]
fn menu_rejects_other_input_and_stays() {
    for line in ["0\n", "6\n", "x\n", "\n", "", "1 1\n", "-3\n"] {
        let (state, action) = advance(start(), line);
        assert!(matches!(state, ShellState::MenuWait), "{:?}", line);
        assert!(matches!(action, Action::Reject), "{:?}", line);
    }
}

#[test]
fn add_prompt_collects_four_answers() {
    let (state, _) = advance(start(), "1\n");
    let (state, action) = advance(state, "  Dune \n");
    assert!(matches!(action, Action::Nothing));
    match &state {
        ShellState::AddPrompt(AddStage::Author { title }) => assert_eq!(title, "Dune"),
        other => panic!("{:?}", other),
    }
    let (state, action) = advance(state, "Frank Herbert\n");
    assert!(matches!(action, Action::Nothing));
    match &state {
        ShellState::AddPrompt(AddStage::Year { title, author }) => {
            assert_eq!(title, "Dune");
            assert_eq!(author, "Frank Herbert");
        }
        other => panic!("{:?}", other),
    }
    let (state, action) = advance(state, " 1965\n");
    assert!(matches!(action, Action::Nothing));
    match &state {
        ShellState::AddPrompt(AddStage::Genre { title, author, year }) => {
            assert_eq!(title, "Dune");
            assert_eq!(author, "Frank Herbert");
            assert_eq!(*year, 1965);
        }
        other => panic!("{:?}", other),
    }
    let (state, action) = advance(state, "SciFi\n");
    assert!(matches!(state, ShellState::MenuWait));
    match action {
        Action::Add { title, author, year, genre } => {
            assert_eq!(title, "Dune");
            assert_eq!(author, "Frank Herbert");
            assert_eq!(year, 1965);
            assert_eq!(genre, "SciFi");
        }
        other => panic!("{:?}", other),
    }
}

#[test]
fn add_prompt_fails_on_a_year_that_is_no_number() {
    for line in ["nineteen\n", "\n", "-1965\n", "19 65\n", "4294967296\n"] {
        let state = ShellState::AddPrompt(AddStage::Year {
            title: "Dune".to_string(),
            author: "Frank Herbert".to_string(),
        });
        assert_eq!(step(state, line).unwrap_err(), InputParseError::Year, "{:?}", line);
    }
}

#[test]
fn edit_prompt_collects_five_answers() {
    let (state, _) = advance(start(), " 3 \n");
    let (state, action) = advance(state, "12\n");
    assert!(matches!(action, Action::Nothing));
    assert!(matches!(state, ShellState::EditPrompt(EditStage::Title { id: 12 })));
    let (state, action) = advance(state, "The Rust Programming Language\n");
    assert!(matches!(action, Action::Nothing));
    match &state {
        ShellState::EditPrompt(EditStage::Author { id, title }) => {
            assert_eq!(*id, 12);
            assert_eq!(title, "The Rust Programming Language");
        }
        other => panic!("{:?}", other),
    }
    let (state, action) = advance(state, "Steve Klabnik and Carol Nichols\n");
    assert!(matches!(action, Action::Nothing));
    match &state {
        ShellState::EditPrompt(EditStage::Year { id, title, author }) => {
            assert_eq!(*id, 12);
            assert_eq!(title, "The Rust Programming Language");
            assert_eq!(author, "Steve Klabnik and Carol Nichols");
        }
        other => panic!("{:?}", other),
    }
    let (state, action) = advance(state, "2018\n");
    assert!(matches!(action, Action::Nothing));
    match &state {
        ShellState::EditPrompt(EditStage::Genre { id, title, author, year }) => {
            assert_eq!(*id, 12);
            assert_eq!(title, "The Rust Programming Language");
            assert_eq!(author, "Steve Klabnik and Carol Nichols");
            assert_eq!(*year, 2018);
        }
        other => panic!("{:?}", other),
    }
    let (state, action) = advance(state, "Programming\n");
    assert!(matches!(state, ShellState::MenuWait));
    match action {
        Action::Update { id, title, author, year, genre } => {
            assert_eq!(id, 12);
            assert_eq!(title, "The Rust Programming Language");
            assert_eq!(author, "Steve Klabnik and Carol Nichols");
            assert_eq!(year, 2018);
            assert_eq!(genre, "Programming");
        }
        other => panic!("{:?}", other),
    }
}

#[test]
fn edit_prompt_fails_on_an_id_that_is_no_number() {
    for line in ["twelve\n", "\n", "1.5\n", "2147483648\n"] {
        let state = ShellState::EditPrompt(EditStage::Id);
        assert_eq!(step(state, line).unwrap_err(), InputParseError::Id, "{:?}", line);
    }
}

#[test]
fn edit_prompt_fails_on_a_year_that_is_no_number() {
    let state = ShellState::EditPrompt(EditStage::Year {
        id: 1,
        title: "T".to_string(),
        author: "A".to_string(),
    });
    assert_eq!(step(state, "soon\n").unwrap_err(), InputParseError::Year);
}

#[test]
fn edit_prompt_takes_a_negative_id() {
    let (state, action) = advance(ShellState::EditPrompt(EditStage::Id), "-4\n");
    assert!(matches!(action, Action::Nothing));
    assert!(matches!(state, ShellState::EditPrompt(EditStage::Title { id: -4 })));
}

#[test]
fn remove_prompt_takes_an_id() {
    let (state, _) = advance(start(), "4\n");
    let (state, action) = advance(state, " 7\n");
    assert!(matches!(state, ShellState::MenuWait));
    assert!(matches!(action, Action::Remove { id: 7 }));
}

#[test]
fn remove_prompt_fails_on_an_id_that_is_no_number() {
    assert_eq!(step(ShellState::RemovePrompt, "seven\n").unwrap_err(), InputParseError::Id);
    assert_eq!(step(ShellState::RemovePrompt, "").unwrap_err(), InputParseError::Id);
}

#[test]
fn done_ignores_every_line() {
    for line in ["1\n", "5\n", "anything", ""] {
        let (state, action) = advance(ShellState::Done, line);
        assert!(matches!(state, ShellState::Done));
        assert!(matches!(action, Action::Nothing));
    }
}

#[test]
fn answers_may_be_empty() {
    let (state, _) = advance(ShellState::AddPrompt(AddStage::Title), " \n");
    match &state {
        ShellState::AddPrompt(AddStage::Author { title }) => assert_eq!(title, ""),
        other => panic!("{:?}", other),
    }
}

#[test]
fn prompt_shows_the_menu_at_the_menu() {
    assert_eq!(
        prompt(&ShellState::MenuWait),
        Some(
            "Book Inventory CLI:\n1. Add a new book\n2. Show book inventory\n3. Edit book information\n4. Remove a book from inventory\n5. Exit the program"
        )
    );
}

#[test]
fn prompt_asks_for_the_awaited_answer() {
    let t = || "t".to_string();
    assert_eq!(prompt(&ShellState::AddPrompt(AddStage::Title)), Some("Enter book title: "));
    assert_eq!(
        prompt(&ShellState::AddPrompt(AddStage::Author { title: t() })),
        Some("Enter author's name: ")
    );
    assert_eq!(
        prompt(&ShellState::AddPrompt(AddStage::Year { title: t(), author: t() })),
        Some("Enter year of publication: ")
    );
    assert_eq!(
        prompt(&ShellState::AddPrompt(AddStage::Genre { title: t(), author: t(), year: 1 })),
        Some("Enter genre of the book: ")
    );
    assert_eq!(
        prompt(&ShellState::EditPrompt(EditStage::Id)),
        Some("Enter the ID of the book to edit: ")
    );
    assert_eq!(
        prompt(&ShellState::EditPrompt(EditStage::Title { id: 1 })),
        Some("Enter new title: ")
    );
    assert_eq!(
        prompt(&ShellState::EditPrompt(EditStage::Author { id: 1, title: t() })),
        Some("Enter new author's name: ")
    );
    assert_eq!(
        prompt(&ShellState::EditPrompt(EditStage::Year { id: 1, title: t(), author: t() })),
        Some("Enter new year of publication: ")
    );
    assert_eq!(
        prompt(&ShellState::EditPrompt(EditStage::Genre {
            id: 1,
            title: t(),
            author: t(),
            year: 1
        })),
        Some("Enter new genre: ")
    );
    assert_eq!(
        prompt(&ShellState::RemovePrompt),
        Some("Enter the ID of the book to remove: ")
    );
    assert_eq!(prompt(&ShellState::Done), None);
}

#[test]
fn notice_confirms_what_was_done() {
    let t = || "t".to_string();
    assert_eq!(notice(&Action::Nothing), None);
    assert_eq!(notice(&Action::List), None);
    assert_eq!(
        notice(&Action::Add { title: t(), author: t(), year: 1, genre: t() }),
        Some("Book added to inventory!")
    );
    assert_eq!(
        notice(&Action::Update { id: 1, title: t(), author: t(), year: 1, genre: t() }),
        Some("Book information updated!")
    );
    assert_eq!(notice(&Action::Remove { id: 1 }), Some("Book removed from inventory!"));
    assert_eq!(notice(&Action::Reject), Some("Invalid command, please try again."));
    assert_eq!(notice(&Action::Quit), Some("Exiting the program."));
}

#[test]
fn input_parse_error_says_which_number() {
    assert_eq!(InputParseError::Id.message(), "Please enter a valid number for ID");
    assert_eq!(InputParseError::Year.message(), "Please enter a valid number for the year");
}

#[test]
fn store_work_is_asked_for_on_the_way_back_to_the_menu() {
    let genre_of_new = ShellState::AddPrompt(AddStage::Genre {
        title: "T".to_string(),
        author: "A".to_string(),
        year: 1,
    });
    let (state, action) = advance(genre_of_new, "G\n");
    assert!(matches!(action, Action::Add { .. }));
    assert!(matches!(state, ShellState::MenuWait));
    let genre_of_edit = ShellState::EditPrompt(EditStage::Genre {
        id: 1,
        title: "T".to_string(),
        author: "A".to_string(),
        year: 1,
    });
    let (state, action) = advance(genre_of_edit, "G\n");
    assert!(matches!(action, Action::Update { .. }));
    assert!(matches!(state, ShellState::MenuWait));
}

#[test]
fn a_whole_session() {
    let lines = [
        "1\n", "Dune\n", "Frank Herbert\n", "1965\n", "SciFi\n", "2\n", "9\n", "3\n", "1\n",
        "Dune Messiah\n", "Frank Herbert\n", "1969\n", "SciFi\n", "4\n", "1\n", "5\n",
    ];
    let mut state = start();
    let mut asked = Vec::new();
    for line in lines {
        assert!(prompt(&state).is_some());
        let (next, action) = advance(state, line);
        match action {
            Action::Nothing => {}
            other => asked.push(format!("{:?}", other)),
        }
        state = next;
    }
    assert!(matches!(state, ShellState::Done));
    assert_eq!(prompt(&state), None);
    assert_eq!(
        asked,
        vec![
            "Add { title: \"Dune\", author: \"Frank Herbert\", year: 1965, genre: \"SciFi\" }",
            "List",
            "Reject",
            "Update { id: 1, title: \"Dune Messiah\", author: \"Frank Herbert\", year: 1969, genre: \"SciFi\" }",
            "Remove { id: 1 }",
            "Quit",
        ]
    );
}

#[test]
fn read_failure_names_what_was_awaited() {
    let t = || "t".to_string();
    assert_eq!(read_failure(&ShellState::MenuWait), Some("Failed to read line"));
    assert_eq!(read_failure(&ShellState::AddPrompt(AddStage::Title)), Some("Failed to read title"));
    assert_eq!(
        read_failure(&ShellState::AddPrompt(AddStage::Author { title: t() })),
        Some("Failed to read author")
    );
    assert_eq!(
        read_failure(&ShellState::AddPrompt(AddStage::Year { title: t(), author: t() })),
        Some("Failed to read year of publication")
    );
    assert_eq!(
        read_failure(&ShellState::AddPrompt(AddStage::Genre { title: t(), author: t(), year: 1 })),
        Some("Failed to read genre")
    );
    assert_eq!(read_failure(&ShellState::EditPrompt(EditStage::Id)), Some("Failed to read ID"));
    assert_eq!(
        read_failure(&ShellState::EditPrompt(EditStage::Title { id: 1 })),
        Some("Failed to read title")
    );
    assert_eq!(
        read_failure(&ShellState::EditPrompt(EditStage::Author { id: 1, title: t() })),
        Some("Failed to read author")
    );
    assert_eq!(
        read_failure(&ShellState::EditPrompt(EditStage::Year { id: 1, title: t(), author: t() })),
        Some("Failed to read year of publication")
    );
    assert_eq!(
        read_failure(&ShellState::EditPrompt(EditStage::Genre {
            id: 1,
            title: t(),
            author: t(),
            year: 1
        })),
        Some("Failed to read genre")
    );
    assert_eq!(read_failure(&ShellState::RemovePrompt), Some("Failed to read ID"));
    assert_eq!(read_failure(&ShellState::Done), None);
}

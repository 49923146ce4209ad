use book_inventory::book::{render_book, Book};
use book_inventory::command::{parse_command, Command};
use book_inventory::text::{
    chars_of, parse_i32, parse_u32, push_decimal, push_signed_decimal, trim, white_space,
};

#[test]
fn white_space_is_what_std_calls_white_space() {
    for code in 0u32..=0x10FFFF {
        if let Some(c) = char::from_u32(code) {
            assert_eq!(white_space(c), c.is_whitespace(), "U+{:04X}", code);
        }
    }
}

#[test]
fn white_space_of_named_characters() {
    assert!(white_space(' '));
    assert!(white_space('\t'));
    assert!(white_space('\n'));
    assert!(white_space('\r'));
    assert!(white_space('\u{00A0}'));
    assert!(white_space('\u{3000}'));
    assert!(!white_space('a'));
    assert!(!white_space('0'));
    assert!(!white_space('\u{200B}'));
    assert!(!white_space('\u{180E}'));
}

#[test]
fn chars_of_keeps_every_character() {
    assert_eq!(chars_of(""), Vec::<char>::new());
    assert_eq!(chars_of("a b"), vec!['a', ' ', 'b']);
    assert_eq!(chars_of("é本\n"), vec!['é', '本', '\n']);
}

#[test]
fn trim_removes_white_space_at_both_ends() {
    assert_eq!(trim("  Dune \n"), "Dune");
    assert_eq!(trim("Dune"), "Dune");
    assert_eq!(trim("\tFrank  Herbert\r\n"), "Frank  Herbert");
    assert_eq!(trim("\u{3000}本\u{00A0}"), "本");
}

#[test]
fn trim_of_blank_text_is_empty() {
    assert_eq!(trim(""), "");
    assert_eq!(trim(" "), "");
    assert_eq!(trim(" \t\r\n\u{2003}"), "");
}

#[test]
fn trim_agrees_with_std() {
    let samples = [
        "", " ", "a", " a", "a ", " a ", "\n\na b\tc\n", "  \u{1680}x\u{2028}", "x\u{200B} ",
        "\u{85}1965\u{85}", "é ", " 本 棚 ",
    ];
    for sample in samples {
        assert_eq!(trim(sample), sample.trim(), "{:?}", sample);
    }
}

#[test]
fn parse_u32_reads_decimal_numbers() {
    assert_eq!(parse_u32("0"), Some(0));
    assert_eq!(parse_u32("7"), Some(7));
    assert_eq!(parse_u32("1965"), Some(1965));
    assert_eq!(parse_u32("+42"), Some(42));
    assert_eq!(parse_u32("00012"), Some(12));
    assert_eq!(parse_u32("4294967295"), Some(4294967295));
    assert_eq!(parse_u32("0000000000000000000000004294967295"), Some(4294967295));
}

#[test]
fn parse_u32_rejects_what_is_no_number() {
    assert_eq!(parse_u32(""), None);
    assert_eq!(parse_u32("+"), None);
    assert_eq!(parse_u32("-"), None);
    assert_eq!(parse_u32("-1"), None);
    assert_eq!(parse_u32("-0"), None);
    assert_eq!(parse_u32("++1"), None);
    assert_eq!(parse_u32(" 1"), None);
    assert_eq!(parse_u32("1 "), None);
    assert_eq!(parse_u32("1_000"), None);
    assert_eq!(parse_u32("12a"), None);
    assert_eq!(parse_u32("1.5"), None);
    assert_eq!(parse_u32("１２"), None);
    assert_eq!(parse_u32("4294967296"), None);
    assert_eq!(parse_u32("99999999999999999999999999"), None);
    assert_eq!(parse_u32("4294967296x"), None);
}

#[test]
fn parse_i32_reads_signed_decimal_numbers() {
    assert_eq!(parse_i32("0"), Some(0));
    assert_eq!(parse_i32("-0"), Some(0));
    assert_eq!(parse_i32("+0"), Some(0));
    assert_eq!(parse_i32("17"), Some(17));
    assert_eq!(parse_i32("-17"), Some(-17));
    assert_eq!(parse_i32("+17"), Some(17));
    assert_eq!(parse_i32("2147483647"), Some(2147483647));
    assert_eq!(parse_i32("-2147483648"), Some(-2147483648));
    assert_eq!(parse_i32("-0002147483648"), Some(-2147483648));
}

#[test]
fn parse_i32_rejects_what_is_no_number() {
    assert_eq!(parse_i32(""), None);
    assert_eq!(parse_i32("+"), None);
    assert_eq!(parse_i32("-"), None);
    assert_eq!(parse_i32("-+1"), None);
    assert_eq!(parse_i32("+-1"), None);
    assert_eq!(parse_i32("--1"), None);
    assert_eq!(parse_i32("1-"), None);
    assert_eq!(parse_i32(" 1"), None);
    assert_eq!(parse_i32("one"), None);
    assert_eq!(parse_i32("2147483648"), None);
    assert_eq!(parse_i32("-2147483649"), None);
    assert_eq!(parse_i32("-99999999999999999999"), None);
}

#[test]
fn parsing_agrees_with_std() {
    let samples = [
        "", "+", "-", "0", "-0", "+0", "007", "+007", "-007", "12", "-12", "4294967295",
        "4294967296", "2147483647", "2147483648", "-2147483648", "-2147483649", "1e3", "0x10",
        " 5", "5 ", "5\n", "٣", "1,000", "+-5", "-+5", "18446744073709551616",
    ];
    for sample in samples {
        assert_eq!(parse_u32(sample), sample.parse::<u32>().ok(), "{:?}", sample);
        assert_eq!(parse_i32(sample), sample.parse::<i32>().ok(), "{:?}", sample);
    }
}

#[test]
fn push_decimal_writes_base_ten() {
    let mut out = String::new();
    push_decimal(&mut out, 0);
    assert_eq!(out, "0");
    push_decimal(&mut out, 1965);
    assert_eq!(out, "01965");
    let mut out = String::from("n=");
    push_decimal(&mut out, 18446744073709551615);
    assert_eq!(out, "n=18446744073709551615");
    let mut out = String::new();
    push_decimal(&mut out, 1000);
    assert_eq!(out, "1000");
}

#[test]
fn push_signed_decimal_writes_the_sign() {
    let mut out = String::new();
    push_signed_decimal(&mut out, -1);
    assert_eq!(out, "-1");
    let mut out = String::new();
    push_signed_decimal(&mut out, 0);
    assert_eq!(out, "0");
    let mut out = String::new();
    push_signed_decimal(&mut out, 2147483647);
    assert_eq!(out, "2147483647");
    let mut out = String::new();
    push_signed_decimal(&mut out, -2147483648);
    assert_eq!(out, "-2147483648");
    let mut out = String::new();
    push_signed_decimal(&mut out, i64::MIN);
    assert_eq!(out, "-9223372036854775808");
    let mut out = String::new();
    push_signed_decimal(&mut out, i64::MAX);
    assert_eq!(out, "9223372036854775807");
}

#[test]
fn decimal_agrees_with_std() {
    let samples: [i64; 9] = [0, 9, 10, 99, 100, 101, -10, 1234567890, -987654321];
    for sample in samples {
        let mut out = String::new();
        push_signed_decimal(&mut out, sample);
        assert_eq!(out, format!("{}", sample));
    }
}

#[test]
fn what_is_written_can_be_read_back() {
    let samples: [u32; 6] = [0, 1, 10, 1965, 2147483648, 4294967295];
    for sample in samples {
        let mut out = String::new();
        push_decimal(&mut out, sample as u64);
        assert_eq!(parse_u32(&out), Some(sample));
    }
}

#[test]
fn render_book_labels_every_field() {
    let book = Book {
        id: 1,
        title: "Dune".to_string(),
        author: "Frank Herbert".to_string(),
        year: 1965,
        genre: "SciFi".to_string(),
    };
    assert_eq!(
        render_book(&book),
        "ID: 1, Title: Dune, Author: Frank Herbert, Year: 1965, Genre: SciFi"
    );
}

#[test]
fn render_book_of_edge_values() {
    let book = Book {
        id: -2147483648,
        title: String::new(),
        author: "a, b".to_string(),
        year: 4294967295,
        genre: "本".to_string(),
    };
    assert_eq!(
        render_book(&book),
        "ID: -2147483648, Title: , Author: a, b, Year: 4294967295, Genre: 本"
    );
    let book = Book {
        id: 0,
        title: "T".to_string(),
        author: "A".to_string(),
        year: 0,
        genre: "G".to_string(),
    };
    assert_eq!(render_book(&book), "ID: 0, Title: T, Author: A, Year: 0, Genre: G");
}

#[test]
fn book_clone_keeps_every_field() {
    let book = Book {
        id: 3,
        title: "Rust in Action".to_string(),
        author: "Tim McNamara".to_string(),
        year: 2020,
        genre: "Technical".to_string(),
    };
    let copy = book.clone();
    assert_eq!(copy.id, 3);
    assert_eq!(copy.title, "Rust in Action");
    assert_eq!(copy.author, "Tim McNamara");
    assert_eq!(copy.year, 2020);
    assert_eq!(copy.genre, "Technical");
}

#[test]
fn parse_command_names_the_menu_entries() {
    assert_eq!(parse_command("1"), Command::AddBook);
    assert_eq!(parse_command("2"), Command::ShowInventory);
    assert_eq!(parse_command("3"), Command::EditBook);
    assert_eq!(parse_command("4"), Command::RemoveBook);
    assert_eq!(parse_command("5"), Command::Exit);
}

#[test]
fn parse_command_ignores_white_space_around_the_number() {
    assert_eq!(parse_command("1\n"), Command::AddBook);
    assert_eq!(parse_command("  2\r\n"), Command::ShowInventory);
    assert_eq!(parse_command("\t+3 "), Command::EditBook);
    assert_eq!(parse_command("004\n"), Command::RemoveBook);
}

#[test]
fn parse_command_rejects_everything_else() {
    assert_eq!(parse_command(""), Command::Invalid);
    assert_eq!(parse_command("\n"), Command::Invalid);
    assert_eq!(parse_command("0"), Command::Invalid);
    assert_eq!(parse_command("6"), Command::Invalid);
    assert_eq!(parse_command("-1"), Command::Invalid);
    assert_eq!(parse_command("add"), Command::Invalid);
    assert_eq!(parse_command("1 2"), Command::Invalid);
    assert_eq!(parse_command("1.0"), Command::Invalid);
    assert_eq!(parse_command("4294967297"), Command::Invalid);
}

#[test]
fn trimming_twice_is_trimming_once() {
    for sample in ["", "  ", " a b ", "\n\tDune\r\n", "x", "\u{2003}本 棚\u{3000}"] {
        let once = trim(sample);
        assert_eq!(trim(once), once, "{:?}", sample);
        if let Some(first) = once.chars().next() {
            assert!(!white_space(first));
        }
        if let Some(last) = once.chars().last() {
            assert!(!white_space(last));
        }
    }
}

#[test]
fn a_shown_id_can_be_read_back() {
    let samples: [i32; 7] = [0, 1, -1, 10, -10, 2147483647, -2147483648];
    for sample in samples {
        let mut out = String::new();
        push_signed_decimal(&mut out, sample as i64);
        assert_eq!(parse_i32(&out), Some(sample));
    }
}

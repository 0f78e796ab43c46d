use kanban::text::join_one_line;
use kanban::text::join_rows;
use kanban::text::split_rows;
use kanban::text::to_single_line;
use kanban::Check;

fn rows(rows: &[&str]) -> Vec<String> {
    rows.iter().map(|row| row.to_string()).collect()
}

#[test]
fn splits_a_text_into_its_rows() {
    assert_eq!(split_rows(""), rows(&[""]));
    assert_eq!(split_rows("a"), rows(&["a"]));
    assert_eq!(split_rows("a\n"), rows(&["a", ""]));
    assert_eq!(split_rows("\n"), rows(&["", ""]));
    assert_eq!(split_rows("a\r\nb\n\nc"), rows(&["a\r", "b", "", "c"]));
}

#[test]
fn splits_into_rows_as_the_standard_library_does() {
    for text in ["", "\n", "a", "a\nb", "a\n\n", "\r\n", "ü\n✓\n"] {
        let expected: Vec<String> = text.split('\n').map(|row| row.to_string()).collect();
        assert_eq!(split_rows(text), expected, "for {:?}", text);
    }
}

#[test]
fn joins_rows_with_line_feeds_between() {
    assert_eq!(join_rows(&[]), "");
    assert_eq!(join_rows(&rows(&[""])), "");
    assert_eq!(join_rows(&rows(&["a"])), "a");
    assert_eq!(join_rows(&rows(&["a", "b"])), "a\nb");
    assert_eq!(join_rows(&rows(&["a", "", "b", ""])), "a\n\nb\n");
}

#[test]
fn rows_joined_again_are_the_text() {
    for text in ["", "\n", "a", "a\nb", "a\n\n", "\r\n", "ü\n✓\n", "\n\n\n"] {
        assert_eq!(join_rows(&split_rows(text)), text);
    }
}

#[test]
fn takes_the_line_feeds_out() {
    assert_eq!(to_single_line(""), "");
    assert_eq!(to_single_line("\n"), "");
    assert_eq!(to_single_line("a\nb\r\nc\n"), "ab\rc");
    assert_eq!(to_single_line("plain"), "plain");
}

#[test]
fn puts_title_rows_on_one_line() {
    assert_eq!(join_one_line(&[]), "");
    assert_eq!(join_one_line(&rows(&["a", "b", "", "c"])), "abc");
    assert_eq!(join_one_line(&rows(&["a\nb", "\n"])), "ab");
}

#[test]
fn a_check_is_read_from_its_mark_and_title() {
    let done = Check::parse("[x] milk").unwrap();
    assert!(done.done);
    assert_eq!(done.title, "milk");
    let open = Check::parse("[ ] eggs and ham").unwrap();
    assert!(!open.done);
    assert_eq!(open.title, "eggs and ham");
    let bare = Check::parse("[x] ").unwrap();
    assert!(bare.done);
    assert_eq!(bare.title, "");
    let other = Check::from("[X] shout");
    assert!(!other.done);
    assert_eq!(other.title, "shout");
    let odd = Check::from("abcdé");
    assert!(!odd.done);
    assert_eq!(odd.title, "é");
}

#[test]
fn whitespace_before_a_mark_is_passed_over() {
    let check = Check::parse("\t\t\t\t [x] deep").unwrap();
    assert!(check.done);
    assert_eq!(check.title, "deep");
    let wide = Check::parse("\u{3000}\u{a0}[x] wide space").unwrap();
    assert!(wide.done);
    assert_eq!(wide.title, "wide space");
    let kept = Check::from("  [ ]  two spaces");
    assert!(!kept.done);
    assert_eq!(kept.title, " two spaces");
}

#[test]
fn a_text_without_a_mark_is_no_check() {
    assert!(Check::parse("").is_none());
    assert!(Check::parse("[x]").is_none());
    assert!(Check::parse("   \t ").is_none());
    assert!(Check::parse("   [x]").is_none());
    assert!(Check::parse("abcé").is_none());
    assert!(Check::parse("✓✓").is_none());
    assert!(Check::parse("é✓é").is_none());
    assert!(Check::parse("éé").is_some());
    assert!(Check::parse("😀").is_some());
    assert!(Check::parse("a✓").is_some());
}

#[test]
fn a_check_is_written_as_its_mark_and_title() {
    assert_eq!(Check::new("milk", true).to_string(), "[x] milk");
    assert_eq!(Check::new("eggs", false).to_string(), "[ ] eggs");
    assert_eq!(Check::empty().to_string(), "[ ] ");
    let again = Check::parse(&Check::new(" ü ", true).to_string()).unwrap();
    assert!(again.done);
    assert_eq!(again.title, " ü ");
}

#[test]
fn whitespace_is_what_has_the_property_of_that_name() {
    let spaces = [
        0x0009..=0x000d,
        0x0020..=0x0020,
        0x0085..=0x0085,
        0x00a0..=0x00a0,
        0x1680..=0x1680,
        0x2000..=0x200a,
        0x2028..=0x2029,
        0x202f..=0x202f,
        0x205f..=0x205f,
        0x3000..=0x3000,
    ];
    let mut text = String::new();
    for code in 0..=0x10ffffu32 {
        if let Some(c) = char::from_u32(code) {
            text.clear();
            text.push(c);
            text.push('x');
            let expected = if spaces.iter().any(|range| range.contains(&code)) {
                "x"
            } else {
                text.as_str()
            };
            assert_eq!(kanban::check::trim_start(&text), expected, "for {:#x}", code);
        }
    }
}

#[test]
fn trims_the_whitespace_a_text_begins_with() {
    for text in ["", " ", "a", " a ", "\t\n\r x\t", "\u{2003}\u{85}é ", "\u{200b}x"] {
        assert_eq!(kanban::check::trim_start(text), text.trim_start(), "for {:?}", text);
    }
}

#[test]
fn checks_are_made_with_their_title() {
    let check = Check::new("milk", true);
    assert_eq!(check.title, "milk");
    assert!(check.done);
    let empty = Check::empty();
    assert_eq!(empty.title, "");
    assert!(!empty.done);
    let copy = check.clone();
    assert_eq!(copy.title, "milk");
    assert!(copy.done);
}

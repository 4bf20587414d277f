use notes_core::lines::{
    drop_first, edit_note, join_lines, parse_notes_file, split_lines, style_of, LineStyle,
};

#[test]
fn styles_classify_by_first_character() {
    assert_eq!(style_of("~done task"), LineStyle::Struck);
    assert_eq!(style_of("*important"), LineStyle::Emphasized);
    assert_eq!(style_of("plain"), LineStyle::Plain);
    assert_eq!(style_of(""), LineStyle::Plain);
}

#[test]
fn style_prefix_is_not_consumed_elsewhere() {
    // The prefix stays part of the stored line; only presentation drops it.
    assert_eq!(drop_first(String::from("~two")), "two");
    assert_eq!(drop_first(String::from("*three")), "three");
    assert_eq!(drop_first(String::from("")), "");
    assert_eq!(drop_first(String::from("x")), "");
}

#[test]
fn split_drops_terminators() {
    assert_eq!(split_lines("one\n~two\n*three\n"), vec!["one", "~two", "*three"]);
}

#[test]
fn split_without_trailing_terminator() {
    assert_eq!(split_lines("a\nb"), vec!["a", "b"]);
}

#[test]
fn split_empty_text_has_no_lines() {
    assert_eq!(split_lines(""), Vec::<String>::new());
}

#[test]
fn split_lone_terminator_is_one_empty_line() {
    assert_eq!(split_lines("\n"), vec![""]);
}

#[test]
fn join_terminates_every_line() {
    let lines = vec![String::from("a"), String::from(""), String::from("b")];
    assert_eq!(join_lines(&lines), "a\n\nb\n");
}

#[test]
fn parse_reads_lines_and_degrades_to_empty() {
    assert_eq!(parse_notes_file(Some("one\n~two\n")), vec!["one", "~two"]);
    assert_eq!(parse_notes_file(None), Vec::<String>::new());
}

#[test]
fn edit_replaces_exactly_one_line() {
    // Writing line 1 and reading the document back changes index 1 alone
    // and keeps the line count.
    let original = "one\n~two\n*three\n";
    let edited = edit_note(original, "TWO", 1).unwrap();
    assert_eq!(edited, "one\nTWO\n*three\n");
    let reread = split_lines(&edited);
    let before = split_lines(original);
    assert_eq!(reread.len(), before.len());
    assert_eq!(reread[0], before[0]);
    assert_eq!(reread[1], "TWO");
    assert_eq!(reread[2], before[2]);
}

#[test]
fn edit_out_of_range_is_refused() {
    assert_eq!(edit_note("a\nb\n", "x", 2), None);
    assert_eq!(edit_note("", "x", 0), None);
}

#[test]
fn notes_file_scenario() {
    // A note file with one plain, one struck and one emphasized line.
    let content = "one\n~two\n*three\n";
    let lines = parse_notes_file(Some(content));
    assert_eq!(lines, vec!["one", "~two", "*three"]);
    let tags: Vec<LineStyle> = lines.iter().map(|l| style_of(l)).collect();
    assert_eq!(tags, vec![LineStyle::Plain, LineStyle::Struck, LineStyle::Emphasized]);
    let rewritten = edit_note(content, "TWO", 1).unwrap();
    assert_eq!(split_lines(&rewritten), vec!["one", "TWO", "*three"]);
}

use chatview::log_store::{LogStore, LINE_SEPARATOR};
use chatview::text::string_of;

#[test]
fn new_log_is_empty() {
    let log = LogStore::new();
    assert_eq!(log.line_count(), 0);
    assert_eq!(log.render_text(), "");
    assert!(log.line(0).is_none());
}

#[test]
fn append_adds_lines_in_order() {
    let mut log = LogStore::new();
    log.append(String::from("first"));
    assert_eq!(log.line_count(), 1);
    log.append(String::from("second"));
    log.append(String::from("third"));
    assert_eq!(log.line_count(), 3);
    assert_eq!(log.line(0).unwrap(), "first");
    assert_eq!(log.line(1).unwrap(), "second");
    assert_eq!(log.line(2).unwrap(), "third");
    assert!(log.line(3).is_none());
}

#[test]
fn append_keeps_duplicates_and_empty_lines() {
    let mut log = LogStore::new();
    log.append(String::from("same"));
    log.append(String::from("same"));
    log.append(String::new());
    assert_eq!(log.line_count(), 3);
    assert_eq!(log.render_text(), "same\nsame\n\n");
}

#[test]
fn render_text_ends_every_line_with_separator() {
    assert_eq!(LINE_SEPARATOR, '\n');
    let mut log = LogStore::new();
    log.append(String::from("abc"));
    assert_eq!(log.render_text(), "abc\n");
    log.append(String::from("de"));
    assert_eq!(log.render_text(), "abc\nde\n");
}

#[test]
fn append_extends_rendering_at_the_end() {
    let mut log = LogStore::new();
    log.append(String::from("one"));
    log.append(String::from("two"));
    let before = log.render_text();
    log.append(String::from("three"));
    let after = log.render_text();
    assert_eq!(after, format!("{}three\n", before));
}

#[test]
fn log_grows_without_limit() {
    let mut log = LogStore::new();
    for i in 0..2000usize {
        log.append(format!("line {}", i));
        assert_eq!(log.line_count(), i + 1);
    }
    assert_eq!(log.line(0).unwrap(), "line 0");
    assert_eq!(log.line(1999).unwrap(), "line 1999");
}

#[test]
fn string_of_keeps_characters_in_order() {
    assert_eq!(string_of(&vec![]), "");
    assert_eq!(string_of(&vec!['a']), "a");
    assert_eq!(string_of(&vec!['h', 'é', '☆', ' ', 'z']), "hé☆ z");
}

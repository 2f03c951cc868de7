use panic_semihosting::payload::PanicPayload;
use panic_semihosting::report::{format_location, format_report};

fn payload(message: Option<&str>, file: &str, line: u32, column: u32) -> PanicPayload {
    PanicPayload::new(message.map(String::from), String::from(file), line, column)
}

#[test]
fn constructor_keeps_every_field() {
    let p = PanicPayload::new(Some(String::from("FOO")), String::from("src/main.rs"), 6, 5);
    assert_eq!(p.message, Some(String::from("FOO")));
    assert_eq!(p.file, "src/main.rs");
    assert_eq!(p.line, 6);
    assert_eq!(p.column, 5);
}

#[test]
fn message_and_location_make_one_line() {
    let p = payload(Some("FOO"), "src/main.rs", 6, 5);
    assert_eq!(format_report(&p), "panicked at 'FOO', src/main.rs:6:5");
}

#[test]
fn missing_message_leaves_the_location_only() {
    let p = payload(None, "main.c", 1, 1);
    let text = format_report(&p);
    assert_eq!(text, "panicked at main.c:1:1");
    assert!(text.contains("main.c:1:1"));
    assert!(!text.contains('\''));
    assert!(!text.contains(", "));
}

#[test]
fn report_has_no_line_terminator() {
    let with = format_report(&payload(Some("FOO"), "src/main.rs", 6, 5));
    let without = format_report(&payload(None, "src/main.rs", 6, 5));
    assert!(!with.contains('\n'));
    assert!(!without.contains('\n'));
}

#[test]
fn location_is_file_line_column_joined_by_colons() {
    assert_eq!(format_location("src/main.rs", 6, 5), "src/main.rs:6:5");
    assert_eq!(format_location("main.c", 1, 1), "main.c:1:1");
    assert_eq!(format_location("a/b/c.rs", 1234, 56), "a/b/c.rs:1234:56");
}

#[test]
fn location_does_not_swap_line_and_column() {
    assert_eq!(format_location("f", 1, 2), "f:1:2");
    assert_eq!(format_location("f", 2, 1), "f:2:1");
}

#[test]
fn degenerate_location_is_rendered_as_given() {
    assert_eq!(format_location("", 0, 0), ":0:0");
    assert_eq!(format_location("", u32::MAX, u32::MAX), ":4294967295:4294967295");
}

#[test]
fn empty_message_keeps_its_quotes() {
    let p = payload(Some(""), "lib.rs", 3, 9);
    assert_eq!(format_report(&p), "panicked at '', lib.rs:3:9");
}

#[test]
fn empty_message_differs_from_no_message() {
    let empty = format_report(&payload(Some(""), "lib.rs", 3, 9));
    let absent = format_report(&payload(None, "lib.rs", 3, 9));
    assert_ne!(empty, absent);
    assert_eq!(absent, "panicked at lib.rs:3:9");
}

#[test]
fn degenerate_payload_is_reported() {
    let p = payload(Some(""), "", 0, 0);
    assert_eq!(format_report(&p), "panicked at '', :0:0");
    let q = payload(None, "", 0, 0);
    assert_eq!(format_report(&q), "panicked at :0:0");
}

#[test]
fn message_is_carried_verbatim() {
    let message = "index out of bounds: the len is 3 but the index is 7";
    let p = payload(Some(message), "src/buffer.rs", 120, 17);
    assert_eq!(
        format_report(&p),
        "panicked at 'index out of bounds: the len is 3 but the index is 7', src/buffer.rs:120:17"
    );
}

#[test]
fn message_sits_between_the_delimiters() {
    let message = "called `Option::unwrap()` on a `None` value";
    let p = payload(Some(message), "src/driver/uart.rs", 88, 31);
    let text = format_report(&p);
    let opening = "panicked at '";
    assert!(text.starts_with(opening));
    let after_opening = &text[opening.len()..];
    assert!(after_opening.starts_with(message));
    let after_message = &after_opening[message.len()..];
    assert_eq!(after_message, "', src/driver/uart.rs:88:31");
}

#[test]
fn quotes_and_line_breaks_in_the_message_are_not_escaped() {
    let p = payload(Some("can't\nparse 'x', sorry"), "p.rs", 2, 4);
    assert_eq!(format_report(&p), "panicked at 'can't\nparse 'x', sorry', p.rs:2:4");
}

#[test]
fn text_outside_ascii_is_kept() {
    let p = payload(Some("température élevée: 98°"), "src/capteur.rs", 7, 13);
    assert_eq!(
        format_report(&p),
        "panicked at 'température élevée: 98°', src/capteur.rs:7:13"
    );
    assert_eq!(format_location("データ.rs", 10, 2), "データ.rs:10:2");
}

#[test]
fn file_names_with_colons_and_spaces_are_kept() {
    let p = payload(None, "C:\\fw\\my project\\main.rs", 40, 1);
    assert_eq!(format_report(&p), "panicked at C:\\fw\\my project\\main.rs:40:1");
}

#[test]
fn large_line_and_column_are_rendered_in_full() {
    let p = payload(Some("overflow"), "gen.rs", 4_294_967_295, 1_000_000_000);
    assert_eq!(format_report(&p), "panicked at 'overflow', gen.rs:4294967295:1000000000");
}

#[test]
fn formatting_leaves_the_payload_unchanged() {
    let p = payload(Some("FOO"), "src/main.rs", 6, 5);
    let before = p.clone();
    let first = format_report(&p);
    let second = format_report(&p);
    assert_eq!(p, before);
    assert_eq!(first, second);
}

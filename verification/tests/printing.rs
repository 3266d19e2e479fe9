use tdisplay::framed::FramedTextBoxBuilder;
use tdisplay::geometry::{Point, Rectangle, Size};
use tdisplay::printer::TextBoxPrinter;

fn log_box() -> TextBoxPrinter {
    // Text field 196 x 166: 19 characters per row, 6 rows of 26 pixels.
    TextBoxPrinter::new(FramedTextBoxBuilder::new(Rectangle::new(Point::new(0, 0), Size::new(200, 170))).build())
}

fn log(p: TextBoxPrinter, msg: &str) -> TextBoxPrinter {
    assert!(p.can_log(msg));
    p.txt(msg)
}

fn shown(p: &TextBoxPrinter) -> String {
    p.text_field().text_box.text.clone()
}

#[test]
fn fresh_printer_shows_nothing() {
    let p = log_box();
    assert_eq!(shown(&p), "");
    assert_eq!(p.text_field().text_box.bounds, Rectangle::new(Point::new(2, 2), Size::new(196, 166)));
}

#[test]
fn first_message_is_shown_twice() {
    let p = log(log_box(), "line 0");
    assert_eq!(shown(&p), "> line 0> line 0\n");
}

#[test]
fn newest_message_comes_first() {
    let mut p = log_box();
    for i in 0..3 {
        p = log(p, &format!("line {}", i));
    }
    assert_eq!(shown(&p), "> line 2> line 2\n> line 1\n> line 0\n");
}

#[test]
fn history_keeps_only_as_many_messages_as_rows() {
    let mut p = log_box();
    for i in 0..9 {
        p = log(p, &format!("m{}", i));
    }
    // Six rows: the message plus the six newest entries fill the seven-row budget.
    assert_eq!(shown(&p), "> m8> m8\n> m7\n> m6\n> m5\n> m4\n> m3\n");
}

#[test]
fn long_message_takes_more_rows() {
    let mut p = log_box();
    for m in ["a", "b", "c"] {
        p = log(p, m);
    }
    let long = "x".repeat(40);
    p = log(p, &long);
    let expected = format!("> {}> {}\n> c\n> b\n", long, long);
    assert_eq!(shown(&p), expected);
}

#[test]
fn message_of_exactly_one_row_costs_two() {
    let mut p = log_box();
    for m in ["a", "b", "c", "d", "e", "f"] {
        p = log(p, m);
    }
    let row = "y".repeat(19);
    p = log(p, &row);
    let expected = format!("> {}> {}\n> f\n> e\n> d\n> c\n", row, row);
    assert_eq!(shown(&p), expected);
}

#[test]
fn messages_too_long_for_the_budget_are_refused() {
    let p = log_box();
    assert!(!p.can_log(&"z".repeat(7 * 19)));
    assert!(!p.can_log(&"z".repeat(4 * 19)));
    assert!(p.can_log(&"z".repeat(3 * 19)));
}

#[test]
fn multibyte_characters_count_in_bytes() {
    let p = log_box();
    // 20 two-byte characters are 40 bytes: two whole rows.
    let msg = "é".repeat(20);
    assert!(p.can_log(&msg));
    let p = p.txt(&msg);
    assert_eq!(shown(&p), format!("> {}> {}\n", msg, msg));
    let p2 = log_box();
    assert!(!p2.can_log(&"é".repeat(38)));
}

#[test]
fn a_box_narrower_than_a_character_cannot_log() {
    let b = FramedTextBoxBuilder::new(Rectangle::new(Point::new(0, 0), Size::new(12, 40))).build();
    let p = TextBoxPrinter::new(b);
    assert!(!p.can_log("hi"));
}

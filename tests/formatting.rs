use manyfmt::formats::Unquote;
use manyfmt::{refmt, Refmt, Sink, SinkError};

#[test]
fn unquote_debug_has_no_quotes() {
    let mut sink = Sink::new();
    assert_eq!("hello".refmt(&Unquote).fmt_debug(&mut sink), Ok(()));
    assert_eq!(sink.as_str(), "hello");
}

#[test]
fn unquote_inside_struct_rendering() {
    let mut sink = Sink::new();
    assert_eq!(sink.write_str("Example { private_key: "), Ok(()));
    assert_eq!(refmt(&Unquote, "hello").fmt_debug(&mut sink), Ok(()));
    assert_eq!(sink.write_str(" }"), Ok(()));
    let text = sink.into_string();
    assert!(text.contains("private_key: hello"));
    assert!(!text.contains("\"hello\""));
    assert_eq!(text, "Example { private_key: hello }");
}

#[test]
fn unquote_does_not_escape() {
    let text = refmt(&Unquote, "say \"hi\"\n\\").to_string();
    assert_eq!(text, "say \"hi\"\n\\");
}

#[test]
fn display_and_debug_agree() {
    let w = refmt(&Unquote, "a\tb");
    let mut shown = Sink::new();
    let mut debugged = Sink::new();
    assert_eq!(w.fmt_display(&mut shown), Ok(()));
    assert_eq!(w.fmt_debug(&mut debugged), Ok(()));
    assert_eq!(shown.as_str(), debugged.as_str());
    assert_eq!(shown.as_str(), "a\tb");
}

#[test]
fn repeated_formatting_is_identical() {
    let w = "twice".refmt(&Unquote);
    let first = w.to_string();
    let second = w.to_string();
    assert_eq!(first, "twice");
    assert_eq!(first, second);
}

#[test]
fn fails_only_when_sink_is_full() {
    let mut small = Sink::with_limit(4);
    assert_eq!(refmt(&Unquote, "hello").fmt_display(&mut small), Err(SinkError));
    assert_eq!(small.as_str(), "");

    let mut exact = Sink::with_limit(5);
    assert_eq!(refmt(&Unquote, "hello").fmt_display(&mut exact), Ok(()));
    assert_eq!(exact.as_str(), "hello");

    assert_eq!(refmt(&Unquote, "!").fmt_display(&mut exact), Err(SinkError));
    assert_eq!(refmt(&Unquote, "").fmt_display(&mut exact), Ok(()));
    assert_eq!(exact.into_string(), "hello");
}

#[test]
fn room_counts_characters_not_bytes() {
    let mut sink = Sink::with_limit(5);
    assert_eq!(refmt(&Unquote, "h\u{e9}llo").fmt_debug(&mut sink), Ok(()));
    assert_eq!(sink.as_str(), "h\u{e9}llo");
}

#[test]
fn empty_text_fits_in_empty_room() {
    let mut sink = Sink::with_limit(0);
    assert_eq!(refmt(&Unquote, "").fmt_display(&mut sink), Ok(()));
    assert_eq!(sink.as_str(), "");
    assert_eq!(refmt(&Unquote, "x").fmt_display(&mut sink), Err(SinkError));
}

#[test]
fn references_format_like_the_value() {
    let v: &str = "ref";
    let direct = refmt(&Unquote, v).to_string();
    let mut inner = v;
    assert_eq!(refmt(&Unquote, &v).to_string(), direct);
    assert_eq!(refmt(&Unquote, &&v).to_string(), direct);
    assert_eq!(refmt(&Unquote, &&mut inner).to_string(), direct);
    assert_eq!(direct, "ref");
}

#[test]
fn refmt_through_smart_pointers() {
    let owned = String::from("owned");
    assert_eq!(owned.refmt(&Unquote).to_string(), "owned");
    let boxed: Box<str> = Box::from("boxed");
    assert_eq!(boxed.refmt(&Unquote).to_string(), "boxed");
}

#[test]
fn wrappers_compare_values_and_selectors() {
    let a = String::from("same");
    let b = String::from("same");
    assert!(refmt(&Unquote, a.as_str()) == refmt(&Unquote, b.as_str()));
    assert!(refmt(&Unquote, "one") != refmt(&Unquote, "two"));
    assert!(refmt(&Unquote, "one") == refmt(&Unquote, "one"));
}

use naps::args::Args;
use naps::msg::Msg;
use naps::text::to_decimal;

#[test]
fn a_message_keeps_its_topic_and_payload() {
    let msg = Msg::new(vec![0, 159, 146, 150], String::from("orders.new"));
    assert_eq!(msg.topic, "orders.new");
    assert_eq!(msg.data, vec![0, 159, 146, 150]);
}

#[test]
fn a_message_may_be_empty() {
    let msg = Msg::new(Vec::new(), String::new());
    assert_eq!(msg.topic, "");
    assert!(msg.data.is_empty());
}

#[test]
fn a_message_from_text_holds_its_utf8_bytes() {
    let msg = Msg::from_str(String::from("h\u{e9}llo \u{1f980}"), String::from("t"));
    assert_eq!(msg.topic, "t");
    assert_eq!(msg.data, vec![104, 195, 169, 108, 108, 111, 32, 240, 159, 166, 128]);
}

#[test]
fn a_message_is_shown_as_its_topic() {
    let msg = Msg::new(vec![1, 2, 3], String::from("a.b.c"));
    assert_eq!(msg.to_string(), "a.b.c");
}

#[test]
fn options_not_given_are_empty() {
    let args = Args::from_values(None, None, None, None, false);
    assert_eq!(args.source, "");
    assert_eq!(args.target, "");
    assert!(args.topics.is_empty());
    assert_eq!(args.script, "");
    assert!(!args.quiet);
    assert!(!args.has_script());
}

#[test]
fn options_given_are_kept() {
    let args = Args::from_values(
        Some(String::from("nats://a:4222")),
        Some(String::from("nats://b:4222")),
        Some(vec![String::from("x"), String::from("y.>")]),
        Some(String::from("function recv() { return true }")),
        true,
    );
    assert_eq!(args.source, "nats://a:4222");
    assert_eq!(args.target, "nats://b:4222");
    assert_eq!(args.topics, vec![String::from("x"), String::from("y.>")]);
    assert_eq!(args.script, "function recv() { return true }");
    assert!(args.quiet);
    assert!(args.has_script());
}

#[test]
fn a_script_of_one_blank_is_a_script() {
    let args = Args::from_values(None, None, None, Some(String::from(" ")), false);
    assert!(args.has_script());
}

#[test]
fn decimal_numerals() {
    assert_eq!(to_decimal(0), "0");
    assert_eq!(to_decimal(9), "9");
    assert_eq!(to_decimal(10), "10");
    assert_eq!(to_decimal(1_234_567_890), "1234567890");
    assert_eq!(to_decimal(u128::MAX), "340282366920938463463374607431768211455");
}

#[test]
fn a_topic_given_twice_counts_once() {
    let args = Args::from_values(
        None,
        None,
        Some(vec![
            String::from("a"),
            String::from("b"),
            String::from("a"),
            String::from("c"),
            String::from("b"),
            String::from("a"),
        ]),
        None,
        false,
    );
    assert_eq!(args.topics, vec![String::from("a"), String::from("b"), String::from("c")]);
}

#[test]
fn distinct_topics_keep_their_order() {
    let given = vec![String::from("z"), String::from("a.>"), String::from("m.*"), String::from("A")];
    let args = Args::from_values(None, None, Some(given.clone()), None, false);
    assert_eq!(args.topics, given);
    assert_eq!(naps::args::keep_first(&given), given);
    assert_eq!(naps::args::keep_first(&Vec::new()), Vec::<String>::new());
}

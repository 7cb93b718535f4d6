use chat_relay::event::Referenced;
use chat_relay::prompt::{compose, describe_image, opening};
use chat_relay::text::decimal_string;

#[test]
fn decimal_string_writes_base_ten() {
    assert_eq!(decimal_string(0), "0");
    assert_eq!(decimal_string(7), "7");
    assert_eq!(decimal_string(10), "10");
    assert_eq!(decimal_string(1234567890), "1234567890");
    assert_eq!(decimal_string(u64::MAX), "18446744073709551615");
    for n in [9u64, 99, 100, 101, 1000, 1270867600309489756] {
        assert_eq!(decimal_string(n), n.to_string());
    }
}

#[test]
fn opening_without_reference() {
    assert_eq!(
        opening("hello there", &None, 42),
        "SYSTEM: User's ID: <@42>. User's message:> hello there"
    );
}

#[test]
fn opening_with_reference() {
    let referenced = Some(Referenced { content: "the earlier one".to_string(), author: 7 });
    assert_eq!(
        opening("and this?", &referenced, 42),
        "SYSTEM: Referenced message: the earlier one. Referenced author's ID: <@7>. User's ID: <@42>. User's message:> and this?"
    );
}

#[test]
fn describe_image_adds_a_numbered_segment() {
    assert_eq!(
        describe_image("p".to_string(), 3, "a cat"),
        "p Image description #3: a cat"
    );
}

#[test]
fn compose_numbers_the_summaries_from_one() {
    let summaries = vec!["a cat".to_string(), "a dog".to_string()];
    assert_eq!(
        compose("look", &None, 5, &summaries),
        "SYSTEM: User's ID: <@5>. User's message:> look Image description #1: a cat Image description #2: a dog"
    );
}

#[test]
fn compose_without_summaries_is_the_opening() {
    let referenced = Some(Referenced { content: "r".to_string(), author: 1 });
    assert_eq!(compose("m", &referenced, 2, &Vec::new()), opening("m", &referenced, 2));
    assert_eq!(compose("", &None, 0, &Vec::new()), "SYSTEM: User's ID: <@0>. User's message:> ");
}

#[test]
fn compose_does_not_truncate() {
    let long = "y".repeat(10_000);
    let summaries: Vec<String> = (0..12).map(|_| "z".repeat(500)).collect();
    let prompt = compose(&long, &None, 1, &summaries);
    assert!(prompt.ends_with(&format!(" Image description #12: {}", "z".repeat(500))));
    assert!(prompt.contains(&long));
}

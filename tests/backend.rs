use rust_backend::add_numbers;
use rust_backend::greet;
use rust_backend::greeting::{compose_greeting, greeting_for};
use rust_backend::hello_world;
use rust_backend::GreetFailure;

#[test]
fn test_add_numbers() {
    assert_eq!(add_numbers(2, 3), 5);
}

#[test]
fn add_numbers_negative_operands() {
    assert_eq!(add_numbers(-7, 3), -4);
    assert_eq!(add_numbers(-7, -8), -15);
}

#[test]
fn add_numbers_wraps_past_the_maximum() {
    assert_eq!(add_numbers(i32::MAX, 1), i32::MIN);
    assert_eq!(add_numbers(i32::MAX, i32::MAX), -2);
}

#[test]
fn add_numbers_wraps_past_the_minimum() {
    assert_eq!(add_numbers(i32::MIN, -1), i32::MAX);
    assert_eq!(add_numbers(i32::MIN, i32::MIN), 0);
}

#[test]
fn greet_world_returns_greeting_length() {
    let reply = greet(Some("World".as_bytes()));
    assert_eq!(reply.length, 42);
    let line = reply.line.unwrap();
    assert_eq!(line, b"Hello, World! Greetings from Rust backend.".to_vec());
    assert_eq!(line.len(), reply.length);
}

#[test]
fn greet_multibyte_name_counts_bytes() {
    let reply = greet(Some("Zo\u{eb}".as_bytes()));
    assert_eq!(reply.length, 41);
    assert_eq!(reply.line.unwrap(), "Hello, Zo\u{eb}! Greetings from Rust backend.".as_bytes().to_vec());
}

#[test]
fn greet_empty_name() {
    let reply = greet(Some(&[]));
    assert_eq!(reply.length, 37);
    assert_eq!(reply.line.unwrap(), b"Hello, ! Greetings from Rust backend.".to_vec());
}

#[test]
fn greet_absent_name_is_silent() {
    let reply = greet(None);
    assert_eq!(reply.length, 0);
    assert!(reply.line.is_none());
}

#[test]
fn greet_invalid_utf8_reports_one_line() {
    let reply = greet(Some(&[0x57, 0xff, 0x6f]));
    assert_eq!(reply.length, 0);
    let line = reply.line.unwrap();
    assert_eq!(line, b"Invalid UTF-8 in name".to_vec());
    assert!(!line.contains(&b'\n'));
}

#[test]
fn greet_rejects_surrogate_and_overlong_encodings() {
    assert_eq!(greet(Some(&[0xed, 0xa0, 0x80])).length, 0);
    assert_eq!(greet(Some(&[0xc0, 0x80])).length, 0);
    assert_eq!(greet(Some(&[0xf4, 0x90, 0x80, 0x80])).length, 0);
    assert_eq!(greet(Some(&[0xe2, 0x82])).length, 0);
}

#[test]
fn greeting_for_reports_each_failure() {
    assert_eq!(greeting_for(None), Err(GreetFailure::NullInput));
    assert_eq!(greeting_for(Some(&[0x80])), Err(GreetFailure::InvalidEncoding));
    assert_eq!(
        greeting_for(Some("Ann".as_bytes())),
        Ok(b"Hello, Ann! Greetings from Rust backend.".to_vec())
    );
}

#[test]
fn compose_greeting_embeds_name() {
    assert_eq!(compose_greeting("Bo"), b"Hello, Bo! Greetings from Rust backend.".to_vec());
}

#[test]
fn hello_world_is_fixed_single_line() {
    let first = hello_world();
    assert_eq!(first, b"Hello World from Rust!".to_vec());
    assert!(!first.contains(&b'\n'));
    assert_eq!(hello_world(), first);
}

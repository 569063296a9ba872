use dynamo_serving::text::{contains_text, copy_texts, decimal_string, join_texts, same_text};
use dynamo_serving::time::Duration;

fn strings(list: &[&str]) -> Vec<String> {
    list.iter().map(|s| s.to_string()).collect()
}

#[test]
fn decimal_numbers() {
    assert_eq!(decimal_string(0), "0");
    assert_eq!(decimal_string(9), "9");
    assert_eq!(decimal_string(10), "10");
    assert_eq!(decimal_string(1_203_405), "1203405");
    assert_eq!(decimal_string(usize::MAX), usize::MAX.to_string());
}

#[test]
fn texts_are_joined() {
    assert_eq!(join_texts(&strings(&[]), " -- "), "");
    assert_eq!(join_texts(&strings(&["a"]), " -- "), "a");
    assert_eq!(join_texts(&strings(&["a", "", "c"]), " -- "), "a --  -- c");
}

#[test]
fn texts_are_compared_and_copied() {
    assert!(same_text("größe", "größe"));
    assert!(!same_text("a", "A"));
    let list = strings(&["x", "y"]);
    assert_eq!(copy_texts(&list), list);
    assert!(contains_text(&list, "y"));
    assert!(!contains_text(&list, "z"));
}

#[test]
fn durations_are_exact() {
    let d = Duration::from_millis(1_234);
    assert_eq!(d.as_secs(), 1);
    assert_eq!(d.subsec_nanos(), 234_000_000);
    assert_eq!(d.as_micros(), 1_234_000);
    assert_eq!(Duration::from_micros(2_000_001).as_nanos(), 2_000_001_000);
    assert_eq!(Duration::from_nanos(3_000_000_007).subsec_nanos(), 7);
    assert_eq!(Duration::new(5, 6).as_nanos(), 5_000_000_006);
}

#[test]
fn durations_are_subtracted_and_compared() {
    let long = Duration::new(3, 100);
    let short = Duration::new(1, 999_999_999);
    assert_eq!(long.minus(&short).as_nanos(), 1_000_000_101);
    assert_eq!(long.minus(&long).as_nanos(), 0);
    assert_eq!(short.at_least(&long).as_nanos(), long.as_nanos());
    assert_eq!(long.at_least(&short).as_nanos(), long.as_nanos());
}

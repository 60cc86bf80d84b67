//! Tests of the textual form of locations and traces.

use propagate::CodeLocation;
use propagate::CodeLocationStack;
use propagate::Traced;
use propagate::display::u64_to_dec;

#[test]
fn decimal_rendering() {
    assert_eq!(u64_to_dec(0), "0");
    assert_eq!(u64_to_dec(7), "7");
    assert_eq!(u64_to_dec(10), "10");
    assert_eq!(u64_to_dec(905), "905");
    assert_eq!(u64_to_dec(18446744073709551615), "18446744073709551615");
}

#[test]
fn location_is_shown_as_origin_and_line() {
    let loc = CodeLocation::new("foo.rs", 1);
    assert_eq!(loc.display_string(), "foo.rs:1");
    let loc = CodeLocation::new("src/main.rs", 42);
    assert_eq!(loc.display_string(), "src/main.rs:42");
}

#[test]
fn to_strings_renders_each_location_in_order() {
    let mut stack = CodeLocationStack::new(CodeLocation::new("a.rs", 1));
    stack.trace(CodeLocation::new("b.rs", 22));
    assert_eq!(stack.to_strings(), vec!["a.rs:1".to_string(), "b.rs:22".to_string()]);
}

#[test]
fn trace_is_shown_as_indexed_lines() {
    let mut stack = CodeLocationStack::new(CodeLocation::new("a.rs", 1));
    stack.trace(CodeLocation::new("b.rs", 22));
    assert_eq!(stack.display_string(), "\n   0: a.rs:1\n   1: b.rs:22");

    let empty = CodeLocationStack(Vec::new());
    assert_eq!(empty.display_string(), "");
}

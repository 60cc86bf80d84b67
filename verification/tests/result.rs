//! Tests of the traced result type: construction, propagation, coercion,
//! and the adapter operations.

use propagate::CodeLocation;
use propagate::Fixture;
use propagate::Result;

use std::io;

/// An application error type with conversions from the payload types the
/// tests raise.
#[derive(Debug)]
enum MyError {
    Io(io::Error),
    Other(String),
}

impl From<io::Error> for MyError {
    fn from(e: io::Error) -> Self {
        Self::Io(e)
    }
}

impl From<String> for MyError {
    fn from(s: String) -> Self {
        Self::Other(s)
    }
}

fn not_found() -> io::Error {
    io::Error::new(io::ErrorKind::NotFound, "no such file")
}

/// Fails with an I/O error coerced in through the foreign entry point when
/// asked to, tagging the coercion site as "io_error".
fn maybe_io_error(fix: &mut Fixture, fail: bool) -> Result<(), io::Error> {
    let loc = CodeLocation::new("maybe_io_error", 3);
    fix.tag_location("io_error", loc);
    if fail {
        let inner: std::result::Result<(), io::Error> = Err(not_found());
        return Result::from_std(inner, loc);
    }
    Result::Success(())
}

#[test]
fn new_err_coerce() {
    fn inner() -> Result<u32, String> {
        let x: Result<u32, String> = Result::new_err("string slice".to_string(), CodeLocation::new("inner", 2));
        x
    }
    assert_eq!(inner().err().unwrap(), String::from("string slice"));
}

#[test]
fn can_convert_to_std_result() {
    let x: Result<u32, &str> = Result::Success(2);
    assert_eq!(x.to_std(), std::result::Result::Ok(2));

    let x: Result<u32, &str> = Result::new_err("Nothing here", CodeLocation::new("here", 1));
    assert_eq!(x.to_std(), std::result::Result::Err("Nothing here"));
}

#[test]
fn test_success() {
    let mut fix = Fixture::default();

    let result = maybe_io_error(&mut fix, false);
    assert!(matches!(result, Result::Success(())));
}

#[test]
fn question_mark_operator_coerces_from_std_result() {
    let mut fix = Fixture::default();

    let result = maybe_io_error(&mut fix, true);
    assert!(fix.result_has_stack(&result, &vec!["io_error"]));
}

#[test]
fn return_with_propagate_appends_to_stack() {
    let mut fix = Fixture::default();

    let loc = CodeLocation::new("bottom_fn", 2);
    fix.tag_location("bottom", loc);
    let bottom = |fix: &mut Fixture| -> Result<(), io::Error> {
        maybe_io_error(fix, true).propagate(loc)
    };

    let result = bottom(&mut fix);
    assert!(fix.result_has_stack(&result, &vec!["io_error", "bottom"]));
}

#[test]
fn return_without_propagate_does_not_append_to_stack() {
    let mut fix = Fixture::default();

    let loc = CodeLocation::new("bottom_fn", 2);
    fix.tag_location("bottom", loc);
    let bottom = |fix: &mut Fixture| -> Result<(), io::Error> {
        maybe_io_error(fix, true)
    };

    let result = bottom(&mut fix);
    assert!(fix.result_has_stack(&result, &vec!["io_error"]));
}

#[test]
fn question_mark_operator_coerces_to_custom_error_type() {
    let mut fix = Fixture::default();

    let loc = CodeLocation::new("bottom_fn", 2);
    fix.tag_location("bottom", loc);
    let bottom = |fix: &mut Fixture| -> Result<(), MyError> {
        maybe_io_error(fix, true).propagate(loc)
    };

    let result = bottom(&mut fix);
    assert!(fix.result_has_stack(&result, &vec!["io_error", "bottom"]));
}

#[test]
fn propagate_coerces_to_custom_error_type() {
    let mut fix = Fixture::default();

    let loc = CodeLocation::new("bottom_fn", 2);
    fix.tag_location("bottom", loc);
    let bottom = |fix: &mut Fixture| -> Result<(), MyError> {
        maybe_io_error(fix, true).propagate(loc)
    };

    let result = bottom(&mut fix);
    assert!(fix.result_has_stack(&result, &vec!["io_error", "bottom"]));
}

#[test]
fn new_err_coerces_to_custom_error_type_from_inner() {
    let mut fix = Fixture::default();

    let loc = CodeLocation::new("bottom_fn", 2);
    fix.tag_location("bottom", loc);
    let bottom = |fix: &mut Fixture| -> Result<(), MyError> {
        let _ = fix;
        Result::new_err("oops".to_string(), loc)
    };

    let result = bottom(&mut fix);
    assert!(fix.result_has_stack(&result, &vec!["bottom"]));
    match result {
        Result::Failure(e) => match e.error() {
            MyError::Other(s) => assert_eq!(s, "oops"),
            MyError::Io(_) => panic!("wrong variant"),
        },
        Result::Success(()) => panic!("expected a failure"),
    }
}

#[test]
fn new_err_coerces_to_result_from_custom_error_type() {
    let mut fix = Fixture::default();

    let loc = CodeLocation::new("bottom_fn", 3);
    fix.tag_location("bottom", loc);
    let bottom = |fix: &mut Fixture| -> Result<(), MyError> {
        let my_error = MyError::Other("oops".to_string());
        let _ = fix;
        Result::new_err(my_error, loc)
    };

    let result = bottom(&mut fix);
    assert!(fix.result_has_stack(&result, &vec!["bottom"]));
}

// A three-frame call chain: a failure raised in `C`, forwarded (or not)
// by `B` and `A`.

fn scenario_c_fails() -> Result<u32, String> {
    Result::new_err("went wrong".to_string(), CodeLocation::new("C", 10))
}

fn scenario_b_forwards() -> Result<u32, String> {
    scenario_c_fails().propagate(CodeLocation::new("B", 20))
}

fn scenario_b_returns_directly() -> Result<u32, String> {
    scenario_c_fails()
}

#[test]
fn chain_of_forwards_appends_one_location_per_forward() {
    let result: Result<u32, String> = scenario_b_forwards().propagate(CodeLocation::new("A", 30));
    match result {
        Result::Failure(e) => {
            assert_eq!(
                e.stack().0,
                vec![
                    CodeLocation::new("C", 10),
                    CodeLocation::new("B", 20),
                    CodeLocation::new("A", 30),
                ]
            );
        }
        Result::Success(_) => panic!("expected a failure"),
    }
}

#[test]
fn direct_return_leaves_the_trace_unchanged() {
    let result = scenario_b_returns_directly();
    match result {
        Result::Failure(e) => {
            assert_eq!(e.stack().0, vec![CodeLocation::new("C", 10)]);
        }
        Result::Success(_) => panic!("expected a failure"),
    }
}

#[test]
fn direct_construction_records_one_location() {
    let result: Result<u32, String> =
        Result::new_err("oops".to_string(), CodeLocation::new("self", 5));
    match result {
        Result::Failure(e) => {
            assert_eq!(e.error(), "oops");
            assert_eq!(e.stack().0, vec![CodeLocation::new("self", 5)]);
        }
        Result::Success(_) => panic!("expected a failure"),
    }
}

#[test]
fn foreign_coercion_starts_a_fresh_trace() {
    let foreign: std::result::Result<u32, String> = Err("alien".to_string());
    let result: Result<u32, String> = Result::from_std(foreign, CodeLocation::new("self", 8));
    match result {
        Result::Failure(e) => {
            assert_eq!(e.error(), "alien");
            assert_eq!(e.stack().0, vec![CodeLocation::new("self", 8)]);
        }
        Result::Success(_) => panic!("expected a failure"),
    }
}

#[test]
fn unwrapping_a_success_returns_the_value() {
    let x: Result<u32, &str> = Result::Success(7);
    assert_eq!(x.unwrap(), 7);
    let y: Result<String, &str> = Result::Success("hi".to_string());
    assert_eq!(y.unwrap(), "hi");
    let z: Result<u32, &str> = Result::Success(2);
    assert_eq!(z.expect("should hold a value"), 2);
}

#[test]
fn variant_queries() {
    let x: Result<i32, &str> = Result::Success(-3);
    assert!(x.is_ok());
    assert!(!x.is_err());

    let x: Result<i32, &str> = Result::new_err("Some error message", CodeLocation::new("q", 1));
    assert!(!x.is_ok());
    assert!(x.is_err());
}

#[test]
fn ok_and_err_adapters() {
    let x: Result<u32, &str> = Result::Success(2);
    assert_eq!(x.ok(), Some(2));
    let x: Result<u32, &str> = Result::Success(2);
    assert_eq!(x.err(), None);

    let x: Result<u32, &str> = Result::new_err("Nothing here", CodeLocation::new("q", 1));
    assert_eq!(x.ok(), None);
    let x: Result<u32, &str> = Result::new_err("Nothing here", CodeLocation::new("q", 1));
    assert_eq!(x.err(), Some("Nothing here"));
}

#[test]
fn as_std_ref_views_both_variants() {
    let x: Result<u32, &str> = Result::Success(2);
    assert_eq!(x.as_std_ref(), std::result::Result::Ok(&2));

    let x: Result<u32, &str> = Result::new_err("Nothing here", CodeLocation::new("q", 1));
    assert_eq!(x.as_std_ref(), std::result::Result::Err(&"Nothing here"));
}

#[test]
fn err_stack_keeps_the_trace() {
    let x: Result<u32, &str> = Result::Success(2);
    assert!(x.err_stack().is_none());

    let x: Result<u32, &str> = Result::new_err("Nothing here", CodeLocation::new("q", 4));
    match x.err_stack() {
        Some(e) => {
            assert_eq!(*e.error(), "Nothing here");
            assert_eq!(e.stack().0, vec![CodeLocation::new("q", 4)]);
        }
        None => unreachable!(),
    }
}

#[test]
fn map_err_converts_the_payload_and_keeps_the_trace() {
    fn stringify(x: i32) -> String {
        format!("error code: {}", x)
    }

    let x: Result<i32, i32> = Result::Success(2);
    assert_eq!(x.map_err(stringify), Result::Success(2));

    let x: Result<i32, i32> = Result::new_err(13, CodeLocation::new("m", 6));
    let y: Result<i32, String> = x.map_err(stringify);
    match y {
        Result::Failure(e) => {
            assert_eq!(e.error(), "error code: 13");
            assert_eq!(e.stack().0, vec![CodeLocation::new("m", 6)]);
        }
        Result::Success(_) => panic!("expected a failure"),
    }
}

#[test]
fn unwrap_or_takes_the_default_on_failure() {
    let default = 2;
    let x: Result<u32, &str> = Result::Success(9);
    assert_eq!(x.unwrap_or(default), 9);

    let x: Result<u32, &str> = Result::new_err("error", CodeLocation::new("u", 1));
    assert_eq!(x.unwrap_or(default), default);
}

#[test]
fn unwrap_or_else_computes_from_the_error() {
    fn count(x: &str) -> usize {
        x.len()
    }

    let x: Result<usize, &str> = Result::Success(2);
    assert_eq!(x.unwrap_or_else(count), 2);
    let x: Result<usize, &str> = Result::new_err("foo", CodeLocation::new("u", 2));
    assert_eq!(x.unwrap_or_else(count), 3);
}

#[test]
fn unwrap_err_returns_the_payload() {
    let x: Result<u32, &str> = Result::new_err("emergency failure", CodeLocation::new("u", 3));
    assert_eq!(x.unwrap_err(), "emergency failure");
    let x: Result<u32, &str> = Result::new_err("emergency failure", CodeLocation::new("u", 4));
    assert_eq!(x.expect_err("should hold an error"), "emergency failure");
}

#[test]
fn unwrap_or_default_takes_the_type_default_on_failure() {
    let x: Result<u32, &str> = Result::Success(1909);
    assert_eq!(x.unwrap_or_default(), 1909);
    let x: Result<u32, &str> = Result::new_err("190blarg", CodeLocation::new("u", 5));
    assert_eq!(x.unwrap_or_default(), 0);
}

#[test]
fn transpose_swaps_the_nesting() {
    let x: Result<Option<i32>, &str> = Result::Success(Some(5));
    assert_eq!(x.transpose(), Some(Result::Success(5)));

    let x: Result<Option<i32>, &str> = Result::Success(None);
    assert_eq!(x.transpose(), None);

    let x: Result<Option<i32>, &str> = Result::new_err("gone", CodeLocation::new("t", 2));
    match x.transpose() {
        Some(Result::Failure(e)) => {
            assert_eq!(*e.error(), "gone");
            assert_eq!(e.stack().0, vec![CodeLocation::new("t", 2)]);
        }
        _ => panic!("expected a failure"),
    }
}

#[test]
fn exit_code_is_zero_only_on_success() {
    let x: Result<u32, &str> = Result::Success(2);
    assert_eq!(x.exit_code(), 0);
    let x: Result<u32, &str> = Result::new_err("boom", CodeLocation::new("e", 9));
    assert_eq!(x.exit_code(), 1);
}

#[test]
fn conversion_preserves_the_trace() {
    let result: Result<u32, String> = scenario_b_forwards().propagate(CodeLocation::new("A", 30));
    let converted: Result<u32, MyError> = match result {
        Result::Failure(e) => Result::Failure(e.convert_inner()),
        Result::Success(_) => panic!("expected a failure"),
    };
    match converted {
        Result::Failure(e) => {
            assert_eq!(
                e.stack().0,
                vec![
                    CodeLocation::new("C", 10),
                    CodeLocation::new("B", 20),
                    CodeLocation::new("A", 30),
                ]
            );
            match e.error() {
                MyError::Other(s) => assert_eq!(s, "went wrong"),
                MyError::Io(_) => panic!("wrong variant"),
            }
        }
        Result::Success(_) => panic!("expected a failure"),
    }
}

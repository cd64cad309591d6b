use sabi::compiler::ast::{expr_to_string, fmt_i64, fmt_u64, Expr};

fn add(l: Expr, r: Expr) -> Expr {
    Expr::Add { lhs: Box::new(l), rhs: Box::new(r) }
}

#[test]
fn add_two_numbers() {
    let e = add(Expr::Number(2), Expr::Number(3));
    match e.evaluate() {
        Expr::Number(n) => assert_eq!(n, 5),
        other => panic!("expected Number(5), got {:?}", other),
    }
}

#[test]
fn add_two_strings() {
    let e = add(
        Expr::String("Hello ".to_owned()),
        Expr::String("World".to_owned()),
    );
    match e.evaluate() {
        Expr::String(s) => assert_eq!(s, "Hello World"),
        other => panic!("expected a string, got {:?}", other),
    }
}

#[test]
fn add_number_then_string() {
    let e = add(Expr::Number(2), Expr::String("x".to_owned()));
    match e.evaluate() {
        Expr::String(s) => assert_eq!(s, "2x"),
        other => panic!("expected a string, got {:?}", other),
    }
}

#[test]
fn add_string_then_number() {
    let e = add(Expr::String("x".to_owned()), Expr::Number(2));
    match e.evaluate() {
        Expr::String(s) => assert_eq!(s, "x2"),
        other => panic!("expected a string, got {:?}", other),
    }
}

#[test]
fn literals_evaluate_to_themselves() {
    match Expr::Number(7).evaluate() {
        Expr::Number(n) => assert_eq!(n, 7),
        other => panic!("unexpected {:?}", other),
    }
    match Expr::String("abc".to_owned()).evaluate() {
        Expr::String(s) => assert_eq!(s, "abc"),
        other => panic!("unexpected {:?}", other),
    }
}

#[test]
fn nested_additions_resolve_left_to_right() {
    // (1 + "a") + 2  ==>  "1a2"
    let e = add(add(Expr::Number(1), Expr::String("a".to_owned())), Expr::Number(2));
    assert_eq!(e.evaluate_into_string(), "1a2");
}

#[test]
fn evaluate_into_string_renders_numbers() {
    let e = add(Expr::Number(40), Expr::Number(2));
    assert_eq!(e.evaluate_into_string(), "42");
}

#[test]
fn expr_to_string_matches_evaluation() {
    assert_eq!(expr_to_string(&Expr::Number(-12)), "-12");
    assert_eq!(expr_to_string(&Expr::String("hi".to_owned())), "hi");
    let e = add(Expr::String("n=".to_owned()), Expr::Number(3));
    assert_eq!(expr_to_string(&e), "n=3");
}

#[test]
fn number_addition_wraps_on_overflow() {
    let e = add(Expr::Number(i64::MAX), Expr::Number(1));
    match e.evaluate() {
        Expr::Number(n) => assert_eq!(n, i64::MIN),
        other => panic!("expected a number, got {:?}", other),
    }
}

#[test]
fn decimal_rendering_is_exact() {
    assert_eq!(fmt_u64(0), "0");
    assert_eq!(fmt_u64(10), "10");
    assert_eq!(fmt_u64(90210), "90210");
    assert_eq!(fmt_i64(0), "0");
    assert_eq!(fmt_i64(-7), "-7");
    assert_eq!(fmt_i64(i64::MIN), "-9223372036854775808");
    assert_eq!(fmt_i64(i64::MAX), "9223372036854775807");
}

use vela::calculator::{render_outcome, Qalculator};

#[test]
fn integer_expression() {
    let q = Qalculator::default();
    assert_eq!(q.eval("1 + 2 + 3", false), "6");
}

#[test]
fn float_expression() {
    let q = Qalculator::default();
    assert_eq!(q.eval("1.5 + 1", false), "2.5");
}

#[test]
fn boolean_expression() {
    let q = Qalculator::default();
    assert_eq!(q.eval("true && false", false), "false");
}

#[test]
fn echoed_expression_is_trimmed() {
    let q = Qalculator::default();
    assert_eq!(q.eval("  2 * 21  ", true), "2 * 21 = 42");
}

#[test]
fn empty_input_renders_empty() {
    let q = Qalculator::default();
    assert_eq!(q.eval("", false), "");
    assert_eq!(q.eval("   \t ", true), "");
}

#[test]
fn rendering_rule_is_exact() {
    assert_eq!(render_outcome("1+1", Ok("2".to_string()), false), "2");
    assert_eq!(render_outcome("1+1", Ok("2".to_string()), true), "1+1 = 2");
    assert_eq!(
        render_outcome("1+", Err("bad".to_string()), true),
        "error: bad"
    );
}

#[test]
fn failing_expression_reports_error() {
    let q = Qalculator::default();
    let out = q.eval("1 +", false);
    assert!(out.starts_with("error: "));
}

//! A small calculator surface: evaluates an arithmetic expression string
//! and renders the outcome for display. The evaluation itself is the
//! expression engine's; this module owns the trimming, the empty-input
//! rule, and the exact shape of the rendered text.

use vstd::prelude::*;

verus! {

/// What evaluating a (trimmed, nonempty) expression text renders to: the
/// value's display text on success, the error's display text on failure.
/// The engine's result depends on the expression text alone.
pub uninterp spec fn eval_outcome(expr: Seq<char>) -> Result<Seq<char>, Seq<char>>;

/// The text that remains after stripping leading and trailing whitespace.
pub uninterp spec fn trim_of(s: Seq<char>) -> Seq<char>;

/// Relies on str::trim: returns the input without leading and trailing
/// whitespace — a substring, so never longer than the input, and empty for
/// an empty input.
#[verifier::external_body]
fn trim_text<'a>(s: &'a str) -> (r: &'a str)
    ensures
        r@ == trim_of(s@),
        r@.len() <= s@.len(),
        s@.len() == 0 ==> r@.len() == 0,
{
    s.trim()
}

/// Relies on evalexpr::eval: parses and evaluates the expression with the
/// default (empty) context, so the outcome depends on the expression text
/// alone. The value is rendered variant by variant: floats, integers and
/// booleans by their display text, a string value as itself, anything
/// else by the value's display text; an error by its display text.
#[verifier::external_body]
fn eval_expression(expr: &str) -> (r: Result<String, String>)
    ensures
        r is Ok == eval_outcome(expr@) is Ok,
        r matches Ok(v) ==> eval_outcome(expr@) matches Ok(s) && v@ == s,
        r matches Err(e) ==> eval_outcome(expr@) matches Err(s) && e@ == s,
{
    match evalexpr::eval(expr) {
        Ok(value) => Ok(
            match value {
                evalexpr::Value::Float(f) => f.to_string(),
                evalexpr::Value::Int(i) => i.to_string(),
                evalexpr::Value::Boolean(b) => b.to_string(),
                evalexpr::Value::String(s) => s,
                other => other.to_string(),
            },
        ),
        Err(e) => Err(e.to_string()),
    }
}

/// The full rendering rule: an expression that trims to nothing renders to
/// nothing; otherwise a successful outcome renders to its text, prefixed
/// by the trimmed expression and an equals sign when echoing is asked for,
/// and a failed outcome renders to the error text behind an error marker.
pub open spec fn spec_eval_display(expr: Seq<char>, print_expr: bool) -> Seq<char> {
    let t = trim_of(expr);
    if t.len() == 0 {
        Seq::<char>::empty()
    } else {
        match eval_outcome(t) {
            Ok(v) => if print_expr {
                t + " = "@ + v
            } else {
                v
            },
            Err(e) => "error: "@ + e,
        }
    }
}

/// Renders an evaluation outcome for a (trimmed, nonempty) expression
/// text: the value's text on success — echoing the expression and an
/// equals sign first when asked to — and the error text behind an error
/// marker on failure.
pub fn render_outcome(trimmed: &str, outcome: Result<String, String>, print_expr: bool) -> (r:
    String)
    ensures
        outcome matches Ok(v) ==> r@ == (if print_expr {
            trimmed@ + " = "@ + v@
        } else {
            v@
        }),
        outcome matches Err(e) ==> r@ == "error: "@ + e@,
{
    match outcome {
        Ok(value) => {
            if print_expr {
                let mut out = trimmed.to_owned();
                out.append(" = ");
                out.append(value.as_str());
                out
            } else {
                value
            }
        },
        Err(e) => {
            let mut out = "error: ".to_owned();
            out.append(e.as_str());
            out
        },
    }
}

/// The calculator surface.
#[derive(Default)]
pub struct Qalculator;

impl Qalculator {
    /// Evaluates a mathematical expression. With `print_expr` the result
    /// is rendered as "expression = result", otherwise as the result
    /// alone; an empty (all-whitespace) expression renders to an empty
    /// string, and a failing one to "error: " followed by the reason.
    pub fn eval(&self, expr: &str, print_expr: bool) -> (r: String)
        ensures
            r@ == spec_eval_display(expr@, print_expr),
    {
        let trimmed = trim_text(expr);
        if trimmed.is_empty() {
            return String::new();
        }
        let outcome = eval_expression(trimmed);
        render_outcome(trimmed, outcome, print_expr)
    }
}

} // verus!

use symbolic_units::num::SymbolicManip;
use symbolic_units::payload::Numeric;

fn sym(name: &str) -> SymbolicManip<i64> {
    SymbolicManip::Symbol(name.to_string())
}

fn lit(v: i64) -> SymbolicManip<i64> {
    SymbolicManip::new(v)
}

#[test]
fn render_consistency_infix_and_rpn() {
    let e = lit(2).add(lit(3));
    assert_eq!(e.pretty_show(), "2+3");
    assert_eq!(e.to_rpn(), "2 3 +");
}

#[test]
fn parenthesization_binary_operand_is_wrapped() {
    let e = lit(2).add(lit(3)).mul(lit(4));
    assert_eq!(e.pretty_show(), "(2+3)*4");
}

#[test]
fn parenthesization_leaves_are_bare() {
    let e = lit(2).mul(lit(3));
    assert_eq!(e.pretty_show(), "2*3");
    assert_eq!(lit(7).simple_paren(), "7");
    assert_eq!(sym("x").simple_paren(), "x");
    assert_eq!(lit(2).add(lit(3)).simple_paren(), "(2+3)");
}

#[test]
fn simplify_one_times() {
    let e = lit(1).mul(sym("x"));
    assert_eq!(e.simplify().pretty_show(), "x");
}

#[test]
fn simplify_times_one() {
    let e = sym("x").mul(lit(1));
    assert_eq!(e.simplify().pretty_show(), "x");
}

#[test]
fn simplify_zero_times() {
    let e = lit(0).mul(sym("x"));
    assert_eq!(e.simplify().pretty_show(), "0");
}

#[test]
fn simplify_times_zero() {
    let e = sym("x").mul(lit(0));
    assert_eq!(e.simplify().pretty_show(), "0");
}

#[test]
fn simplify_div_one() {
    let e = sym("x").div(lit(1));
    assert_eq!(e.simplify().pretty_show(), "x");
}

#[test]
fn simplify_zero_plus() {
    let e = lit(0).add(sym("x"));
    assert_eq!(e.simplify().pretty_show(), "x");
}

#[test]
fn simplify_plus_zero() {
    let e = sym("x").add(lit(0));
    assert_eq!(e.simplify().pretty_show(), "x");
}

#[test]
fn simplify_minus_zero() {
    let e = sym("x").sub(lit(0));
    assert_eq!(e.simplify().pretty_show(), "x");
}

#[test]
fn simplify_handles_stacked_identities_in_one_pass() {
    // (x*1)*1: the inner product is simplified to x before the outer
    // node's rule is chosen, so a single bottom-up pass already yields x.
    let e = sym("x").mul(lit(1)).mul(lit(1));
    let once = e.simplify();
    assert_eq!(once.pretty_show(), "x");
    assert_eq!(once.simplify().pretty_show(), "x");
}

#[test]
fn simplify_is_idempotent() {
    // A second pass renders the same text as the first.
    let e = sym("x").mul(lit(1)).add(lit(0).add(sym("y")));
    let once = e.simplify();
    assert_eq!(once.pretty_show(), "x+y");
    assert_eq!(once.simplify().pretty_show(), once.pretty_show());
    assert_eq!(once.simplify().to_rpn(), once.to_rpn());
}

#[test]
fn simplify_rebuilds_non_matching_nodes() {
    let e = lit(5).mul(lit(3)).add(lit(10).mul(lit(20)).mul(lit(1))).add(lit(0)).div(lit(2));
    assert_eq!(e.pretty_show(), "(((5*3)+((10*20)*1))+0)/2");
    let s = e.simplify();
    assert_eq!(s.pretty_show(), "((5*3)+(10*20))/2");
    assert_eq!(s.to_rpn(), "5 3 * 10 20 * + 2 /");
}

#[test]
fn unary_nodes_render_and_simplify() {
    let e = sym("x").mul(lit(1)).sqrt();
    assert_eq!(e.pretty_show(), "sqrt(x*1)");
    assert_eq!(e.simplify().pretty_show(), "sqrt(x)");
    assert_eq!(e.to_rpn(), "x 1 * sqrt");
    let a = lit(2).add(lit(3)).abs();
    assert_eq!(a.pretty_show(), "abs(2+3)");
    assert_eq!(a.to_rpn(), "2 3 + abs");
}

#[test]
fn unary_operand_of_binary_is_not_wrapped() {
    let e = sym("x").sqrt().mul(lit(2));
    assert_eq!(e.pretty_show(), "sqrt(x)*2");
}

#[test]
fn pi_renders_as_symbol() {
    let e: SymbolicManip<i64> = SymbolicManip::pi();
    assert_eq!(e.pretty_show(), "pi");
    assert_eq!(e.to_rpn(), "pi");
}

#[test]
fn pow_renders_with_double_star() {
    let e = lit(2).pow(lit(3));
    assert_eq!(e.pretty_show(), "2**3");
    assert_eq!(e.to_rpn(), "2 3 **");
}

#[test]
fn neg_multiplies_by_minus_one() {
    let e = sym("x").neg();
    assert_eq!(e.pretty_show(), "x*-1");
    assert_eq!(e.to_rpn(), "x -1 *");
}

#[test]
fn negative_literals_render_with_sign() {
    assert_eq!(lit(-5).pretty_show(), "-5");
    assert_eq!(lit(i64::MIN).pretty_show(), "-9223372036854775808");
    assert_eq!(lit(i64::MAX).pretty_show(), "9223372036854775807");
    assert_eq!(lit(0).pretty_show(), "0");
}

#[test]
fn from_lifts_a_value_into_a_literal() {
    let e: SymbolicManip<i64> = SymbolicManip::from(5);
    assert_eq!(e, lit(5));
}

#[test]
fn eq_tree_is_structural() {
    let a = sym("x").add(lit(2));
    let b = sym("x").add(lit(2));
    let c = sym("y").add(lit(2));
    assert!(a.eq_tree(&b));
    assert!(!a.eq_tree(&c));
    assert!(!a.eq_tree(&sym("x")));
}

#[test]
fn duplicate_is_a_deep_copy() {
    let a = sym("x").add(lit(2)).sqrt();
    let b = a.duplicate();
    assert_eq!(a, b);
    assert_eq!(b.pretty_show(), "sqrt(x+2)");
}

#[test]
fn i64_payload_division_is_total() {
    assert_eq!(5i64.div_value(0), 0);
    assert_eq!(i64::MIN.div_value(-1), i64::MIN);
    assert_eq!(7i64.div_value(-2), -3);
    assert_eq!((-7i64).div_value(2), -3);
}

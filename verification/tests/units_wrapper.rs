use symbolic_units::num::SymbolicManip;
use symbolic_units::payload::{DecimalValue, Numeric};
use symbolic_units::units::{c, Units};

fn dec(tenths: i64) -> DecimalValue {
    DecimalValue::from_tenths(tenths)
}

#[test]
fn add_same_dimension_sums_and_keeps_unit() {
    let r = c(1i64, "m").add(c(2, "m"));
    let u = r.unwrap();
    assert_eq!(u.drop_units(), 3);
    assert_eq!(u.pretty_show(), "3_m");
}

#[test]
fn add_different_dimensions_is_an_error() {
    let r = c(1i64, "m").add(c(2, "s"));
    let e = r.unwrap_err();
    assert_eq!(e.left, "m");
    assert_eq!(e.right, "s");
}

#[test]
fn sub_same_dimension_subtracts() {
    let r = c(5i64, "m").sub(c(2, "m"));
    let u = r.unwrap();
    assert_eq!(u.drop_units(), 3);
    assert_eq!(u.pretty_show(), "3_m");
}

#[test]
fn sub_different_dimensions_is_an_error() {
    let r = c(5i64, "kg").sub(c(2, "m"));
    let e = r.unwrap_err();
    assert_eq!(e.left, "kg");
    assert_eq!(e.right, "m");
}

#[test]
fn add_compares_whole_dimension_expressions() {
    let a = c(6i64, "m").div(c(2, "s"));
    let b = c(4i64, "m").div(c(4, "s"));
    let u = a.add(b).unwrap();
    assert_eq!(u.drop_units(), 4);
    assert_eq!(u.pretty_show(), "4_m/s");
    let d = c(1i64, "m").mul(c(1, "s"));
    let e = c(3i64, "m").div(c(1, "s")).add(d).unwrap_err();
    assert_eq!(e.left, "m/s");
    assert_eq!(e.right, "m*s");
}

#[test]
fn mul_combines_dimensions_as_product() {
    let u = c(3i64, "m").mul(c(4, "s"));
    assert_eq!(u.drop_units(), 12);
    assert_eq!(u.pretty_show(), "12_m*s");
}

#[test]
fn div_does_not_cancel_matching_dimensions() {
    let u = c(4i64, "m").div(c(2, "m"));
    assert_eq!(u.drop_units(), 2);
    assert_eq!(u.pretty_show(), "2_m/m");
}

#[test]
fn neg_negates_value_and_keeps_unit() {
    let u = c(5i64, "m").neg();
    assert_eq!(u.drop_units(), -5);
    assert_eq!(u.pretty_show(), "-5_m");
}

#[test]
fn units_new_takes_an_owned_name() {
    let u: Units<i64> = Units::new(7, String::from("mol"));
    assert_eq!(u.drop_units(), 7);
    assert_eq!(u.pretty_show(), "7_mol");
}

#[test]
fn units_duplicate_copies_value_and_dimension() {
    let u = c(2i64, "m").div(c(1, "s"));
    let v = u.duplicate();
    assert_eq!(u, v);
    assert_eq!(v.pretty_show(), "2_m/s");
}

#[test]
fn end_to_end_velocity_example() {
    let sum = c(DecimalValue::of_int(96), "m").add(c(DecimalValue::of_int(2), "m")).unwrap();
    let u = sum.div(c(DecimalValue::of_int(10), "s"));
    assert_eq!(u.drop_units(), dec(98));
    assert_eq!(u.pretty_show(), "9.8_m/s");
}

#[test]
fn decimal_dimension_mismatch_is_an_error() {
    let e = c(dec(15), "m").add(c(dec(25), "s")).unwrap_err();
    assert_eq!(e.left, "m");
    assert_eq!(e.right, "s");
}

#[test]
fn decimal_payload_arithmetic_and_rendering() {
    assert_eq!(dec(15).add_value(dec(27)).text(), "4.2");
    assert_eq!(dec(15).mul_value(dec(20)).text(), "3");
    assert_eq!(dec(-5).text(), "-0.5");
    assert_eq!(dec(98).text(), "9.8");
    assert_eq!(DecimalValue::of_int(96).text(), "96");
    assert_eq!(dec(30).div_value(dec(0)), dec(0));
    assert_eq!(dec(i64::MAX).add_value(dec(10)), dec(i64::MAX));
    assert_eq!(dec(-15).mul_value(dec(20)).text(), "-3");
}

#[test]
fn units_over_symbolic_payload() {
    let a = c(SymbolicManip::<i64>::new(5), "m");
    let b = c(SymbolicManip::<i64>::new(3), "m");
    let u = a.add(b).unwrap();
    assert_eq!(u.pretty_show(), "5+3_m");
    assert_eq!(u.drop_units().simplify().pretty_show(), "5+3");
    let q = c(SymbolicManip::<i64>::new(8), "m").div(c(SymbolicManip::<i64>::new(2), "s"));
    assert_eq!(q.pretty_show(), "8/2_m/s");
}

#[test]
fn units_over_symbolic_payload_mismatch() {
    let a = c(SymbolicManip::<i64>::new(5), "m");
    let b = c(SymbolicManip::<i64>::new(3), "s");
    let e = a.add(b).unwrap_err();
    assert_eq!(e.left, "m");
    assert_eq!(e.right, "s");
}

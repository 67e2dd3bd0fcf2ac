use constrained_values::error::ValueError;
use constrained_values::integer::Integer;
use constrained_values::types::{Identifier, IntegerType, Type};
use constrained_values::value::{ConstrainedCircuitMember, ConstrainedValue};

fn u8v(n: u8) -> ConstrainedValue {
    ConstrainedValue::Integer(Integer::U8(n))
}

fn ident(s: &str) -> Identifier {
    Identifier { name: String::from(s) }
}

fn point_value() -> ConstrainedValue {
    ConstrainedValue::CircuitExpression(
        ident("Point"),
        vec![
            ConstrainedCircuitMember(ident("x"), u8v(1)),
            ConstrainedCircuitMember(ident("y"), u8v(2)),
        ],
    )
}

#[test]
fn integer_checks_against_its_own_width() {
    let v = u8v(5);
    assert!(v.expect_type(&Type::IntegerType(IntegerType::U8)).is_ok());
}

#[test]
fn integer_width_mismatch_is_reported() {
    let v = u8v(5);
    let r = v.expect_type(&Type::IntegerType(IntegerType::U16));
    match r {
        Err(ValueError::TypeMismatch { expected, value }) => {
            assert_eq!(expected, "u16");
            assert_eq!(value, "5");
        }
        _ => panic!("expected a type mismatch"),
    }
}

#[test]
fn primitives_check_against_their_types() {
    assert!(ConstrainedValue::FieldElement(3).expect_type(&Type::FieldElement).is_ok());
    assert!(ConstrainedValue::GroupElement(3).expect_type(&Type::GroupElement).is_ok());
    assert!(ConstrainedValue::Boolean(true).expect_type(&Type::Boolean).is_ok());
}

#[test]
fn boolean_against_field_is_a_mismatch() {
    let r = ConstrainedValue::Boolean(true).expect_type(&Type::FieldElement);
    match r {
        Err(ValueError::TypeMismatch { expected, value }) => {
            assert_eq!(expected, "field");
            assert_eq!(value, "true");
        }
        _ => panic!("expected a type mismatch"),
    }
}

#[test]
fn array_of_three_checks_against_dimension_three() {
    let v = ConstrainedValue::Array(vec![u8v(1), u8v(2), u8v(3)]);
    let t = Type::Array(Box::new(Type::IntegerType(IntegerType::U8)), vec![3]);
    assert!(v.expect_type(&t).is_ok());
}

#[test]
fn array_of_three_fails_against_dimension_four() {
    let v = ConstrainedValue::Array(vec![u8v(1), u8v(2), u8v(3)]);
    let t = Type::Array(Box::new(Type::IntegerType(IntegerType::U8)), vec![4]);
    match v.expect_type(&t) {
        Err(ValueError::ArrayLength { array, expected }) => {
            assert_eq!(array, "[1, 2, 3]");
            assert_eq!(expected, 4);
        }
        _ => panic!("expected an array length failure"),
    }
}

#[test]
fn array_element_of_wrong_width_is_reported() {
    let v = ConstrainedValue::Array(vec![
        u8v(1),
        ConstrainedValue::Integer(Integer::U16(2)),
    ]);
    let t = Type::Array(Box::new(Type::IntegerType(IntegerType::U8)), vec![2]);
    match v.expect_type(&t) {
        Err(ValueError::TypeMismatch { expected, value }) => {
            assert_eq!(expected, "u8");
            assert_eq!(value, "2");
        }
        _ => panic!("expected a type mismatch"),
    }
}

#[test]
fn nested_dimensions_peel_one_level_per_nesting() {
    let v = ConstrainedValue::Array(vec![
        ConstrainedValue::Array(vec![u8v(1), u8v(2)]),
        ConstrainedValue::Array(vec![u8v(3), u8v(4)]),
    ]);
    let good = Type::Array(Box::new(Type::IntegerType(IntegerType::U8)), vec![2, 2]);
    assert!(v.expect_type(&good).is_ok());
    let bad = Type::Array(Box::new(Type::IntegerType(IntegerType::U8)), vec![2, 3]);
    match v.expect_type(&bad) {
        Err(ValueError::ArrayLength { array, expected }) => {
            assert_eq!(array, "[1, 2]");
            assert_eq!(expected, 3);
        }
        _ => panic!("expected an array length failure at the inner level"),
    }
}

#[test]
fn jagged_inner_array_is_reported_at_its_depth() {
    let v = ConstrainedValue::Array(vec![
        ConstrainedValue::Array(vec![u8v(1), u8v(2)]),
        ConstrainedValue::Array(vec![u8v(3)]),
    ]);
    let t = Type::Array(Box::new(Type::IntegerType(IntegerType::U8)), vec![2, 2]);
    match v.expect_type(&t) {
        Err(ValueError::ArrayLength { array, expected }) => {
            assert_eq!(array, "[3]");
            assert_eq!(expected, 2);
        }
        _ => panic!("expected an array length failure"),
    }
}

#[test]
fn non_array_at_peeled_level_names_the_remaining_type() {
    let v = ConstrainedValue::Array(vec![ConstrainedValue::Boolean(true)]);
    let t = Type::Array(Box::new(Type::IntegerType(IntegerType::U8)), vec![1, 2]);
    match v.expect_type(&t) {
        Err(ValueError::TypeMismatch { expected, value }) => {
            assert_eq!(expected, "u8[2]");
            assert_eq!(value, "true");
        }
        _ => panic!("expected a type mismatch"),
    }
}

#[test]
fn wrapped_inner_array_is_checked_through_the_wrapper() {
    let v = ConstrainedValue::Array(vec![
        ConstrainedValue::Array(vec![u8v(1), u8v(2)]),
        ConstrainedValue::Mutable(Box::new(ConstrainedValue::Array(vec![u8v(3), u8v(4)]))),
    ]);
    let t = Type::Array(Box::new(Type::IntegerType(IntegerType::U8)), vec![2, 2]);
    assert!(v.expect_type(&t).is_ok());
}

#[test]
fn empty_array_checks_against_dimension_zero() {
    let v = ConstrainedValue::Array(vec![]);
    let t = Type::Array(Box::new(Type::Boolean), vec![0]);
    assert!(v.expect_type(&t).is_ok());
}

#[test]
fn circuit_expression_checks_against_its_own_name() {
    let t = Type::Circuit(ident("Point"));
    assert!(point_value().expect_type(&t).is_ok());
}

#[test]
fn circuit_expression_fails_against_another_name() {
    let t = Type::Circuit(ident("Line"));
    match point_value().expect_type(&t) {
        Err(ValueError::CircuitName { expected, actual }) => {
            assert_eq!(expected, "Line");
            assert_eq!(actual, "Point");
        }
        _ => panic!("expected a circuit name failure"),
    }
}

#[test]
fn circuit_expression_is_accepted_against_self_type() {
    assert!(point_value().expect_type(&Type::SelfType).is_ok());
}

#[test]
fn mutable_wrapper_is_transparent_to_checking() {
    let v = ConstrainedValue::Mutable(Box::new(ConstrainedValue::Boolean(true)));
    assert!(v.expect_type(&Type::Boolean).is_ok());
    let w = ConstrainedValue::Mutable(Box::new(u8v(5)));
    let wrapped = w.expect_type(&Type::Boolean);
    let plain = u8v(5).expect_type(&Type::Boolean);
    match (wrapped, plain) {
        (
            Err(ValueError::TypeMismatch { expected: e1, value: v1 }),
            Err(ValueError::TypeMismatch { expected: e2, value: v2 }),
        ) => {
            assert_eq!(e1, e2);
            assert_eq!(v1, v2);
        }
        _ => panic!("expected matching type mismatches"),
    }
}

#[test]
fn static_wrapper_is_transparent_to_checking() {
    let v = ConstrainedValue::Static(Box::new(ConstrainedValue::FieldElement(9)));
    assert!(v.expect_type(&Type::FieldElement).is_ok());
    assert!(v.expect_type(&Type::Boolean).is_err());
}

#[test]
fn return_is_checked_element_wise_against_one_type() {
    let v = ConstrainedValue::Return(vec![u8v(1), u8v(2)]);
    assert!(v.expect_type(&Type::IntegerType(IntegerType::U8)).is_ok());
    let mixed = ConstrainedValue::Return(vec![u8v(1), ConstrainedValue::Boolean(true)]);
    assert!(mixed.expect_type(&Type::IntegerType(IntegerType::U8)).is_err());
    let empty = ConstrainedValue::Return(vec![]);
    assert!(empty.expect_type(&Type::Boolean).is_ok());
}

#[test]
fn unresolved_value_checks_against_nothing() {
    let v = ConstrainedValue::Unresolved(String::from("5"));
    match v.expect_type(&Type::IntegerType(IntegerType::U8)) {
        Err(ValueError::TypeMismatch { expected, value }) => {
            assert_eq!(expected, "u8");
            assert_eq!(value, "unresolved 5");
        }
        _ => panic!("expected a type mismatch"),
    }
}

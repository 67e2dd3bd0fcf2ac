use constrained_values::error::ValueError;
use constrained_values::integer::Integer;
use constrained_values::types::{Identifier, IntegerType, Type};
use constrained_values::value::ConstrainedValue;

#[test]
fn integer_literals_resolve_at_every_width() {
    let cases = [
        (IntegerType::U8, "200"),
        (IntegerType::U16, "60000"),
        (IntegerType::U32, "4000000000"),
        (IntegerType::U64, "18000000000000000000"),
        (IntegerType::U128, "340282366920938463463374607431768211455"),
    ];
    for (it, text) in cases {
        let t = Type::IntegerType(it);
        let v = ConstrainedValue::from_type(String::from(text), &t).unwrap();
        assert!(v.expect_type(&t).is_ok());
        assert_eq!(v.render(), text);
    }
}

#[test]
fn integer_literal_resolves_to_the_exact_constant() {
    let t = Type::IntegerType(IntegerType::U8);
    let v = ConstrainedValue::from_type(String::from("42"), &t).unwrap();
    assert!(matches!(v, ConstrainedValue::Integer(Integer::U8(42))));
}

#[test]
fn integer_literal_out_of_width_fails() {
    let t = Type::IntegerType(IntegerType::U8);
    match ConstrainedValue::from_type(String::from("256"), &t) {
        Err(ValueError::LiteralParse { text }) => assert_eq!(text, "256"),
        _ => panic!("expected a literal parse failure"),
    }
    assert!(ConstrainedValue::from_type(String::from("255"), &t).is_ok());
}

#[test]
fn non_numeric_integer_literal_fails() {
    let t = Type::IntegerType(IntegerType::U32);
    match ConstrainedValue::from_type(String::from("12a"), &t) {
        Err(ValueError::LiteralParse { text }) => assert_eq!(text, "12a"),
        _ => panic!("expected a literal parse failure"),
    }
    assert!(ConstrainedValue::from_type(String::from(""), &t).is_err());
}

#[test]
fn boolean_literals_resolve_strictly() {
    let t = Type::Boolean;
    let v = ConstrainedValue::from_type(String::from("true"), &t).unwrap();
    assert!(matches!(v, ConstrainedValue::Boolean(true)));
    let w = ConstrainedValue::from_type(String::from("false"), &t).unwrap();
    assert!(matches!(w, ConstrainedValue::Boolean(false)));
    match ConstrainedValue::from_type(String::from("yes"), &t) {
        Err(ValueError::LiteralParse { text }) => assert_eq!(text, "yes"),
        _ => panic!("expected a literal parse failure"),
    }
}

#[test]
fn field_literal_resolves_to_its_decimal_value() {
    let v = ConstrainedValue::from_type(String::from("123"), &Type::FieldElement).unwrap();
    assert!(matches!(v, ConstrainedValue::FieldElement(123)));
}

#[test]
fn unparsable_field_literal_falls_back_to_zero() {
    let v = ConstrainedValue::from_type(String::from("garbage"), &Type::FieldElement).unwrap();
    assert!(matches!(v, ConstrainedValue::FieldElement(0)));
    let w = ConstrainedValue::from_type(
        String::from("340282366920938463463374607431768211456"),
        &Type::FieldElement,
    )
    .unwrap();
    assert!(matches!(w, ConstrainedValue::FieldElement(0)));
}

#[test]
fn group_literal_is_the_generator_scaled_by_the_parsed_scalar() {
    let v = ConstrainedValue::from_type(String::from("7"), &Type::GroupElement).unwrap();
    assert!(matches!(v, ConstrainedValue::GroupElement(7)));
    let w = ConstrainedValue::from_type(String::from("nonsense"), &Type::GroupElement).unwrap();
    assert!(matches!(w, ConstrainedValue::GroupElement(0)));
}

#[test]
fn literals_of_composite_types_stay_unresolved() {
    let t = Type::Circuit(Identifier { name: String::from("Point") });
    match ConstrainedValue::from_type(String::from("hello"), &t) {
        Ok(ConstrainedValue::Unresolved(text)) => assert_eq!(text, "hello"),
        _ => panic!("expected a deferred literal"),
    }
    let arr = Type::Array(Box::new(Type::Boolean), vec![2]);
    assert!(matches!(
        ConstrainedValue::from_type(String::from("x"), &arr),
        Ok(ConstrainedValue::Unresolved(_))
    ));
    assert!(matches!(
        ConstrainedValue::from_type(String::from("x"), &Type::SelfType),
        Ok(ConstrainedValue::Unresolved(_))
    ));
}

#[test]
fn from_other_borrows_the_exemplar_width() {
    let exemplar = ConstrainedValue::Integer(Integer::U32(9));
    let v = ConstrainedValue::from_other(String::from("7"), &exemplar).unwrap();
    assert!(matches!(v, ConstrainedValue::Integer(Integer::U32(7))));
}

// The type-checking paths hand `to_type` (through `from_other`) primitive
// exemplars only; on composites it is a contract violation, so only
// primitives are exercised here.
#[test]
fn to_type_recovers_each_primitive_type() {
    let i = ConstrainedValue::Integer(Integer::U64(4));
    assert!(matches!(i.to_type(), Type::IntegerType(IntegerType::U64)));
    assert!(matches!(ConstrainedValue::FieldElement(1).to_type(), Type::FieldElement));
    assert!(matches!(ConstrainedValue::GroupElement(1).to_type(), Type::GroupElement));
    assert!(matches!(ConstrainedValue::Boolean(false).to_type(), Type::Boolean));
    let f = ConstrainedValue::from_other(String::from("5"), &ConstrainedValue::FieldElement(2))
        .unwrap();
    assert!(matches!(f, ConstrainedValue::FieldElement(5)));
}

#[test]
fn leading_zeros_are_read_as_decimal() {
    let t = Type::IntegerType(IntegerType::U8);
    let v = ConstrainedValue::from_type(String::from("007"), &t).unwrap();
    assert!(matches!(v, ConstrainedValue::Integer(Integer::U8(7))));
}

#[test]
fn signed_or_spaced_text_is_not_a_literal() {
    let t = Type::IntegerType(IntegerType::U8);
    assert!(ConstrainedValue::from_type(String::from("+5"), &t).is_err());
    assert!(ConstrainedValue::from_type(String::from(" 5"), &t).is_err());
    assert!(ConstrainedValue::from_type(String::from("-5"), &t).is_err());
}

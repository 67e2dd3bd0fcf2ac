//! The value model and its two logic layers: the recursive type-compatibility
//! check and the literal resolver.

use vstd::prelude::*;

use crate::error::{ValueError, ValueErrorModel};
use crate::integer::Integer;
use crate::text::{dec_digits, dec_value, is_dec_literal, parse_dec_u128, render_dec_u128};
use crate::types::{render_peeled, render_peeled_type, render_type, Circuit, Function, Identifier,
    Type};

verus! {

broadcast use
    vstd::std_specs::vec::axiom_vec_index_decreases,
    vstd::std_specs::vec::axiom_vec_decreases_to_view,
    vstd::seq::axiom_seq_index_decreases;


/// One field of an instantiated record: the field's name and its value.
/// Members keep the declaration order of the record type.
#[derive(PartialEq, Eq)]
pub struct ConstrainedCircuitMember(pub Identifier, pub ConstrainedValue);

/// A program value produced by semantic analysis: either a concrete typed
/// value, a compile-time-only entity, a transparent binding wrapper, or a
/// literal whose target type is not yet known.
///
/// Field constants are carried by their canonical representative in an
/// unsigned machine word; group constants, which lie on the cyclic subgroup
/// of the canonical generator, are carried by the scalar that multiplies the
/// generator.  Field and group arithmetic themselves are outside this core.
#[derive(PartialEq, Eq)]
pub enum ConstrainedValue {
    Integer(Integer),
    FieldElement(u128),
    GroupElement(u128),
    Boolean(bool),
    Array(Vec<ConstrainedValue>),
    /// Compile-time-only: the record *type*, never a runtime value.
    CircuitDefinition(Circuit),
    /// An instantiated record: its type name and its members in declaration
    /// order.
    CircuitExpression(Identifier, Vec<ConstrainedCircuitMember>),
    /// A reference to a declared function, optionally bound to a record.
    /// It carries the declaration, so it is compile-time-only and never
    /// appears in program output.
    Function(Option<Identifier>, Function),
    /// The output(s) of evaluating a function body.
    Return(Vec<ConstrainedValue>),
    /// A value bound with mutable semantics; transparent to typing and to
    /// rendering.
    Mutable(Box<ConstrainedValue>),
    /// A value bound with compile-time-only semantics; transparent to typing
    /// and to rendering.
    Static(Box<ConstrainedValue>),
    /// Raw literal text whose target type is not yet known.
    Unresolved(String),
}

impl ConstrainedValue {
    /// No compile-time-only entity — a record declaration or a function
    /// definition — occurs anywhere in the value.  Runtime value trees keep
    /// this invariant; the checker and the renderer rely on it.
    pub open spec fn definition_free(self) -> bool
        decreases self,
    {
        match self {
            ConstrainedValue::CircuitDefinition(_) => false,
            ConstrainedValue::Function(_, _) => false,
            ConstrainedValue::Array(elems) => forall|i: int|
                0 <= i < elems@.len() ==> (#[trigger] elems@[i]).definition_free(),
            ConstrainedValue::CircuitExpression(_, members) => forall|i: int|
                0 <= i < members@.len() ==> (#[trigger] members@[i]).1.definition_free(),
            ConstrainedValue::Return(vals) => forall|i: int|
                0 <= i < vals@.len() ==> (#[trigger] vals@[i]).definition_free(),
            ConstrainedValue::Mutable(inner) => (*inner).definition_free(),
            ConstrainedValue::Static(inner) => (*inner).definition_free(),
            _ => true,
        }
    }

    /// The four primitive variants: the only ones whose type can be
    /// extracted by [`ConstrainedValue::to_type`].
    pub open spec fn is_primitive(self) -> bool {
        self is Integer || self is FieldElement || self is GroupElement || self is Boolean
    }

    /// The declared type of a primitive value.
    pub open spec fn spec_to_type(self) -> Type {
        match self {
            ConstrainedValue::Integer(i) => Type::IntegerType(i.int_type_spec()),
            ConstrainedValue::FieldElement(_) => Type::FieldElement,
            ConstrainedValue::GroupElement(_) => Type::GroupElement,
            ConstrainedValue::Boolean(_) => Type::Boolean,
            _ => arbitrary(),
        }
    }
}

/// The rendering of a value, as produced for diagnostics and program output.
/// Compile-time-only entities — record declarations and function
/// definitions — have no rendering; [`ConstrainedValue::render`] excludes
/// them.
pub open spec fn render_value(v: ConstrainedValue) -> Seq<char>
    decreases v, 0int,
{
    match v {
        ConstrainedValue::Integer(i) => dec_digits(i.value_spec()),
        ConstrainedValue::FieldElement(x) => dec_digits(x as nat),
        ConstrainedValue::GroupElement(x) => dec_digits(x as nat),
        ConstrainedValue::Boolean(b) => if b {
            "true"@
        } else {
            "false"@
        },
        ConstrainedValue::Array(elems) => "["@ + render_elements(elems@, elems@.len() as int)
            + "]"@,
        ConstrainedValue::CircuitDefinition(_) => Seq::<char>::empty(),
        ConstrainedValue::CircuitExpression(id, members) => id@ + " { "@ + render_members(
            members@,
            members@.len() as int,
        ) + " }"@,
        ConstrainedValue::Function(_, _) => Seq::<char>::empty(),
        ConstrainedValue::Return(vals) => "["@ + render_elements(vals@, vals@.len() as int)
            + "]"@,
        ConstrainedValue::Mutable(inner) => render_value(*inner),
        ConstrainedValue::Static(inner) => render_value(*inner),
        ConstrainedValue::Unresolved(text) => "unresolved "@ + text@,
    }
}

/// The first `n` elements rendered, separated by `", "`.
pub open spec fn render_elements(s: Seq<ConstrainedValue>, n: int) -> Seq<char>
    decreases s, n,
{
    if n <= 0 || n > s.len() {
        Seq::<char>::empty()
    } else if n == 1 {
        render_value(s[0])
    } else {
        render_elements(s, n - 1) + ", "@ + render_value(s[n - 1])
    }
}

/// The first `n` record members rendered as `name: value`, separated by
/// `", "`.
pub open spec fn render_members(s: Seq<ConstrainedCircuitMember>, n: int) -> Seq<char>
    decreases s, n,
{
    if n <= 0 || n > s.len() {
        Seq::<char>::empty()
    } else if n == 1 {
        s[0].0@ + ": "@ + render_value(s[0].1)
    } else {
        render_members(s, n - 1) + ", "@ + s[n - 1].0@ + ": "@ + render_value(s[n - 1].1)
    }
}

/// Whether value `v` is acceptable where type `t` is declared.
pub open spec fn type_checks(v: ConstrainedValue, t: Type) -> bool
    decreases v, 1int,
{
    match v {
        ConstrainedValue::Integer(i) => t matches Type::IntegerType(it) && i.int_type_spec()
            == it,
        ConstrainedValue::FieldElement(_) => t is FieldElement,
        ConstrainedValue::GroupElement(_) => t is GroupElement,
        ConstrainedValue::Boolean(_) => t is Boolean,
        ConstrainedValue::Array(elems) => t matches Type::Array(et, dims) && dims@.len() > 0
            && elems@.len() == dims@[0] as nat && (forall|i: int|
            0 <= i < elems@.len() ==> level_checks(#[trigger] elems@[i], *et, dims@, 1)),
        ConstrainedValue::CircuitDefinition(_) => false,
        ConstrainedValue::CircuitExpression(id, _) => match t {
            Type::Circuit(expected) => id@ == expected@,
            Type::SelfType => true,
            _ => false,
        },
        ConstrainedValue::Function(_, _) => false,
        ConstrainedValue::Return(vals) => forall|i: int|
            0 <= i < vals@.len() ==> type_checks(#[trigger] vals@[i], t),
        ConstrainedValue::Mutable(inner) => type_checks(*inner, t),
        ConstrainedValue::Static(inner) => type_checks(*inner, t),
        ConstrainedValue::Unresolved(_) => false,
    }
}

/// Whether `v` is acceptable against the array type whose first `d`
/// dimensions have been peeled off: the remaining dimensions are
/// `dims[d..]` over element type `et`.  Meaningful for `1 <= d < dims.len()`.
pub open spec fn dims_check(v: ConstrainedValue, et: Type, dims: Seq<usize>, d: int) -> bool
    decreases v, 1int,
{
    match v {
        ConstrainedValue::Array(elems) => elems@.len() == dims[d] as nat && (forall|i: int|
            0 <= i < elems@.len() ==> level_checks(#[trigger] elems@[i], et, dims, d + 1)),
        ConstrainedValue::Return(vals) => forall|i: int|
            0 <= i < vals@.len() ==> dims_check(#[trigger] vals@[i], et, dims, d),
        ConstrainedValue::Mutable(inner) => dims_check(*inner, et, dims, d),
        ConstrainedValue::Static(inner) => dims_check(*inner, et, dims, d),
        _ => false,
    }
}

/// One dimension level of array checking: with every dimension peeled the
/// element is checked against the bare element type, else against the
/// remaining dimensions.
pub open spec fn level_checks(v: ConstrainedValue, et: Type, dims: Seq<usize>, d: int) -> bool
    decreases v, 2int,
{
    if d >= dims.len() {
        type_checks(v, et)
    } else {
        dims_check(v, et, dims, d)
    }
}

/// The generic structural-incompatibility failure for `v` against `t`.
pub open spec fn mismatch_err(v: ConstrainedValue, t: Type) -> ValueErrorModel {
    ValueErrorModel::TypeMismatch { expected: render_type(t), value: render_value(v) }
}

/// Whether `e` is the failure that checking `v` against `t` reports.  The
/// failing element reported for an array or a return is the first one.
pub open spec fn expect_err(v: ConstrainedValue, t: Type, e: ValueErrorModel) -> bool
    decreases v, 1int,
{
    match v {
        ConstrainedValue::Integer(i) => (match t {
            Type::IntegerType(it) => i.int_type_spec() != it,
            _ => true,
        }) && e == mismatch_err(v, t),
        ConstrainedValue::FieldElement(_) => !(t is FieldElement) && e == mismatch_err(v, t),
        ConstrainedValue::GroupElement(_) => !(t is GroupElement) && e == mismatch_err(v, t),
        ConstrainedValue::Boolean(_) => !(t is Boolean) && e == mismatch_err(v, t),
        ConstrainedValue::Array(elems) => match t {
            Type::Array(et, dims) => dims@.len() > 0 && if elems@.len() != dims@[0] as nat {
                e == (ValueErrorModel::ArrayLength {
                    array: render_value(v),
                    expected: dims@[0] as int,
                })
            } else {
                exists|j: int|
                    0 <= j < elems@.len() && (forall|k: int|
                        0 <= k < j ==> level_checks(#[trigger] elems@[k], *et, dims@, 1))
                        && level_err(#[trigger] elems@[j], *et, dims@, 1, e)
            },
            _ => e == mismatch_err(v, t),
        },
        ConstrainedValue::CircuitDefinition(_) => e == mismatch_err(v, t),
        ConstrainedValue::CircuitExpression(id, _) => match t {
            Type::Circuit(expected) => id@ != expected@ && e == (ValueErrorModel::CircuitName {
                expected: expected@,
                actual: id@,
            }),
            Type::SelfType => false,
            _ => e == mismatch_err(v, t),
        },
        ConstrainedValue::Function(_, _) => e == mismatch_err(v, t),
        ConstrainedValue::Return(vals) => exists|j: int|
            0 <= j < vals@.len() && (forall|k: int|
                0 <= k < j ==> type_checks(#[trigger] vals@[k], t)) && expect_err(
                #[trigger] vals@[j],
                t,
                e,
            ),
        ConstrainedValue::Mutable(inner) => expect_err(*inner, t, e),
        ConstrainedValue::Static(inner) => expect_err(*inner, t, e),
        ConstrainedValue::Unresolved(_) => e == mismatch_err(v, t),
    }
}

/// Whether `e` is the failure that checking `v` against the peeled array
/// type `(et, dims[d..])` reports.  Meaningful for `1 <= d < dims.len()`.
pub open spec fn dims_err(
    v: ConstrainedValue,
    et: Type,
    dims: Seq<usize>,
    d: int,
    e: ValueErrorModel,
) -> bool
    decreases v, 1int,
{
    match v {
        ConstrainedValue::Array(elems) => if elems@.len() != dims[d] as nat {
            e == (ValueErrorModel::ArrayLength { array: render_value(v), expected: dims[d] as int })
        } else {
            exists|j: int|
                0 <= j < elems@.len() && (forall|k: int|
                    0 <= k < j ==> level_checks(#[trigger] elems@[k], et, dims, d + 1))
                    && level_err(#[trigger] elems@[j], et, dims, d + 1, e)
        },
        ConstrainedValue::Return(vals) => exists|j: int|
            0 <= j < vals@.len() && (forall|k: int|
                0 <= k < j ==> dims_check(#[trigger] vals@[k], et, dims, d)) && dims_err(
                #[trigger] vals@[j],
                et,
                dims,
                d,
                e,
            ),
        ConstrainedValue::Mutable(inner) => dims_err(*inner, et, dims, d, e),
        ConstrainedValue::Static(inner) => dims_err(*inner, et, dims, d, e),
        _ => e == (ValueErrorModel::TypeMismatch {
            expected: render_peeled(et, dims, d),
            value: render_value(v),
        }),
    }
}

/// One dimension level of array failure reporting.
pub open spec fn level_err(
    v: ConstrainedValue,
    et: Type,
    dims: Seq<usize>,
    d: int,
    e: ValueErrorModel,
) -> bool
    decreases v, 2int,
{
    if d >= dims.len() {
        expect_err(v, et, e)
    } else {
        dims_err(v, et, dims, d, e)
    }
}

/// The field constant that literal text resolves to: its decimal value, or
/// the additive identity when the text is not a decimal literal in range.
pub open spec fn field_of(text: Seq<char>) -> nat {
    if is_dec_literal(text) && dec_value(text) <= u128::MAX {
        dec_value(text) as nat
    } else {
        0
    }
}

/// What resolving literal `text` at declared type `t` returns.
pub open spec fn resolves_to(
    text: Seq<char>,
    t: Type,
    r: Result<ConstrainedValue, ValueError>,
) -> bool {
    match t {
        Type::IntegerType(it) => if is_dec_literal(text) && dec_value(text) <= it.max_spec() {
            r matches Ok(v) && v == ConstrainedValue::Integer(
                Integer::of_spec(it, dec_value(text) as nat),
            )
        } else {
            r matches Err(e) && e@ == (ValueErrorModel::LiteralParse { text })
        },
        Type::FieldElement => r matches Ok(v) && v == ConstrainedValue::FieldElement(
            field_of(text) as u128,
        ),
        Type::GroupElement => r matches Ok(v) && v == ConstrainedValue::GroupElement(
            field_of(text) as u128,
        ),
        Type::Boolean => if text == "true"@ {
            r matches Ok(v) && v == ConstrainedValue::Boolean(true)
        } else if text == "false"@ {
            r matches Ok(v) && v == ConstrainedValue::Boolean(false)
        } else {
            r matches Err(e) && e@ == (ValueErrorModel::LiteralParse { text })
        },
        _ => r matches Ok(v) && v matches ConstrainedValue::Unresolved(s) && s@ == text,
    }
}

/// Parses a field (or group scalar) constant; text that is not a decimal
/// literal in range falls back to the additive identity rather than failing.
fn parse_field(text: &str) -> (n: u128)
    ensures
        n == field_of(text@),
{
    match parse_dec_u128(text, u128::MAX) {
        Some(n) => n,
        None => 0,
    }
}

impl ConstrainedValue {
    /// Recovers the declared type of a primitive value.  Calling this on a
    /// composite, wrapper or deferred variant is a contract violation by the
    /// surrounding compiler phase, so those variants are excluded here.
    pub fn to_type(&self) -> (t: Type)
        requires
            self.is_primitive(),
        ensures
            t == self.spec_to_type(),
    {
        match self {
            ConstrainedValue::Integer(integer) => Type::IntegerType(integer.get_type()),
            ConstrainedValue::FieldElement(_) => Type::FieldElement,
            ConstrainedValue::GroupElement(_) => Type::GroupElement,
            ConstrainedValue::Boolean(_) => Type::Boolean,
            _ => unreached(),
        }
    }

    /// Resolves raw literal text against a known declared type.
    ///
    /// Integer and boolean literals that fail to parse are reported as
    /// failures.  Field and group literals that fail to parse resolve to the
    /// additive identity instead; the permissive fallback is deliberate and
    /// is part of this function's contract.  A group literal is read as a
    /// scalar, and the resulting constant is the canonical generator scaled
    /// by it.  Literals of composite or placeholder types are deferred
    /// unresolved.
    pub fn from_type(value: String, expected: &Type) -> (r: Result<ConstrainedValue, ValueError>)
        ensures
            resolves_to(value@, *expected, r),
    {
        match expected {
            Type::IntegerType(it) => match Integer::parse(value.as_str(), *it) {
                Some(i) => Ok(ConstrainedValue::Integer(i)),
                None => Err(ValueError::LiteralParse { text: value }),
            },
            Type::FieldElement => Ok(ConstrainedValue::FieldElement(parse_field(value.as_str()))),
            Type::GroupElement => Ok(ConstrainedValue::GroupElement(parse_field(value.as_str()))),
            Type::Boolean => {
                let true_text = String::from_str("true");
                let false_text = String::from_str("false");
                if value == true_text {
                    Ok(ConstrainedValue::Boolean(true))
                } else if value == false_text {
                    Ok(ConstrainedValue::Boolean(false))
                } else {
                    Err(ValueError::LiteralParse { text: value })
                }
            },
            _ => Ok(ConstrainedValue::Unresolved(value)),
        }
    }

    /// Produces the stable textual form of the value, for diagnostics and
    /// for formatting a program's final output.  A record declaration and a
    /// function definition are compile-time-only and have no textual form,
    /// which is why the value must be free of them.  A return renders as the
    /// bare bracketed list of its values, and the binding wrappers render
    /// exactly as the value they contain.
    pub fn render(&self) -> (r: String)
        requires
            self.definition_free(),
        ensures
            r@ == render_value(*self),
        decreases *self, 1int,
    {
        match self {
            ConstrainedValue::Integer(integer) => integer.render(),
            ConstrainedValue::FieldElement(x) => render_dec_u128(*x),
            ConstrainedValue::GroupElement(x) => render_dec_u128(*x),
            ConstrainedValue::Boolean(b) => if *b {
                String::from_str("true")
            } else {
                String::from_str("false")
            },
            ConstrainedValue::Array(elems) => {
                let mut s = String::from_str("[");
                let inner = Self::render_elements_text(elems);
                s.append(inner.as_str());
                s.append("]");
                s
            },
            ConstrainedValue::CircuitDefinition(_) => unreached(),
            ConstrainedValue::CircuitExpression(id, members) => {
                let mut s = id.render();
                s.append(" { ");
                let inner = Self::render_members_text(members);
                s.append(inner.as_str());
                s.append(" }");
                s
            },
            ConstrainedValue::Function(_, _) => unreached(),
            ConstrainedValue::Return(vals) => {
                let mut s = String::from_str("[");
                let inner = Self::render_elements_text(vals);
                s.append(inner.as_str());
                s.append("]");
                s
            },
            ConstrainedValue::Mutable(inner) => (&**inner).render(),
            ConstrainedValue::Static(inner) => (&**inner).render(),
            ConstrainedValue::Unresolved(text) => {
                let mut s = String::from_str("unresolved ");
                s.append(text.as_str());
                s
            },
        }
    }

    /// Renders a sequence of values, separated by `", "`.
    fn render_elements_text(elems: &Vec<ConstrainedValue>) -> (r: String)
        requires
            forall|i: int| 0 <= i < elems@.len() ==> (#[trigger] elems@[i]).definition_free(),
        ensures
            r@ == render_elements(elems@, elems@.len() as int),
        decreases *elems,
    {
        let mut s = String::new();
        let n = elems.len();
        let mut i: usize = 0;
        #[verifier::loop_isolation(false)]
        while i < n
            invariant
                0 <= i <= n,
                s@ == render_elements(elems@, i as int),
            decreases n - i,
        {
            if i > 0 {
                s.append(", ");
            }
            let rendered = elems[i].render();
            s.append(rendered.as_str());
            proof {
                assert(s@ =~= render_elements(elems@, i as int + 1));
            }
            i += 1;
        }
        s
    }

    /// Renders record members as `name: value`, separated by `", "`.
    fn render_members_text(members: &Vec<ConstrainedCircuitMember>) -> (r: String)
        requires
            forall|i: int| 0 <= i < members@.len() ==> (#[trigger] members@[i]).1.definition_free(),
        ensures
            r@ == render_members(members@, members@.len() as int),
        decreases *members,
    {
        let mut s = String::new();
        let n = members.len();
        let mut i: usize = 0;
        #[verifier::loop_isolation(false)]
        while i < n
            invariant
                0 <= i <= n,
                s@ == render_members(members@, i as int),
            decreases n - i,
        {
            if i > 0 {
                s.append(", ");
            }
            let name = members[i].0.render();
            s.append(name.as_str());
            s.append(": ");
            let rendered = members[i].1.render();
            s.append(rendered.as_str());
            proof {
                assert(s@ =~= render_members(members@, i as int + 1));
            }
            i += 1;
        }
        s
    }

    /// Decides whether this value is acceptable where `expected` is
    /// declared, recursing through composite and wrapper structure.  This is
    /// a one-directional judgment, not a symmetric equality: it is the sole
    /// mechanism enforcing array dimensionality and record identity.
    ///
    /// The `SelfType` placeholder denotes the enclosing record's own type;
    /// by the time an instantiated record reaches this check its type name
    /// has been resolved upstream, so any record instance is accepted
    /// against it.
    pub fn expect_type(&self, expected: &Type) -> (r: Result<(), ValueError>)
        requires
            expected.wf(),
            self.definition_free(),
        ensures
            r is Ok <==> type_checks(*self, *expected),
            r matches Err(e) ==> expect_err(*self, *expected, e@),
        decreases *self, 1int,
    {
        match (self, expected) {
            (ConstrainedValue::Integer(integer), Type::IntegerType(it)) => integer.expect_type(it),
            (ConstrainedValue::FieldElement(_), Type::FieldElement) => Ok(()),
            (ConstrainedValue::GroupElement(_), Type::GroupElement) => Ok(()),
            (ConstrainedValue::Boolean(_), Type::Boolean) => Ok(()),
            (ConstrainedValue::Array(elems), Type::Array(et, dims)) => {
                if elems.len() != dims[0] {
                    return Err(
                        ValueError::ArrayLength { array: self.render(), expected: dims[0] },
                    );
                }
                let n = elems.len();
                let mut i: usize = 0;
                #[verifier::loop_isolation(false)]
                while i < n
                    invariant
                        0 <= i <= n,
                        forall|k: int| 0 <= k < i ==> level_checks(#[trigger] elems@[k], **et, dims@, 1),
                    decreases n - i,
                {
                    match Self::expect_level(&elems[i], et, dims, 1) {
                        Ok(()) => {},
                        Err(e) => {
                            return Err(e);
                        },
                    }
                    i += 1;
                }
                Ok(())
            },
            (ConstrainedValue::CircuitExpression(id, _), Type::Circuit(expected_name)) => {
                if id.eq_name(expected_name) {
                    Ok(())
                } else {
                    Err(
                        ValueError::CircuitName {
                            expected: expected_name.render(),
                            actual: id.render(),
                        },
                    )
                }
            },
            (ConstrainedValue::CircuitExpression(_, _), Type::SelfType) => Ok(()),
            (ConstrainedValue::Return(vals), _) => {
                let n = vals.len();
                let mut i: usize = 0;
                #[verifier::loop_isolation(false)]
                while i < n
                    invariant
                        0 <= i <= n,
                        forall|k: int| 0 <= k < i ==> type_checks(#[trigger] vals@[k], *expected),
                    decreases n - i,
                {
                    match vals[i].expect_type(expected) {
                        Ok(()) => {},
                        Err(e) => {
                            return Err(e);
                        },
                    }
                    i += 1;
                }
                Ok(())
            },
            (ConstrainedValue::Mutable(inner), _) => (&**inner).expect_type(expected),
            (ConstrainedValue::Static(inner), _) => (&**inner).expect_type(expected),
            _ => Err(
                ValueError::TypeMismatch { expected: expected.render(), value: self.render() },
            ),
        }
    }

    /// Checks one value against the array type whose first `d` dimensions
    /// have been peeled off.
    fn expect_level(v: &ConstrainedValue, et: &Type, dims: &Vec<usize>, d: usize) -> (r: Result<
        (),
        ValueError,
    >)
        requires
            et.wf(),
            v.definition_free(),
            1 <= d <= dims@.len(),
        ensures
            r is Ok <==> level_checks(*v, *et, dims@, d as int),
            r matches Err(e) ==> level_err(*v, *et, dims@, d as int, e@),
        decreases *v, 2int,
    {
        if d == dims.len() {
            return v.expect_type(et);
        }
        match v {
            ConstrainedValue::Array(elems) => {
                if elems.len() != dims[d] {
                    return Err(
                        ValueError::ArrayLength { array: v.render(), expected: dims[d] },
                    );
                }
                let n = elems.len();
                let mut i: usize = 0;
                #[verifier::loop_isolation(false)]
                while i < n
                    invariant
                        0 <= i <= n,
                        forall|k: int|
                            0 <= k < i ==> level_checks(#[trigger] elems@[k], *et, dims@, d + 1),
                    decreases n - i,
                {
                    match Self::expect_level(&elems[i], et, dims, d + 1) {
                        Ok(()) => {},
                        Err(e) => {
                            return Err(e);
                        },
                    }
                    i += 1;
                }
                Ok(())
            },
            ConstrainedValue::Return(vals) => {
                let n = vals.len();
                let mut i: usize = 0;
                #[verifier::loop_isolation(false)]
                while i < n
                    invariant
                        0 <= i <= n,
                        forall|k: int|
                            0 <= k < i ==> dims_check(#[trigger] vals@[k], *et, dims@, d as int),
                    decreases n - i,
                {
                    match Self::expect_level(&vals[i], et, dims, d) {
                        Ok(()) => {},
                        Err(e) => {
                            return Err(e);
                        },
                    }
                    i += 1;
                }
                Ok(())
            },
            ConstrainedValue::Mutable(inner) => Self::expect_level(&**inner, et, dims, d),
            ConstrainedValue::Static(inner) => Self::expect_level(&**inner, et, dims, d),
            _ => Err(
                ValueError::TypeMismatch {
                    expected: render_peeled_type(et, dims, d),
                    value: v.render(),
                },
            ),
        }
    }

    /// Resolves a literal by borrowing the type of an already-resolved
    /// sibling value, which must be primitive.
    pub fn from_other(value: String, other: &ConstrainedValue) -> (r: Result<
        ConstrainedValue,
        ValueError,
    >)
        requires
            other.is_primitive(),
        ensures
            resolves_to(value@, other.spec_to_type(), r),
    {
        let other_type = other.to_type();
        ConstrainedValue::from_type(value, &other_type)
    }
}

} // verus!

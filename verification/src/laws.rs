//! Laws relating the checker, the resolver and the renderer, stated over the
//! same specification functions that those operations' contracts use.

use vstd::prelude::*;

use crate::error::{ValueError, ValueErrorModel};
use crate::integer::Integer;
use crate::text::{dec_digits, dec_value, is_dec_literal, lemma_dec_digits_round_trip};
use crate::types::{Identifier, IntegerType, Type};
use crate::value::{dims_check, expect_err, level_checks, render_value, resolves_to, type_checks,
    ConstrainedCircuitMember, ConstrainedValue};

verus! {

/// For every integer representable in a width, the canonical decimal text of
/// the integer is a literal of that width: it resolves back to the same
/// constant, the constant checks against the width, and its rendering is
/// that same text.
pub proof fn lemma_integer_literal_round_trip(n: u128, it: IntegerType)
    requires
        n <= it.max_spec(),
    ensures
        is_dec_literal(dec_digits(n as nat)),
        dec_value(dec_digits(n as nat)) == n,
        type_checks(
            ConstrainedValue::Integer(Integer::of_spec(it, n as nat)),
            Type::IntegerType(it),
        ),
        render_value(ConstrainedValue::Integer(Integer::of_spec(it, n as nat))) == dec_digits(
            n as nat,
        ),
        forall|r: Result<ConstrainedValue, ValueError>|
            #[trigger] resolves_to(dec_digits(n as nat), Type::IntegerType(it), r) ==> (r matches Ok(
                v,
            ) && v == ConstrainedValue::Integer(Integer::of_spec(it, n as nat))),
{
    lemma_dec_digits_round_trip(n as nat);
}

/// Checking an array against a single-dimension array type succeeds exactly
/// when the array's length equals that dimension and every element
/// independently checks against the element type.
pub proof fn lemma_array_single_dimension(elems: Vec<ConstrainedValue>, t: Type)
    requires
        t is Array,
        t->Array_1@.len() == 1,
    ensures
        type_checks(ConstrainedValue::Array(elems), t) <==> (elems@.len() == t->Array_1@[0] as nat
            && forall|i: int|
            0 <= i < elems@.len() ==> type_checks(#[trigger] elems@[i], *t->Array_0)),
{
    let et = *t->Array_0;
    let dims = t->Array_1@;
    assert(forall|i: int|
        0 <= i < elems@.len() ==> level_checks(#[trigger] elems@[i], et, dims, 1) == type_checks(
            elems@[i],
            et,
        ));
}

/// Nested dimensions compose by peeling one dimension per nesting level: at
/// an intermediate level, an array matches exactly when its length equals
/// the dimension at that level and each element matches at the next level.
pub proof fn lemma_array_peels_one_dimension(
    elems: Vec<ConstrainedValue>,
    et: Type,
    dims: Seq<usize>,
    d: int,
)
    requires
        1 <= d < dims.len(),
    ensures
        dims_check(ConstrainedValue::Array(elems), et, dims, d) <==> (elems@.len() == dims[d] as nat
            && forall|i: int|
            0 <= i < elems@.len() ==> level_checks(#[trigger] elems@[i], et, dims, d + 1)),
{
}

/// An instantiated record checks against a declared record type exactly when
/// the two type names agree, and a disagreement is reported as a name
/// mismatch carrying both names.
pub proof fn lemma_circuit_name_check(
    id: Identifier,
    members: Vec<ConstrainedCircuitMember>,
    t: Type,
)
    requires
        t is Circuit,
    ensures
        type_checks(ConstrainedValue::CircuitExpression(id, members), t) <==> id@
            == t->Circuit_0@,
        forall|e: ValueErrorModel|
            #[trigger] expect_err(ConstrainedValue::CircuitExpression(id, members), t, e) <==> (id@
                != t->Circuit_0@ && e == (ValueErrorModel::CircuitName {
                expected: t->Circuit_0@,
                actual: id@,
            })),
{
}

/// The binding wrappers are transparent: a wrapped value checks against a
/// type exactly as the value itself does, fails with the very same error,
/// and renders exactly as the value itself renders.
pub proof fn lemma_wrapper_transparency(b: Box<ConstrainedValue>, t: Type)
    ensures
        type_checks(ConstrainedValue::Mutable(b), t) == type_checks(*b, t),
        type_checks(ConstrainedValue::Static(b), t) == type_checks(*b, t),
        render_value(ConstrainedValue::Mutable(b)) == render_value(*b),
        render_value(ConstrainedValue::Static(b)) == render_value(*b),
        forall|e: ValueErrorModel|
            #[trigger] expect_err(ConstrainedValue::Mutable(b), t, e) == expect_err(*b, t, e),
        forall|e: ValueErrorModel|
            #[trigger] expect_err(ConstrainedValue::Static(b), t, e) == expect_err(*b, t, e),
{
}

/// A return checks against a type exactly when every returned value
/// independently checks against that same type.
pub proof fn lemma_return_elementwise(vals: Vec<ConstrainedValue>, t: Type)
    ensures
        type_checks(ConstrainedValue::Return(vals), t) <==> forall|i: int|
            0 <= i < vals@.len() ==> type_checks(#[trigger] vals@[i], t),
{
    let v = ConstrainedValue::Return(vals);
    if type_checks(v, t) {
        assert forall|i: int| 0 <= i < vals@.len() implies type_checks(#[trigger] vals@[i], t) by {
            assert(v->Return_0 == vals);
            assert(v->Return_0@[i] == vals@[i]);
        }
    }
    if forall|i: int| 0 <= i < vals@.len() ==> type_checks(#[trigger] vals@[i], t) {
        assert(type_checks(v, t));
    }
}

/// The type borrowed from a primitive exemplar is itself primitive, so
/// resolution driven by an exemplar either produces a concrete typed value
/// or reports a parse failure; it never defers the literal.  Extraction on
/// a composite, wrapper or deferred value is a contract violation, which the
/// preconditions of `to_type` and `from_other` exclude, so only primitive
/// exemplars ever reach this path.
pub proof fn lemma_exemplar_resolution_never_defers(v: ConstrainedValue, text: Seq<char>)
    requires
        v.is_primitive(),
    ensures
        v.spec_to_type() is IntegerType || v.spec_to_type() is FieldElement || v.spec_to_type()
            is GroupElement || v.spec_to_type() is Boolean,
        forall|r: Result<ConstrainedValue, ValueError>|
            #[trigger] resolves_to(text, v.spec_to_type(), r) ==> !(r matches Ok(w) && w
                is Unresolved),
{
}

/// Rendering round-trips for primitives: the rendering of an integer,
/// boolean, field or group constant is text that the resolver, pointed at
/// that value's own type, accepts and resolves back to the very same value.
pub proof fn lemma_render_resolves_back(v: ConstrainedValue)
    requires
        v.is_primitive(),
    ensures
        forall|r: Result<ConstrainedValue, ValueError>|
            #[trigger] resolves_to(render_value(v), v.spec_to_type(), r) ==> (r matches Ok(w) && w
                == v),
{
    reveal_strlit("true");
    reveal_strlit("false");
    match v {
        ConstrainedValue::Integer(i) => {
            lemma_dec_digits_round_trip(i.value_spec());
            match i {
                Integer::U8(_) => {},
                Integer::U16(_) => {},
                Integer::U32(_) => {},
                Integer::U64(_) => {},
                Integer::U128(_) => {},
            }
        },
        ConstrainedValue::FieldElement(x) => {
            lemma_dec_digits_round_trip(x as nat);
        },
        ConstrainedValue::GroupElement(x) => {
            lemma_dec_digits_round_trip(x as nat);
        },
        ConstrainedValue::Boolean(_) => {},
        _ => {},
    }
}

} // verus!

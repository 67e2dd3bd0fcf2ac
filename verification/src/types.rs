//! The declared-type model consumed by the checker and the resolver, and the
//! identifiers and declarations it refers to.

use vstd::prelude::*;

use crate::text::dec_digits;

verus! {

/// A source identifier: a record name, a member name, or a function name.
#[derive(Clone, PartialEq, Eq)]
pub struct Identifier {
    pub name: String,
}

impl View for Identifier {
    type V = Seq<char>;

    open spec fn view(&self) -> Seq<char> {
        self.name@
    }
}

impl Identifier {
    pub fn new(name: String) -> (r: Identifier)
        ensures
            r@ == name@,
    {
        Identifier { name }
    }

    /// Two identifiers denote the same name exactly when their text is equal.
    pub fn eq_name(&self, other: &Identifier) -> (r: bool)
        ensures
            r == (self@ == other@),
    {
        self.name == other.name
    }

    /// A fresh copy of the identifier's text.
    pub fn render(&self) -> (r: String)
        ensures
            r@ == self@,
    {
        self.name.clone()
    }
}

/// The bit width of a sized unsigned integer.
#[derive(Clone, Copy, PartialEq, Eq, Structural)]
pub enum IntegerType {
    U8,
    U16,
    U32,
    U64,
    U128,
}

impl IntegerType {
    /// The largest value representable in this width.
    pub open spec fn max_spec(self) -> nat {
        match self {
            IntegerType::U8 => u8::MAX as nat,
            IntegerType::U16 => u16::MAX as nat,
            IntegerType::U32 => u32::MAX as nat,
            IntegerType::U64 => u64::MAX as nat,
            IntegerType::U128 => u128::MAX as nat,
        }
    }

    /// The source-level name of the width.
    pub open spec fn spec_name(self) -> Seq<char> {
        match self {
            IntegerType::U8 => "u8"@,
            IntegerType::U16 => "u16"@,
            IntegerType::U32 => "u32"@,
            IntegerType::U64 => "u64"@,
            IntegerType::U128 => "u128"@,
        }
    }

    pub fn name_str(&self) -> (r: &'static str)
        ensures
            r@ == self.spec_name(),
    {
        match self {
            IntegerType::U8 => "u8",
            IntegerType::U16 => "u16",
            IntegerType::U32 => "u32",
            IntegerType::U64 => "u64",
            IntegerType::U128 => "u128",
        }
    }
}

/// A function declaration.  This core stores and renders only the declared
/// name; parameters, returns and body belong to the surrounding evaluator.
#[derive(Clone, PartialEq, Eq)]
pub struct Function {
    pub function_name: Identifier,
}

/// One declared member of a record type: a field name and its declared type.
#[derive(PartialEq, Eq)]
pub struct CircuitFieldDecl {
    pub name: Identifier,
    pub member_type: Type,
}

/// A record-type declaration: the record's name and its declared fields.
/// It is a compile-time-only entity; it never appears in program output.
#[derive(PartialEq, Eq)]
pub struct Circuit {
    pub identifier: Identifier,
    pub members: Vec<CircuitFieldDecl>,
}

/// The type an expression or binding is declared to conform to.
#[derive(PartialEq, Eq)]
pub enum Type {
    IntegerType(IntegerType),
    FieldElement,
    GroupElement,
    Boolean,
    /// Element type and the declared dimension sizes, outermost first.
    Array(Box<Type>, Vec<usize>),
    /// A record type, referred to by name.
    Circuit(Identifier),
    /// Placeholder for the enclosing record's own type.
    SelfType,
}

impl Type {
    /// A well-formed declared type: every array level declares at least one
    /// dimension.
    pub open spec fn wf(self) -> bool
        decreases self,
    {
        match self {
            Type::Array(et, dims) => dims@.len() > 0 && et.wf(),
            _ => true,
        }
    }
}

/// The rendering of the dimension list from entry `i` on: `[d_i][d_i+1]...`.
pub open spec fn render_dims(dims: Seq<usize>, i: int) -> Seq<char>
    decreases dims.len() - i,
{
    if i < 0 || i >= dims.len() {
        Seq::<char>::empty()
    } else {
        "["@ + dec_digits(dims[i] as nat) + "]"@ + render_dims(dims, i + 1)
    }
}

/// The stable textual form of a declared type, as used in diagnostics.
pub open spec fn render_type(t: Type) -> Seq<char>
    decreases t,
{
    match t {
        Type::IntegerType(it) => it.spec_name(),
        Type::FieldElement => "field"@,
        Type::GroupElement => "group"@,
        Type::Boolean => "bool"@,
        Type::Array(et, dims) => render_type(*et) + render_dims(dims@, 0),
        Type::Circuit(id) => id@,
        Type::SelfType => "Self"@,
    }
}

/// The textual form of an array type whose first `d` dimensions have been
/// peeled off; with every dimension peeled it is the bare element type.
pub open spec fn render_peeled(et: Type, dims: Seq<usize>, d: int) -> Seq<char> {
    render_type(et) + render_dims(dims, d)
}

impl Type {
    /// Renders the type in its stable textual form.
    pub fn render(&self) -> (r: String)
        ensures
            r@ == render_type(*self),
        decreases *self,
    {
        match self {
            Type::IntegerType(it) => String::from_str(it.name_str()),
            Type::FieldElement => String::from_str("field"),
            Type::GroupElement => String::from_str("group"),
            Type::Boolean => String::from_str("bool"),
            Type::Array(et, dims) => {
                let mut s = (&**et).render();
                append_dims(&mut s, dims, 0);
                s
            },
            Type::Circuit(id) => id.render(),
            Type::SelfType => String::from_str("Self"),
        }
    }
}

/// Renders the array type over `et` whose first `d` dimensions have been
/// peeled off; with every dimension peeled, the bare element type.
pub fn render_peeled_type(et: &Type, dims: &Vec<usize>, d: usize) -> (r: String)
    requires
        d <= dims@.len(),
    ensures
        r@ == render_peeled(*et, dims@, d as int),
{
    let mut s = et.render();
    append_dims(&mut s, dims, d);
    s
}

/// Appends `[d_i][d_i+1]...` for the dimensions from entry `i` on.
fn append_dims(s: &mut String, dims: &Vec<usize>, i: usize)
    requires
        i <= dims@.len(),
    ensures
        final(s)@ == old(s)@ + render_dims(dims@, i as int),
    decreases dims@.len() - i,
{
    if i < dims.len() {
        s.append("[");
        let rendered = crate::text::render_dec_u128(dims[i] as u128);
        s.append(rendered.as_str());
        s.append("]");
        append_dims(s, dims, i + 1);
    } else {
        proof {
            assert(old(s)@ + render_dims(dims@, i as int) =~= old(s)@);
        }
    }
}

} // verus!

//! The output side of the derivation engine: the schema tree of named,
//! documented fields, together with its mathematical model.
//!
//! Every executable node type (`Field`, `Type`, `Const`, `ConstValue`) has a
//! ghost mirror over `Seq<char>` (`FieldV`, `TypeV`, `ConstV`,
//! `ConstValueV`); the contracts of the builder speak of those mirrors.

use vstd::prelude::*;

verus! {

/// The constant value of a fieldless enum variant: nothing, a boolean in
/// canonical lowercase textual form, an exact text value, or the base-10
/// digit text of a numeric literal.
#[derive(Debug, Clone, PartialEq)]
pub enum ConstValue {
    NoValue,
    Bool(String),
    Str(String),
    Number(String),
}

/// A named constant of an enumeration-of-constants, with its documentation.
#[derive(Debug, Clone, PartialEq)]
pub struct Const {
    pub name: String,
    pub value: ConstValue,
    pub summary: Option<String>,
    pub description: Option<String>,
}

/// The shape of a value: a reference to a named type, a record with named
/// members, a tagged union whose variants carry data, or a plain
/// enumeration of named constants.
#[derive(Debug, PartialEq)]
pub enum Type {
    Ref(String),
    Struct { fields: Vec<Field> },
    EnumOfTypes { types: Vec<Field> },
    EnumOfConsts { consts: Vec<Const> },
}

/// One named, documented slot in the schema tree wrapping a `Type`: the
/// root type itself, a struct member, or an enum variant.
#[derive(Debug, PartialEq)]
pub struct Field {
    pub name: Option<String>,
    pub summary: Option<String>,
    pub description: Option<String>,
    pub value: Type,
}

/// Ghost mirror of `ConstValue`.
pub enum ConstValueV {
    NoValue,
    Bool(Seq<char>),
    Str(Seq<char>),
    Number(Seq<char>),
}

/// Ghost mirror of `Const`.
pub struct ConstV {
    pub name: Seq<char>,
    pub value: ConstValueV,
    pub summary: Option<Seq<char>>,
    pub description: Option<Seq<char>>,
}

/// Ghost mirror of `Type`.
pub enum TypeV {
    Ref(Seq<char>),
    Struct { fields: Seq<FieldV> },
    EnumOfTypes { types: Seq<FieldV> },
    EnumOfConsts { consts: Seq<ConstV> },
}

/// Ghost mirror of `Field`.
pub struct FieldV {
    pub name: Option<Seq<char>>,
    pub summary: Option<Seq<char>>,
    pub description: Option<Seq<char>>,
    pub value: TypeV,
}

/// The view of an optional string: the character sequence it holds, if any.
pub open spec fn opt_str_view(o: Option<String>) -> Option<Seq<char>> {
    match o {
        Some(s) => Some(s@),
        None => None,
    }
}

/// The model of one constant value.
pub open spec fn const_value_view(v: ConstValue) -> ConstValueV {
    match v {
        ConstValue::NoValue => ConstValueV::NoValue,
        ConstValue::Bool(s) => ConstValueV::Bool(s@),
        ConstValue::Str(s) => ConstValueV::Str(s@),
        ConstValue::Number(s) => ConstValueV::Number(s@),
    }
}

/// The model of one named constant.
pub open spec fn const_view(c: Const) -> ConstV {
    ConstV {
        name: c.name@,
        value: const_value_view(c.value),
        summary: opt_str_view(c.summary),
        description: opt_str_view(c.description),
    }
}

/// The model of a sequence of constants, element for element.
pub open spec fn consts_view(cs: Seq<Const>) -> Seq<ConstV>
    decreases cs.len(),
{
    if cs.len() == 0 {
        Seq::empty()
    } else {
        consts_view(cs.drop_last()).push(const_view(cs.last()))
    }
}

/// The model of one schema type.
pub open spec fn type_view(t: Type) -> TypeV
    decreases t,
{
    match t {
        Type::Ref(name) => TypeV::Ref(name@),
        Type::Struct { fields } => TypeV::Struct { fields: fields_view(fields@) },
        Type::EnumOfTypes { types } => TypeV::EnumOfTypes { types: fields_view(types@) },
        Type::EnumOfConsts { consts } => TypeV::EnumOfConsts { consts: consts_view(consts@) },
    }
}

/// The model of one schema field.
pub open spec fn field_view(f: Field) -> FieldV
    decreases f,
{
    FieldV {
        name: opt_str_view(f.name),
        summary: opt_str_view(f.summary),
        description: opt_str_view(f.description),
        value: type_view(f.value),
    }
}

/// The model of a sequence of schema fields, element for element.
pub open spec fn fields_view(fs: Seq<Field>) -> Seq<FieldV>
    decreases fs,
{
    if fs.len() == 0 {
        Seq::empty()
    } else {
        fields_view(fs.drop_last()).push(field_view(fs.last()))
    }
}

impl View for ConstValue {
    type V = ConstValueV;

    open spec fn view(&self) -> ConstValueV {
        const_value_view(*self)
    }
}

impl View for Const {
    type V = ConstV;

    open spec fn view(&self) -> ConstV {
        const_view(*self)
    }
}

impl View for Type {
    type V = TypeV;

    open spec fn view(&self) -> TypeV {
        type_view(*self)
    }
}

impl View for Field {
    type V = FieldV;

    open spec fn view(&self) -> FieldV {
        field_view(*self)
    }
}

} // verus!

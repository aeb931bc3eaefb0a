//! The input side of the derivation engine: the structured description of a
//! type definition, as an external declaration parser hands it over.

use vstd::prelude::*;

verus! {

/// Documentation attached to a declaration, a field or a variant: the short
/// first line (summary) and the remaining text (description), as the
/// external documentation extractor distills them from the attributes.
#[derive(Debug, Clone, PartialEq)]
pub struct Doc {
    pub summary: Option<String>,
    pub description: Option<String>,
}

/// A literal expression, as a declaration parser classifies it.
///
/// `Int` and `Float` carry the base-10 digit text exactly as written in the
/// source, sign and decimal point included; `Byte` carries the byte's
/// numeric value; `Str` carries the exact text value.
#[derive(Debug, Clone, PartialEq)]
pub enum Lit {
    Bool(bool),
    Str(String),
    Byte(u8),
    Int(String),
    Float(String),
    Char(char),
    ByteStr(Vec<u8>),
}

/// The discriminant expression attached to an enum variant: a single
/// literal, or any other expression shape (which derivation rejects).
#[derive(Debug, Clone, PartialEq)]
pub enum Discriminant {
    Literal(Lit),
    NonLiteral,
}

/// The declared type of a field: either a reference to a named primitive or
/// separately declared type, or a nested declaration to recurse into.
#[derive(Debug, PartialEq)]
pub enum TypeExpr {
    Ref(String),
    Nested(Box<Declaration>),
}

/// One named, documented field of a struct body or of a variant's payload.
/// Tuple fields carry no name.
#[derive(Debug, PartialEq)]
pub struct FieldDecl {
    pub name: Option<String>,
    pub doc: Doc,
    pub ty: TypeExpr,
}

/// One enum variant: a name, documentation, a possibly empty payload field
/// list, and an optional explicit discriminant.
#[derive(Debug, PartialEq)]
pub struct Variant {
    pub name: String,
    pub doc: Doc,
    pub fields: Vec<FieldDecl>,
    pub discriminant: Option<Discriminant>,
}

/// The body of a declaration: a struct's field list, an enum's variant
/// list, or some other declaration kind that the engine does not support.
#[derive(Debug, PartialEq)]
pub enum Body {
    Struct(Vec<FieldDecl>),
    Enum(Vec<Variant>),
    Opaque,
}

/// One parsed type declaration. `content` is the content-wrapping key when
/// the declaration carries the corresponding serialization annotation.
#[derive(Debug, PartialEq)]
pub struct Declaration {
    pub name: String,
    pub doc: Doc,
    pub content: Option<String>,
    pub body: Body,
}

} // verus!

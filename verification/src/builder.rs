//! The declaration classifier and the schema builder: the derivation of a
//! schema tree from one type declaration.
//!
//! Each executable function is proved against a spec-level derivation
//! (`spec_derive_schema` and its helpers), which pins the whole output tree
//! down for every admissible input.

use vstd::prelude::*;

use crate::decl::Body;
use crate::decl::Declaration;
use crate::decl::Discriminant;
use crate::decl::Doc;
use crate::decl::FieldDecl;
use crate::decl::Lit;
use crate::decl::TypeExpr;
use crate::decl::Variant;
use crate::digits::decimal_of_byte;
use crate::digits::spec_decimal_digits;
use crate::schema::const_value_view;
use crate::schema::const_view;
use crate::schema::consts_view;
use crate::schema::field_view;
use crate::schema::fields_view;
use crate::schema::opt_str_view;
use crate::schema::type_view;
use crate::schema::Const;
use crate::schema::ConstV;
use crate::schema::ConstValue;
use crate::schema::ConstValueV;
use crate::schema::Field;
use crate::schema::FieldV;
use crate::schema::Type;
use crate::schema::TypeV;

verus! {

/// Why a derivation failed. Every failure aborts the whole derivation: no
/// partial tree is ever handed out.
#[derive(Debug, Clone, Copy, PartialEq, Eq, Structural)]
pub enum DeriveError {
    /// The declaration is neither a struct nor an enum body.
    UnsupportedDeclarationKind,
    /// An enum discriminant is present but is not a supported literal.
    InvalidConstantLiteral,
}

/// The shape category of a declaration: a plain struct, a tagged union
/// with at least one data-carrying variant, or a plain enumeration of
/// constants.
#[derive(Debug, Clone, Copy, PartialEq, Eq, Structural)]
pub enum ShapeKind {
    Struct,
    EnumOfTypes,
    EnumOfConsts,
}

/// The constant value that one literal discriminant denotes, or the error
/// for an unsupported literal kind.
pub open spec fn spec_value_from_lit(lit: Lit) -> Result<ConstValueV, DeriveError> {
    match lit {
        Lit::Bool(b) => Ok(
            ConstValueV::Bool(
                if b {
                    "true"@
                } else {
                    "false"@
                },
            ),
        ),
        Lit::Str(s) => Ok(ConstValueV::Str(s@)),
        Lit::Byte(b) => Ok(ConstValueV::Number(spec_decimal_digits(b as nat))),
        Lit::Int(s) => Ok(ConstValueV::Number(s@)),
        Lit::Float(s) => Ok(ConstValueV::Number(s@)),
        Lit::Char(_) => Err(DeriveError::InvalidConstantLiteral),
        Lit::ByteStr(_) => Err(DeriveError::InvalidConstantLiteral),
    }
}

/// The constant that one variant contributes to an enumeration of
/// constants: its verbatim name, its documentation, and the value of its
/// discriminant (nothing when no discriminant is declared).
pub open spec fn spec_const_from(v: Variant) -> Result<ConstV, DeriveError> {
    match v.discriminant {
        None => Ok(
            ConstV {
                name: v.name@,
                value: ConstValueV::NoValue,
                summary: opt_str_view(v.doc.summary),
                description: opt_str_view(v.doc.description),
            },
        ),
        Some(Discriminant::Literal(lit)) => match spec_value_from_lit(lit) {
            Ok(cv) => Ok(
                ConstV {
                    name: v.name@,
                    value: cv,
                    summary: opt_str_view(v.doc.summary),
                    description: opt_str_view(v.doc.description),
                },
            ),
            Err(e) => Err(e),
        },
        Some(Discriminant::NonLiteral) => Err(DeriveError::InvalidConstantLiteral),
    }
}

/// The constants of all variants in declaration order; the first failing
/// variant aborts the derivation.
pub open spec fn spec_consts_from(vs: Seq<Variant>) -> Result<Seq<ConstV>, DeriveError>
    decreases vs.len(),
{
    if vs.len() == 0 {
        Ok(Seq::empty())
    } else {
        match spec_consts_from(vs.drop_last()) {
            Err(e) => Err(e),
            Ok(rest) => match spec_const_from(vs.last()) {
                Err(e) => Err(e),
                Ok(c) => Ok(rest.push(c)),
            },
        }
    }
}

/// Whether at least one variant carries a non-empty field list.
pub open spec fn spec_has_data_variant(vs: Seq<Variant>) -> bool {
    exists|i: int| 0 <= i < vs.len() && vs[i].fields@.len() > 0
}

/// The schema type of one declaration.
pub open spec fn spec_type_of_decl(d: Declaration) -> Result<TypeV, DeriveError>
    decreases d, 0int,
{
    match d.body {
        Body::Struct(fields) => match spec_fields_from(fields@) {
            Ok(fs) => Ok(TypeV::Struct { fields: fs }),
            Err(e) => Err(e),
        },
        Body::Enum(variants) => spec_enum_type(variants@, d.content),
        Body::Opaque => Err(DeriveError::UnsupportedDeclarationKind),
    }
}

/// The schema type of an enum body: an enumeration of types when any
/// variant carries data, else an enumeration of constants.
pub open spec fn spec_enum_type(vs: Seq<Variant>, content: Option<String>) -> Result<
    TypeV,
    DeriveError,
>
    decreases vs, 2int,
{
    if spec_has_data_variant(vs) {
        spec_enum_of_types(vs, content)
    } else {
        spec_enum_of_consts(vs)
    }
}

/// The schema type of an enum body rendered as an enumeration of types.
pub open spec fn spec_enum_of_types(vs: Seq<Variant>, content: Option<String>) -> Result<
    TypeV,
    DeriveError,
>
    decreases vs, 1int,
{
    match spec_types_from_variants(vs, content) {
        Ok(ts) => Ok(TypeV::EnumOfTypes { types: ts }),
        Err(e) => Err(e),
    }
}

/// The schema type of an enum body rendered as an enumeration of
/// constants.
pub open spec fn spec_enum_of_consts(vs: Seq<Variant>) -> Result<TypeV, DeriveError> {
    match spec_consts_from(vs) {
        Ok(cs) => Ok(TypeV::EnumOfConsts { consts: cs }),
        Err(e) => Err(e),
    }
}

/// The variant fields of an enumeration of types, in declaration order.
pub open spec fn spec_types_from_variants(vs: Seq<Variant>, content: Option<String>) -> Result<
    Seq<FieldV>,
    DeriveError,
>
    decreases vs, 0int,
{
    if vs.len() == 0 {
        Ok(Seq::empty())
    } else {
        match spec_types_from_variants(vs.drop_last(), content) {
            Err(e) => Err(e),
            Ok(rest) => match spec_variant_field(vs.last(), content) {
                Err(e) => Err(e),
                Ok(f) => Ok(rest.push(f)),
            },
        }
    }
}

/// The field that one variant contributes to an enumeration of types: the
/// variant's own struct of payload fields, nested one further level under
/// an unnamed single field when a content-wrapping key is present.
pub open spec fn spec_variant_field(v: Variant, content: Option<String>) -> Result<
    FieldV,
    DeriveError,
>
    decreases v, 0int,
{
    match spec_fields_from(v.fields@) {
        Err(e) => Err(e),
        Ok(fs) => Ok(
            FieldV {
                name: Some(v.name@),
                summary: opt_str_view(v.doc.summary),
                description: opt_str_view(v.doc.description),
                value: spec_wrap_content(TypeV::Struct { fields: fs }, content),
            },
        ),
    }
}

/// One extra level of single-field nesting when a content-wrapping key is
/// present; the type unchanged when it is absent.
pub open spec fn spec_wrap_content(t: TypeV, content: Option<String>) -> TypeV {
    match content {
        Some(_) => TypeV::Struct {
            fields: Seq::empty().push(
                FieldV { name: None, summary: None, description: None, value: t },
            ),
        },
        None => t,
    }
}

/// The schema fields of a field-declaration list, in declaration order.
pub open spec fn spec_fields_from(fs: Seq<FieldDecl>) -> Result<Seq<FieldV>, DeriveError>
    decreases fs, 0int,
{
    if fs.len() == 0 {
        Ok(Seq::empty())
    } else {
        match spec_fields_from(fs.drop_last()) {
            Err(e) => Err(e),
            Ok(rest) => match spec_field_from_decl(fs.last()) {
                Err(e) => Err(e),
                Ok(f) => Ok(rest.push(f)),
            },
        }
    }
}

/// The schema field of one field declaration.
pub open spec fn spec_field_from_decl(fd: FieldDecl) -> Result<FieldV, DeriveError>
    decreases fd, 0int,
{
    match spec_type_from_expr(fd.ty) {
        Err(e) => Err(e),
        Ok(t) => Ok(
            FieldV {
                name: opt_str_view(fd.name),
                summary: opt_str_view(fd.doc.summary),
                description: opt_str_view(fd.doc.description),
                value: t,
            },
        ),
    }
}

/// The schema type of a field's declared type.
pub open spec fn spec_type_from_expr(t: TypeExpr) -> Result<TypeV, DeriveError>
    decreases t, 1int,
{
    match t {
        TypeExpr::Ref(name) => Ok(TypeV::Ref(name@)),
        TypeExpr::Nested(b) => spec_type_of_decl(*b),
    }
}

/// The shape category of one declaration.
pub open spec fn spec_classify(d: Declaration) -> Result<ShapeKind, DeriveError> {
    match d.body {
        Body::Struct(_) => Ok(ShapeKind::Struct),
        Body::Enum(variants) => if spec_has_data_variant(variants@) {
            Ok(ShapeKind::EnumOfTypes)
        } else {
            Ok(ShapeKind::EnumOfConsts)
        },
        Body::Opaque => Err(DeriveError::UnsupportedDeclarationKind),
    }
}

/// The root schema field of one declaration: its type, named and
/// documented after the declaration itself.
pub open spec fn spec_derive_schema(d: Declaration) -> Result<FieldV, DeriveError> {
    match spec_type_of_decl(d) {
        Err(e) => Err(e),
        Ok(t) => Ok(
            FieldV {
                name: Some(d.name@),
                summary: opt_str_view(d.doc.summary),
                description: opt_str_view(d.doc.description),
                value: t,
            },
        ),
    }
}

/// The view of a constant-value result.
pub open spec fn const_value_res_view(r: Result<ConstValue, DeriveError>) -> Result<
    ConstValueV,
    DeriveError,
> {
    match r {
        Ok(v) => Ok(const_value_view(v)),
        Err(e) => Err(e),
    }
}

/// The view of a constant result.
pub open spec fn const_res_view(r: Result<Const, DeriveError>) -> Result<ConstV, DeriveError> {
    match r {
        Ok(c) => Ok(const_view(c)),
        Err(e) => Err(e),
    }
}

/// The view of a type result.
pub open spec fn type_res_view(r: Result<Type, DeriveError>) -> Result<TypeV, DeriveError> {
    match r {
        Ok(t) => Ok(type_view(t)),
        Err(e) => Err(e),
    }
}

/// The view of a field result.
pub open spec fn field_res_view(r: Result<Field, DeriveError>) -> Result<FieldV, DeriveError> {
    match r {
        Ok(f) => Ok(field_view(f)),
        Err(e) => Err(e),
    }
}

/// `spec_fields_from` succeeds exactly when every field declaration does,
/// and then maps each position to the field built from the declaration
/// standing there.
pub proof fn lemma_fields_from_ok(fs: Seq<FieldDecl>)
    ensures
        spec_fields_from(fs) is Ok <==> (forall|j: int|
            0 <= j < fs.len() ==> spec_field_from_decl(#[trigger] fs[j]) is Ok),
        spec_fields_from(fs) matches Ok(out) ==> out.len() == fs.len() && (forall|j: int|
            0 <= j < fs.len() ==> Ok::<FieldV, DeriveError>(#[trigger] out[j])
                == spec_field_from_decl(fs[j])),
    decreases fs.len(),
{
    if fs.len() > 0 {
        lemma_fields_from_ok(fs.drop_last());
        assert(forall|j: int|
            0 <= j < fs.len() - 1 ==> fs.drop_last()[j] == #[trigger] fs[j]);
        assert(fs.last() == fs[fs.len() - 1]);
    }
}

/// When the first failing field declaration fails with some error, the
/// whole field list fails with that error.
pub proof fn lemma_fields_from_err(fs: Seq<FieldDecl>, i: int)
    requires
        0 <= i < fs.len(),
        spec_field_from_decl(fs[i]) is Err,
        forall|j: int| 0 <= j < i ==> spec_field_from_decl(#[trigger] fs[j]) is Ok,
    ensures
        spec_fields_from(fs) == Err::<Seq<FieldV>, DeriveError>(
            spec_field_from_decl(fs[i])->Err_0,
        ),
    decreases fs.len(),
{
    assert(forall|j: int|
        0 <= j < fs.len() - 1 ==> fs.drop_last()[j] == #[trigger] fs[j]);
    if i == fs.len() - 1 {
        lemma_fields_from_ok(fs.drop_last());
        assert(fs.last() == fs[i]);
    } else {
        lemma_fields_from_err(fs.drop_last(), i);
    }
}

/// `spec_types_from_variants` succeeds exactly when every variant does,
/// and then maps each position to the field built from the variant
/// standing there.
pub proof fn lemma_types_from_variants_ok(vs: Seq<Variant>, content: Option<String>)
    ensures
        spec_types_from_variants(vs, content) is Ok <==> (forall|j: int|
            0 <= j < vs.len() ==> spec_variant_field(#[trigger] vs[j], content) is Ok),
        spec_types_from_variants(vs, content) matches Ok(out) ==> out.len() == vs.len() && (
        forall|j: int|
            0 <= j < vs.len() ==> Ok::<FieldV, DeriveError>(#[trigger] out[j])
                == spec_variant_field(vs[j], content)),
    decreases vs.len(),
{
    if vs.len() > 0 {
        lemma_types_from_variants_ok(vs.drop_last(), content);
        assert(forall|j: int|
            0 <= j < vs.len() - 1 ==> vs.drop_last()[j] == #[trigger] vs[j]);
        assert(vs.last() == vs[vs.len() - 1]);
    }
}

/// When the first failing variant fails with some error, the whole
/// variant list fails with that error.
pub proof fn lemma_types_from_variants_err(vs: Seq<Variant>, content: Option<String>, i: int)
    requires
        0 <= i < vs.len(),
        spec_variant_field(vs[i], content) is Err,
        forall|j: int| 0 <= j < i ==> spec_variant_field(#[trigger] vs[j], content) is Ok,
    ensures
        spec_types_from_variants(vs, content) == Err::<Seq<FieldV>, DeriveError>(
            spec_variant_field(vs[i], content)->Err_0,
        ),
    decreases vs.len(),
{
    assert(forall|j: int|
        0 <= j < vs.len() - 1 ==> vs.drop_last()[j] == #[trigger] vs[j]);
    if i == vs.len() - 1 {
        lemma_types_from_variants_ok(vs.drop_last(), content);
        assert(vs.last() == vs[i]);
    } else {
        lemma_types_from_variants_err(vs.drop_last(), content, i);
    }
}

/// `spec_consts_from` succeeds exactly when every variant does, and then
/// maps each position to the constant built from the variant standing
/// there.
pub proof fn lemma_consts_from_ok(vs: Seq<Variant>)
    ensures
        spec_consts_from(vs) is Ok <==> (forall|j: int|
            0 <= j < vs.len() ==> spec_const_from(#[trigger] vs[j]) is Ok),
        spec_consts_from(vs) matches Ok(out) ==> out.len() == vs.len() && (forall|j: int|
            0 <= j < vs.len() ==> Ok::<ConstV, DeriveError>(#[trigger] out[j])
                == spec_const_from(vs[j])),
    decreases vs.len(),
{
    if vs.len() > 0 {
        lemma_consts_from_ok(vs.drop_last());
        assert(forall|j: int|
            0 <= j < vs.len() - 1 ==> vs.drop_last()[j] == #[trigger] vs[j]);
        assert(vs.last() == vs[vs.len() - 1]);
    }
}

/// When the first failing variant fails with some error, the whole
/// constant list fails with that error.
pub proof fn lemma_consts_from_err(vs: Seq<Variant>, i: int)
    requires
        0 <= i < vs.len(),
        spec_const_from(vs[i]) is Err,
        forall|j: int| 0 <= j < i ==> spec_const_from(#[trigger] vs[j]) is Ok,
    ensures
        spec_consts_from(vs) == Err::<Seq<ConstV>, DeriveError>(spec_const_from(vs[i])->Err_0),
    decreases vs.len(),
{
    assert(forall|j: int|
        0 <= j < vs.len() - 1 ==> vs.drop_last()[j] == #[trigger] vs[j]);
    if i == vs.len() - 1 {
        lemma_consts_from_ok(vs.drop_last());
        assert(vs.last() == vs[i]);
    } else {
        lemma_consts_from_err(vs.drop_last(), i);
    }
}

/// Clones an optional string.
fn clone_opt_str(o: &Option<String>) -> (r: Option<String>)
    ensures
        opt_str_view(r) == opt_str_view(*o),
{
    match o {
        Some(s) => Some(s.clone()),
        None => None,
    }
}

/// Turns one literal discriminant into a constant value, or rejects an
/// unsupported literal kind. Booleans are normalized to lowercase textual
/// form; numeric literals keep their exact base-10 digit text.
pub fn value_from_lit(lit: &Lit) -> (r: Result<ConstValue, DeriveError>)
    ensures
        const_value_res_view(r) == spec_value_from_lit(*lit),
{
    match lit {
        Lit::Bool(b) => {
            if *b {
                Ok(ConstValue::Bool("true".to_owned()))
            } else {
                Ok(ConstValue::Bool("false".to_owned()))
            }
        },
        Lit::Str(s) => Ok(ConstValue::Str(s.clone())),
        Lit::Byte(b) => Ok(ConstValue::Number(decimal_of_byte(*b))),
        Lit::Int(s) => Ok(ConstValue::Number(s.clone())),
        Lit::Float(s) => Ok(ConstValue::Number(s.clone())),
        Lit::Char(_) => Err(DeriveError::InvalidConstantLiteral),
        Lit::ByteStr(_) => Err(DeriveError::InvalidConstantLiteral),
    }
}

/// Builds the constant of one variant: its verbatim name, documentation,
/// and discriminant value; a variant without a discriminant yields no
/// value.
pub fn const_from(v: &Variant) -> (r: Result<Const, DeriveError>)
    ensures
        const_res_view(r) == spec_const_from(*v),
{
    let value = match &v.discriminant {
        None => ConstValue::NoValue,
        Some(Discriminant::Literal(lit)) => match value_from_lit(lit) {
            Ok(cv) => cv,
            Err(e) => {
                return Err(e);
            },
        },
        Some(Discriminant::NonLiteral) => {
            return Err(DeriveError::InvalidConstantLiteral);
        },
    };
    Ok(
        Const {
            name: v.name.clone(),
            value,
            summary: clone_opt_str(&v.doc.summary),
            description: clone_opt_str(&v.doc.description),
        },
    )
}

/// Builds one schema field from a name, documentation and an already
/// resolved type.
pub fn field_from(name: &Option<String>, doc: &Doc, value: Type) -> (r: Field)
    ensures
        r@ == (FieldV {
            name: opt_str_view(*name),
            summary: opt_str_view(doc.summary),
            description: opt_str_view(doc.description),
            value: value@,
        }),
{
    Field {
        name: clone_opt_str(name),
        summary: clone_opt_str(&doc.summary),
        description: clone_opt_str(&doc.description),
        value,
    }
}

/// Whether at least one variant carries a non-empty field list: the test
/// that tells an enumeration of types from an enumeration of constants.
pub fn has_data_variant(variants: &Vec<Variant>) -> (b: bool)
    ensures
        b == spec_has_data_variant(variants@),
{
    let n = variants.len();
    let mut i: usize = 0;
    while i < n
        invariant
            n == variants@.len(),
            i <= n,
            forall|j: int| 0 <= j < i ==> #[trigger] variants@[j].fields@.len() == 0,
        decreases n - i,
    {
        if variants[i].fields.len() > 0 {
            return true;
        }
        i = i + 1;
    }
    false
}

/// Decides which of the three shape categories a declaration falls under;
/// any other declaration kind is rejected.
pub fn classify(d: &Declaration) -> (r: Result<ShapeKind, DeriveError>)
    ensures
        r == spec_classify(*d),
{
    match &d.body {
        Body::Struct(_) => Ok(ShapeKind::Struct),
        Body::Enum(variants) => {
            if has_data_variant(variants) {
                Ok(ShapeKind::EnumOfTypes)
            } else {
                Ok(ShapeKind::EnumOfConsts)
            }
        },
        Body::Opaque => Err(DeriveError::UnsupportedDeclarationKind),
    }
}

/// Builds the constants of an enum body, one per variant in declaration
/// order; the first unsupported discriminant aborts the derivation.
pub fn enum_of_consts(variants: &Vec<Variant>) -> (r: Result<Type, DeriveError>)
    ensures
        type_res_view(r) == spec_enum_of_consts(variants@),
{
    let mut consts: Vec<Const> = Vec::new();
    let n = variants.len();
    let mut i: usize = 0;
    while i < n
        invariant
            n == variants@.len(),
            i <= n,
            consts@.len() == i,
            spec_consts_from(variants@.subrange(0, i as int)) == Ok::<Seq<ConstV>, DeriveError>(
                consts_view(consts@),
            ),
            forall|j: int| 0 <= j < i ==> spec_const_from(#[trigger] variants@[j]) is Ok,
        decreases n - i,
    {
        let ghost prefix = variants@.subrange(0, i as int);
        let ghost consts_before = consts@;
        match const_from(&variants[i]) {
            Ok(c) => {
                consts.push(c);
                proof {
                    let extended = variants@.subrange(0, i + 1);
                    assert(extended.drop_last() =~= prefix);
                    assert(extended.last() == variants@[i as int]);
                    assert(consts@.drop_last() =~= consts_before);
                    assert(consts@.last() == c);
                }
            },
            Err(e) => {
                proof {
                    lemma_consts_from_err(variants@, i as int);
                }
                return Err(e);
            },
        }
        i = i + 1;
    }
    proof {
        assert(variants@.subrange(0, n as int) =~= variants@);
    }
    Ok(Type::EnumOfConsts { consts })
}

/// Builds the schema fields of a field-declaration list, in declaration
/// order; the first failing declaration aborts the derivation.
pub fn fields_from(fields: &Vec<FieldDecl>) -> (r: Result<Vec<Field>, DeriveError>)
    ensures
        ({
            match r {
                Ok(fs) => spec_fields_from(fields@) == Ok::<Seq<FieldV>, DeriveError>(
                    fields_view(fs@),
                ),
                Err(e) => spec_fields_from(fields@) == Err::<Seq<FieldV>, DeriveError>(e),
            }
        }),
    decreases fields@, 0int,
{
    let mut out: Vec<Field> = Vec::new();
    let n = fields.len();
    let mut i: usize = 0;
    while i < n
        invariant
            n == fields@.len(),
            i <= n,
            out@.len() == i,
            spec_fields_from(fields@.subrange(0, i as int)) == Ok::<Seq<FieldV>, DeriveError>(
                fields_view(out@),
            ),
            forall|j: int| 0 <= j < i ==> spec_field_from_decl(#[trigger] fields@[j]) is Ok,
        decreases n - i,
    {
        let ghost prefix = fields@.subrange(0, i as int);
        let ghost out_before = out@;
        match field_from_decl(&fields[i]) {
            Ok(f) => {
                out.push(f);
                proof {
                    let extended = fields@.subrange(0, i + 1);
                    assert(extended.drop_last() =~= prefix);
                    assert(extended.last() == fields@[i as int]);
                    assert(out@.drop_last() =~= out_before);
                    assert(out@.last() == f);
                }
            },
            Err(e) => {
                proof {
                    lemma_fields_from_err(fields@, i as int);
                }
                return Err(e);
            },
        }
        i = i + 1;
    }
    proof {
        assert(fields@.subrange(0, n as int) =~= fields@);
    }
    Ok(out)
}

/// Builds the schema field of one field declaration.
fn field_from_decl(fd: &FieldDecl) -> (r: Result<Field, DeriveError>)
    ensures
        field_res_view(r) == spec_field_from_decl(*fd),
    decreases *fd, 0int,
{
    match type_from_expr(&fd.ty) {
        Err(e) => Err(e),
        Ok(t) => Ok(field_from(&fd.name, &fd.doc, t)),
    }
}

/// Resolves the declared type of a field: a named reference stands as it
/// is; a nested declaration is derived recursively.
pub fn type_from_expr(t: &TypeExpr) -> (r: Result<Type, DeriveError>)
    ensures
        type_res_view(r) == spec_type_from_expr(*t),
    decreases *t, 1int,
{
    match t {
        TypeExpr::Ref(name) => Ok(Type::Ref(name.clone())),
        TypeExpr::Nested(b) => type_of_decl(&*b),
    }
}

/// Builds the field that one variant contributes to an enumeration of
/// types, applying the content-wrapping convention when a key is present.
fn variant_field_from(v: &Variant, content: &Option<String>) -> (r: Result<Field, DeriveError>)
    ensures
        field_res_view(r) == spec_variant_field(*v, *content),
    decreases *v, 0int,
{
    match fields_from(&v.fields) {
        Err(e) => Err(e),
        Ok(fs) => {
            let ghost inner_view = TypeV::Struct { fields: fields_view(fs@) };
            let mut value = Type::Struct { fields: fs };
            if content.is_some() {
                let wrapper = Field { name: None, summary: None, description: None, value };
                value = Type::Struct { fields: vec![wrapper] };
                proof {
                    reveal_with_fuel(fields_view, 2);
                    let ws = value->Struct_fields@;
                    assert(ws.drop_last() =~= Seq::<Field>::empty());
                    assert(ws.last() == wrapper);
                    assert(fields_view(ws) == Seq::<FieldV>::empty().push(field_view(wrapper)));
                    assert(field_view(wrapper) == (FieldV {
                        name: None,
                        summary: None,
                        description: None,
                        value: inner_view,
                    }));
                    assert(type_view(value) == spec_wrap_content(inner_view, *content));
                }
            }
            let name = Some(v.name.clone());
            Ok(field_from(&name, &v.doc, value))
        },
    }
}

/// Builds the variant fields of an enumeration of types, in declaration
/// order; the first failing variant aborts the derivation.
pub fn enum_of_types(variants: &Vec<Variant>, content: &Option<String>) -> (r: Result<
    Type,
    DeriveError,
>)
    ensures
        type_res_view(r) == spec_enum_of_types(variants@, *content),
    decreases variants@, 1int,
{
    let mut types: Vec<Field> = Vec::new();
    let n = variants.len();
    let mut i: usize = 0;
    while i < n
        invariant
            n == variants@.len(),
            i <= n,
            types@.len() == i,
            spec_types_from_variants(variants@.subrange(0, i as int), *content) == Ok::<
                Seq<FieldV>,
                DeriveError,
            >(fields_view(types@)),
            forall|j: int|
                0 <= j < i ==> spec_variant_field(#[trigger] variants@[j], *content) is Ok,
        decreases n - i,
    {
        let ghost prefix = variants@.subrange(0, i as int);
        let ghost types_before = types@;
        match variant_field_from(&variants[i], content) {
            Ok(f) => {
                types.push(f);
                proof {
                    let extended = variants@.subrange(0, i + 1);
                    assert(extended.drop_last() =~= prefix);
                    assert(extended.last() == variants@[i as int]);
                    assert(types@.drop_last() =~= types_before);
                    assert(types@.last() == f);
                }
            },
            Err(e) => {
                proof {
                    lemma_types_from_variants_err(variants@, *content, i as int);
                }
                return Err(e);
            },
        }
        i = i + 1;
    }
    proof {
        assert(variants@.subrange(0, n as int) =~= variants@);
    }
    Ok(Type::EnumOfTypes { types })
}

/// Builds the schema type of an enum body: an enumeration of types when
/// any variant carries data, else an enumeration of constants.
pub fn enum_type(variants: &Vec<Variant>, content: &Option<String>) -> (r: Result<
    Type,
    DeriveError,
>)
    ensures
        type_res_view(r) == spec_enum_type(variants@, *content),
    decreases variants@, 2int,
{
    if has_data_variant(variants) {
        enum_of_types(variants, content)
    } else {
        enum_of_consts(variants)
    }
}

/// Builds the schema type of one declaration, recursing into nested
/// declarations as needed.
pub fn type_of_decl(d: &Declaration) -> (r: Result<Type, DeriveError>)
    ensures
        type_res_view(r) == spec_type_of_decl(*d),
    decreases *d, 0int,
{
    match &d.body {
        Body::Struct(fields) => match fields_from(fields) {
            Ok(fs) => Ok(Type::Struct { fields: fs }),
            Err(e) => Err(e),
        },
        Body::Enum(variants) => enum_type(variants, &d.content),
        Body::Opaque => Err(DeriveError::UnsupportedDeclarationKind),
    }
}

/// Derives the whole schema of one declaration: its classified, recursively
/// assembled type, wrapped in a root field named and documented after the
/// declaration. This is the engine's entry point; it returns exactly one
/// root field, or the first fatal error, and never a partial tree.
pub fn derive_schema(d: &Declaration) -> (r: Result<Field, DeriveError>)
    ensures
        field_res_view(r) == spec_derive_schema(*d),
{
    match type_of_decl(d) {
        Err(e) => Err(e),
        Ok(t) => {
            let name = Some(d.name.clone());
            Ok(field_from(&name, &d.doc, t))
        },
    }
}

} // verus!

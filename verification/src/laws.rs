//! General properties of the derivation, stated and proved once for all
//! inputs.

use vstd::prelude::*;

use crate::builder::lemma_consts_from_err;
use crate::builder::lemma_consts_from_ok;
use crate::builder::lemma_fields_from_ok;
use crate::builder::lemma_types_from_variants_ok;
use crate::builder::spec_classify;
use crate::builder::spec_const_from;
use crate::builder::spec_derive_schema;
use crate::builder::spec_field_from_decl;
use crate::builder::spec_fields_from;
use crate::builder::spec_has_data_variant;
use crate::builder::spec_type_of_decl;
use crate::builder::spec_types_from_variants;
use crate::builder::spec_value_from_lit;
use crate::builder::spec_variant_field;
use crate::builder::DeriveError;
use crate::builder::ShapeKind;
use crate::decl::Body;
use crate::decl::Declaration;
use crate::decl::FieldDecl;
use crate::decl::Lit;
use crate::decl::Variant;
use crate::digits::spec_decimal_digits;
use crate::schema::opt_str_view;
use crate::schema::ConstValueV;
use crate::schema::FieldV;
use crate::schema::TypeV;

verus! {

/// Classification totality: every enum declaration is classified, and it
/// is an enumeration of types exactly when at least one variant carries a
/// non-empty field list — otherwise it is an enumeration of constants.
/// The two renderings are mutually exclusive, whatever the variants hold.
pub proof fn lemma_classification_totality(variants: Vec<Variant>, d: Declaration)
    requires
        d.body == Body::Enum(variants),
    ensures
        spec_classify(d) is Ok,
        spec_classify(d) == Ok::<ShapeKind, DeriveError>(ShapeKind::EnumOfTypes) <==> (
        exists|i: int| 0 <= i < variants@.len() && #[trigger] variants@[i].fields@.len() > 0),
        spec_classify(d) == Ok::<ShapeKind, DeriveError>(ShapeKind::EnumOfConsts) <==> !(
        exists|i: int| 0 <= i < variants@.len() && #[trigger] variants@[i].fields@.len() > 0),
        spec_type_of_decl(d) matches Ok(t) ==> (t is EnumOfTypes <==> spec_has_data_variant(
            variants@,
        )),
        spec_type_of_decl(d) matches Ok(t) ==> (t is EnumOfConsts <==> !spec_has_data_variant(
            variants@,
        )),
{
}

/// Order preservation for struct bodies: the output field sequence has one
/// entry per declared field, position for position, each carrying the name
/// of the declaration standing there.
pub proof fn lemma_order_preservation_struct(fields: Vec<FieldDecl>, d: Declaration)
    requires
        d.body == Body::Struct(fields),
    ensures
        spec_type_of_decl(d) matches Ok(t) ==> (t matches TypeV::Struct { fields: out }
            && out.len() == fields@.len() && (forall|i: int|
            0 <= i < fields@.len() ==> (#[trigger] out[i]).name == opt_str_view(
                fields@[i].name,
            ))),
{
    if spec_type_of_decl(d) is Ok {
        lemma_fields_from_ok(fields@);
        let out = spec_fields_from(fields@)->Ok_0;
        assert forall|i: int| 0 <= i < fields@.len() implies (#[trigger] out[i]).name
            == opt_str_view(fields@[i].name) by {
            assert(Ok::<FieldV, DeriveError>(out[i]) == spec_field_from_decl(fields@[i]));
        }
    }
}

/// Order preservation for an enum rendered as an enumeration of types:
/// one output field per variant, position for position, named after the
/// variant standing there.
pub proof fn lemma_order_preservation_enum_of_types(variants: Vec<Variant>, d: Declaration)
    requires
        d.body == Body::Enum(variants),
        spec_has_data_variant(variants@),
    ensures
        spec_type_of_decl(d) matches Ok(t) ==> (t matches TypeV::EnumOfTypes { types: out }
            && out.len() == variants@.len() && (forall|i: int|
            0 <= i < variants@.len() ==> (#[trigger] out[i]).name == Some(
                variants@[i].name@,
            ))),
{
    if spec_type_of_decl(d) is Ok {
        lemma_types_from_variants_ok(variants@, d.content);
        let out = spec_types_from_variants(variants@, d.content)->Ok_0;
        assert forall|i: int| 0 <= i < variants@.len() implies (#[trigger] out[i]).name == Some(
            variants@[i].name@,
        ) by {
            assert(Ok::<FieldV, DeriveError>(out[i]) == spec_variant_field(
                variants@[i],
                d.content,
            ));
        }
    }
}

/// Order preservation for an enum rendered as an enumeration of
/// constants: one output constant per variant, position for position,
/// named after the variant standing there.
pub proof fn lemma_order_preservation_enum_of_consts(variants: Vec<Variant>, d: Declaration)
    requires
        d.body == Body::Enum(variants),
        !spec_has_data_variant(variants@),
    ensures
        spec_type_of_decl(d) matches Ok(t) ==> (t matches TypeV::EnumOfConsts { consts: out }
            && out.len() == variants@.len() && (forall|i: int|
            0 <= i < variants@.len() ==> (#[trigger] out[i]).name == variants@[i].name@)),
{
    if spec_type_of_decl(d) is Ok {
        lemma_consts_from_ok(variants@);
        let out = crate::builder::spec_consts_from(variants@)->Ok_0;
        assert forall|i: int| 0 <= i < variants@.len() implies (#[trigger] out[i]).name
            == variants@[i].name@ by {
            assert(Ok::<crate::schema::ConstV, DeriveError>(out[i]) == spec_const_from(
                variants@[i],
            ));
        }
    }
}

/// Content wrapping is an all-or-nothing toggle: with a content key the
/// field built for any variant succeeds exactly as often as without one,
/// and its value carries exactly one extra level of single-field nesting —
/// an unnamed, undocumented field around the variant's own struct; without
/// a key the variant's struct stands unchanged.
pub proof fn lemma_content_wrapping(v: Variant, key: String)
    ensures
        spec_variant_field(v, Some(key)) is Ok <==> spec_variant_field(v, None) is Ok,
        spec_variant_field(v, Some(key)) matches Ok(w) ==> (spec_variant_field(v, None)
            matches Ok(p) && w.value == (TypeV::Struct {
            fields: Seq::empty().push(
                FieldV { name: None, summary: None, description: None, value: p.value },
            ),
        })),
        spec_variant_field(v, None) matches Ok(p) ==> (spec_fields_from(v.fields@) matches Ok(fs)
            && p.value == (TypeV::Struct { fields: fs })),
{
}

/// Content wrapping is uniform over a whole variant list: with a content
/// key the list succeeds exactly as often as without one, and then every
/// variant — there is no partial application — carries exactly one extra
/// level of single-field nesting around the value it has without the key.
pub proof fn lemma_content_wrapping_uniform(vs: Seq<Variant>, key: String)
    ensures
        spec_types_from_variants(vs, Some(key)) is Ok <==> spec_types_from_variants(
            vs,
            None,
        ) is Ok,
        spec_types_from_variants(vs, Some(key)) matches Ok(w) ==> (spec_types_from_variants(
            vs,
            None,
        ) matches Ok(p) && w.len() == p.len() && (forall|i: int|
            0 <= i < w.len() ==> (#[trigger] w[i]).value == (TypeV::Struct {
                fields: Seq::empty().push(
                    FieldV { name: None, summary: None, description: None, value: p[i].value },
                ),
            }))),
{
    lemma_types_from_variants_ok(vs, Some(key));
    lemma_types_from_variants_ok(vs, None);
    assert forall|j: int|
        0 <= j < vs.len() implies (spec_variant_field(#[trigger] vs[j], Some(key)) is Ok
        <==> spec_variant_field(vs[j], None) is Ok) by {
        lemma_content_wrapping(vs[j], key);
    }
    if spec_types_from_variants(vs, Some(key)) is Ok {
        let w = spec_types_from_variants(vs, Some(key))->Ok_0;
        let p = spec_types_from_variants(vs, None)->Ok_0;
        assert forall|i: int| 0 <= i < w.len() implies (#[trigger] w[i]).value == (TypeV::Struct {
            fields: Seq::empty().push(
                FieldV { name: None, summary: None, description: None, value: p[i].value },
            ),
        }) by {
            lemma_content_wrapping(vs[i], key);
            assert(Ok::<FieldV, DeriveError>(w[i]) == spec_variant_field(vs[i], Some(key)));
            assert(Ok::<FieldV, DeriveError>(p[i]) == spec_variant_field(vs[i], None));
        }
    }
}

/// Every failure of the constant builder is an invalid-constant failure.
pub proof fn lemma_const_error_kind(v: Variant)
    ensures
        spec_const_from(v) matches Err(e) ==> e == DeriveError::InvalidConstantLiteral,
{
}

/// Returns the first position at or before a failing one whose variant
/// fails, with every variant before it succeeding.
proof fn lemma_first_const_err(vs: Seq<Variant>, i: int) -> (j: int)
    requires
        0 <= i < vs.len(),
        spec_const_from(vs[i]) is Err,
    ensures
        0 <= j <= i,
        spec_const_from(vs[j]) is Err,
        forall|k: int| 0 <= k < j ==> spec_const_from(#[trigger] vs[k]) is Ok,
    decreases i,
{
    if exists|k: int| 0 <= k < i && spec_const_from(#[trigger] vs[k]) is Err {
        let k = choose|k: int| 0 <= k < i && spec_const_from(#[trigger] vs[k]) is Err;
        lemma_first_const_err(vs, k)
    } else {
        i
    }
}

/// Fatal on invalid: when any variant of a fieldless enum carries an
/// unsupported discriminant, the whole derivation fails with the
/// invalid-constant error — the result is an error value, never a partial
/// tree.
pub proof fn lemma_fatal_on_invalid(variants: Vec<Variant>, d: Declaration, i: int)
    requires
        d.body == Body::Enum(variants),
        !spec_has_data_variant(variants@),
        0 <= i < variants@.len(),
        spec_const_from(variants@[i]) is Err,
    ensures
        spec_type_of_decl(d) == Err::<TypeV, DeriveError>(DeriveError::InvalidConstantLiteral),
        spec_derive_schema(d) == Err::<FieldV, DeriveError>(DeriveError::InvalidConstantLiteral),
{
    let j = lemma_first_const_err(variants@, i);
    lemma_consts_from_err(variants@, j);
    lemma_const_error_kind(variants@[j]);
}

/// Literal fidelity: integer and floating-point literals keep their exact
/// base-10 digit text, text literals keep their exact text value, a byte
/// literal becomes the base-10 digit text of its numeric value, and
/// boolean literals are rendered in canonical lowercase textual form.
pub proof fn lemma_literal_fidelity(digits: String, text: String, byte: u8, b: bool)
    ensures
        spec_value_from_lit(Lit::Int(digits)) == Ok::<ConstValueV, DeriveError>(
            ConstValueV::Number(digits@),
        ),
        spec_value_from_lit(Lit::Float(digits)) == Ok::<ConstValueV, DeriveError>(
            ConstValueV::Number(digits@),
        ),
        spec_value_from_lit(Lit::Str(text)) == Ok::<ConstValueV, DeriveError>(
            ConstValueV::Str(text@),
        ),
        spec_value_from_lit(Lit::Byte(byte)) == Ok::<ConstValueV, DeriveError>(
            ConstValueV::Number(spec_decimal_digits(byte as nat)),
        ),
        spec_value_from_lit(Lit::Bool(b)) == Ok::<ConstValueV, DeriveError>(
            ConstValueV::Bool(
                if b {
                    "true"@
                } else {
                    "false"@
                },
            ),
        ),
{
}

} // verus!

use api_derive::builder::classify;
use api_derive::builder::derive_schema;
use api_derive::builder::value_from_lit;
use api_derive::builder::DeriveError;
use api_derive::builder::ShapeKind;
use api_derive::decl::Body;
use api_derive::decl::Declaration;
use api_derive::decl::Discriminant;
use api_derive::decl::Doc;
use api_derive::decl::FieldDecl;
use api_derive::decl::Lit;
use api_derive::decl::TypeExpr;
use api_derive::decl::Variant;
use api_derive::schema::Const;
use api_derive::schema::ConstValue;
use api_derive::schema::Field;
use api_derive::schema::Type;

fn no_doc() -> Doc {
    Doc { summary: None, description: None }
}

fn summary(text: &str) -> Doc {
    Doc { summary: Some(text.to_string()), description: None }
}

fn string_field(name: &str, doc: Doc) -> FieldDecl {
    FieldDecl { name: Some(name.to_string()), doc, ty: TypeExpr::Ref("string".to_string()) }
}

fn plain_variant(name: &str, discriminant: Option<Discriminant>) -> Variant {
    Variant { name: name.to_string(), doc: no_doc(), fields: vec![], discriminant }
}

#[test]
fn struct_with_one_documented_field() {
    let boc_doc = "Key block BOC or zerostate BOC encoded as base64";
    let decl = Declaration {
        name: "ParamsOfGetBlockchainConfig".to_string(),
        doc: no_doc(),
        content: None,
        body: Body::Struct(vec![string_field("block_boc", summary(boc_doc))]),
    };
    let field = derive_schema(&decl).expect("derivation");
    let expected = Field {
        name: Some("ParamsOfGetBlockchainConfig".to_string()),
        summary: None,
        description: None,
        value: Type::Struct {
            fields: vec![Field {
                name: Some("block_boc".to_string()),
                summary: Some(boc_doc.to_string()),
                description: None,
                value: Type::Ref("string".to_string()),
            }],
        },
    };
    assert_eq!(field, expected);
}

#[test]
fn fieldless_enum_becomes_consts() {
    let decl = Declaration {
        name: "ProcessingStatus".to_string(),
        doc: no_doc(),
        content: None,
        body: Body::Enum(vec![
            plain_variant("Active", None),
            plain_variant("Inactive", Some(Discriminant::Literal(Lit::Int("0".to_string())))),
            plain_variant("Failed", Some(Discriminant::Literal(Lit::Int("5".to_string())))),
        ]),
    };
    let field = derive_schema(&decl).expect("derivation");
    let expected_consts = vec![
        Const {
            name: "Active".to_string(),
            value: ConstValue::NoValue,
            summary: None,
            description: None,
        },
        Const {
            name: "Inactive".to_string(),
            value: ConstValue::Number("0".to_string()),
            summary: None,
            description: None,
        },
        Const {
            name: "Failed".to_string(),
            value: ConstValue::Number("5".to_string()),
            summary: None,
            description: None,
        },
    ];
    assert_eq!(field.value, Type::EnumOfConsts { consts: expected_consts });
}

#[test]
fn content_key_wraps_every_variant() {
    let data_variant = Variant {
        name: "Loaded".to_string(),
        doc: no_doc(),
        fields: vec![string_field("payload", no_doc())],
        discriminant: None,
    };
    let decl = Declaration {
        name: "Message".to_string(),
        doc: no_doc(),
        content: Some("value".to_string()),
        body: Body::Enum(vec![data_variant, plain_variant("Empty", None)]),
    };
    let field = derive_schema(&decl).expect("derivation");
    let loaded_inner = Type::Struct {
        fields: vec![Field {
            name: Some("payload".to_string()),
            summary: None,
            description: None,
            value: Type::Ref("string".to_string()),
        }],
    };
    let empty_inner = Type::Struct { fields: vec![] };
    let wrap = |inner: Type| Type::Struct {
        fields: vec![Field { name: None, summary: None, description: None, value: inner }],
    };
    let expected = Type::EnumOfTypes {
        types: vec![
            Field {
                name: Some("Loaded".to_string()),
                summary: None,
                description: None,
                value: wrap(loaded_inner),
            },
            Field {
                name: Some("Empty".to_string()),
                summary: None,
                description: None,
                value: wrap(empty_inner),
            },
        ],
    };
    assert_eq!(field.value, expected);
}

#[test]
fn without_content_key_variants_stay_unwrapped() {
    let data_variant = Variant {
        name: "Loaded".to_string(),
        doc: no_doc(),
        fields: vec![string_field("payload", no_doc())],
        discriminant: None,
    };
    let decl = Declaration {
        name: "Message".to_string(),
        doc: no_doc(),
        content: None,
        body: Body::Enum(vec![data_variant, plain_variant("Empty", None)]),
    };
    let field = derive_schema(&decl).expect("derivation");
    match field.value {
        Type::EnumOfTypes { types } => {
            assert_eq!(types.len(), 2);
            match &types[0].value {
                Type::Struct { fields } => {
                    assert_eq!(fields.len(), 1);
                    assert_eq!(fields[0].name, Some("payload".to_string()));
                }
                other => panic!("unexpected variant type: {:?}", other),
            }
            assert_eq!(types[1].value, Type::Struct { fields: vec![] });
        }
        other => panic!("unexpected type: {:?}", other),
    }
}

#[test]
fn classification_follows_data_variants() {
    let struct_decl = Declaration {
        name: "S".to_string(),
        doc: no_doc(),
        content: None,
        body: Body::Struct(vec![]),
    };
    assert_eq!(classify(&struct_decl), Ok(ShapeKind::Struct));

    let mixed = Declaration {
        name: "E".to_string(),
        doc: no_doc(),
        content: None,
        body: Body::Enum(vec![
            plain_variant("A", None),
            Variant {
                name: "B".to_string(),
                doc: no_doc(),
                fields: vec![string_field("x", no_doc())],
                discriminant: None,
            },
        ]),
    };
    assert_eq!(classify(&mixed), Ok(ShapeKind::EnumOfTypes));

    let fieldless = Declaration {
        name: "E".to_string(),
        doc: no_doc(),
        content: None,
        body: Body::Enum(vec![plain_variant("A", None), plain_variant("B", None)]),
    };
    assert_eq!(classify(&fieldless), Ok(ShapeKind::EnumOfConsts));

    let opaque = Declaration {
        name: "O".to_string(),
        doc: no_doc(),
        content: None,
        body: Body::Opaque,
    };
    assert_eq!(classify(&opaque), Err(DeriveError::UnsupportedDeclarationKind));
}

#[test]
fn struct_field_order_is_preserved() {
    let names = ["gamma", "alpha", "beta", "alpha"];
    let decl = Declaration {
        name: "Ordered".to_string(),
        doc: no_doc(),
        content: None,
        body: Body::Struct(names.iter().map(|n| string_field(n, no_doc())).collect()),
    };
    let field = derive_schema(&decl).expect("derivation");
    match field.value {
        Type::Struct { fields } => {
            let got: Vec<Option<String>> = fields.into_iter().map(|f| f.name).collect();
            let want: Vec<Option<String>> = names.iter().map(|n| Some(n.to_string())).collect();
            assert_eq!(got, want);
        }
        other => panic!("unexpected type: {:?}", other),
    }
}

#[test]
fn nested_declaration_is_derived_recursively() {
    let inner = Declaration {
        name: "Inner".to_string(),
        doc: no_doc(),
        content: None,
        body: Body::Enum(vec![plain_variant("On", None), plain_variant("Off", None)]),
    };
    let decl = Declaration {
        name: "Outer".to_string(),
        doc: no_doc(),
        content: None,
        body: Body::Struct(vec![FieldDecl {
            name: Some("state".to_string()),
            doc: no_doc(),
            ty: TypeExpr::Nested(Box::new(inner)),
        }]),
    };
    let field = derive_schema(&decl).expect("derivation");
    match field.value {
        Type::Struct { fields } => match &fields[0].value {
            Type::EnumOfConsts { consts } => {
                assert_eq!(consts.len(), 2);
                assert_eq!(consts[0].name, "On");
                assert_eq!(consts[1].name, "Off");
            }
            other => panic!("unexpected nested type: {:?}", other),
        },
        other => panic!("unexpected type: {:?}", other),
    }
}

#[test]
fn literal_values_keep_their_text() {
    assert_eq!(
        value_from_lit(&Lit::Int("42".to_string())),
        Ok(ConstValue::Number("42".to_string()))
    );
    assert_eq!(
        value_from_lit(&Lit::Int("-17".to_string())),
        Ok(ConstValue::Number("-17".to_string()))
    );
    assert_eq!(
        value_from_lit(&Lit::Float("3.50".to_string())),
        Ok(ConstValue::Number("3.50".to_string()))
    );
    assert_eq!(
        value_from_lit(&Lit::Str("plain text".to_string())),
        Ok(ConstValue::Str("plain text".to_string()))
    );
    assert_eq!(value_from_lit(&Lit::Bool(true)), Ok(ConstValue::Bool("true".to_string())));
    assert_eq!(value_from_lit(&Lit::Bool(false)), Ok(ConstValue::Bool("false".to_string())));
}

#[test]
fn byte_literals_render_in_decimal() {
    assert_eq!(value_from_lit(&Lit::Byte(0)), Ok(ConstValue::Number("0".to_string())));
    assert_eq!(value_from_lit(&Lit::Byte(7)), Ok(ConstValue::Number("7".to_string())));
    assert_eq!(value_from_lit(&Lit::Byte(9)), Ok(ConstValue::Number("9".to_string())));
    assert_eq!(value_from_lit(&Lit::Byte(10)), Ok(ConstValue::Number("10".to_string())));
    assert_eq!(value_from_lit(&Lit::Byte(42)), Ok(ConstValue::Number("42".to_string())));
    assert_eq!(value_from_lit(&Lit::Byte(99)), Ok(ConstValue::Number("99".to_string())));
    assert_eq!(value_from_lit(&Lit::Byte(100)), Ok(ConstValue::Number("100".to_string())));
    assert_eq!(value_from_lit(&Lit::Byte(255)), Ok(ConstValue::Number("255".to_string())));
}

#[test]
fn unsupported_literals_are_rejected() {
    assert_eq!(value_from_lit(&Lit::Char('x')), Err(DeriveError::InvalidConstantLiteral));
    assert_eq!(
        value_from_lit(&Lit::ByteStr(vec![1, 2, 3])),
        Err(DeriveError::InvalidConstantLiteral)
    );
}

#[test]
fn invalid_discriminant_aborts_the_whole_derivation() {
    let decl = Declaration {
        name: "Bad".to_string(),
        doc: no_doc(),
        content: None,
        body: Body::Enum(vec![
            plain_variant("Fine", Some(Discriminant::Literal(Lit::Int("1".to_string())))),
            plain_variant("Broken", Some(Discriminant::Literal(Lit::Char('c')))),
            plain_variant("Later", None),
        ]),
    };
    assert_eq!(derive_schema(&decl), Err(DeriveError::InvalidConstantLiteral));
}

#[test]
fn non_literal_discriminant_aborts_the_whole_derivation() {
    let decl = Declaration {
        name: "Bad".to_string(),
        doc: no_doc(),
        content: None,
        body: Body::Enum(vec![plain_variant("Computed", Some(Discriminant::NonLiteral))]),
    };
    assert_eq!(derive_schema(&decl), Err(DeriveError::InvalidConstantLiteral));
}

#[test]
fn opaque_declaration_is_rejected() {
    let decl = Declaration {
        name: "Alias".to_string(),
        doc: no_doc(),
        content: None,
        body: Body::Opaque,
    };
    assert_eq!(derive_schema(&decl), Err(DeriveError::UnsupportedDeclarationKind));
}

#[test]
fn root_field_carries_declaration_documentation() {
    let decl = Declaration {
        name: "Documented".to_string(),
        doc: Doc {
            summary: Some("Short form".to_string()),
            description: Some("The rest of the text".to_string()),
        },
        content: None,
        body: Body::Struct(vec![]),
    };
    let field = derive_schema(&decl).expect("derivation");
    assert_eq!(field.name, Some("Documented".to_string()));
    assert_eq!(field.summary, Some("Short form".to_string()));
    assert_eq!(field.description, Some("The rest of the text".to_string()));
    assert_eq!(field.value, Type::Struct { fields: vec![] });
}

#[test]
fn variant_documentation_reaches_consts() {
    let decl = Declaration {
        name: "Levels".to_string(),
        doc: no_doc(),
        content: None,
        body: Body::Enum(vec![Variant {
            name: "High".to_string(),
            doc: summary("The high level"),
            fields: vec![],
            discriminant: Some(Discriminant::Literal(Lit::Str("high".to_string()))),
        }]),
    };
    let field = derive_schema(&decl).expect("derivation");
    match field.value {
        Type::EnumOfConsts { consts } => {
            assert_eq!(consts[0].summary, Some("The high level".to_string()));
            assert_eq!(consts[0].value, ConstValue::Str("high".to_string()));
        }
        other => panic!("unexpected type: {:?}", other),
    }
}

use frpc::declare::{Spacing, TokenTree};
use frpc::derive::{
    derive_kind, derive_panic, get_comments_from, plan_message, replace_generic_param,
    unit_enum_values, BodyPlan, DerivePanic, DataInput, DeriveError, DeriveKind, Discriminant, FieldInput,
    FieldsInput, TypeInput, VariantInput, VariantKindPlan,
};

fn variant(name: &str, discriminant: Discriminant, fields: FieldsInput) -> VariantInput {
    VariantInput { doc_lines: vec![], name: name.to_string(), discriminant, fields }
}

fn field(doc: &[&str], name: Option<&str>) -> FieldInput {
    FieldInput {
        doc_lines: doc.iter().map(|s| s.to_string()).collect(),
        name: name.map(|s| s.to_string()),
    }
}

#[test]
fn kinds() {
    let named = || DataInput::Struct(FieldsInput::Named(vec![field(&[], Some("x"))]));
    assert_eq!(derive_kind(false, &named()), Ok(DeriveKind::Struct));
    assert_eq!(
        derive_kind(false, &DataInput::Struct(FieldsInput::Unnamed(vec![field(&[], None)]))),
        Ok(DeriveKind::Tuple)
    );
    assert_eq!(
        derive_kind(false, &DataInput::Struct(FieldsInput::Unit)),
        Err(DeriveError::UnitStruct)
    );
    assert_eq!(derive_kind(false, &DataInput::Union), Err(DeriveError::Union));
    assert_eq!(derive_kind(true, &named()), Err(DeriveError::GenericType));
    // enum Car { Foo, Bar }
    let car = DataInput::Enum(vec![
        variant("Foo", Discriminant::Absent, FieldsInput::Unit),
        variant("Bar", Discriminant::Absent, FieldsInput::Unit),
    ]);
    assert_eq!(derive_kind(false, &car), Ok(DeriveKind::Unit));
    // enum Foo { Quz { x: u8 }, Bar(u8, Bez) }
    let foo = DataInput::Enum(vec![
        variant("Quz", Discriminant::Absent, FieldsInput::Named(vec![field(&[], Some("x"))])),
        variant("Bar", Discriminant::Absent, FieldsInput::Unnamed(vec![field(&[], None), field(&[], None)])),
    ]);
    assert_eq!(derive_kind(false, &foo), Ok(DeriveKind::Enum));
    assert_eq!(derive_kind(false, &DataInput::Enum(vec![])), Ok(DeriveKind::Unit));
    // A variant with fields and a discriminant still makes a unit enum.
    let with_disc = DataInput::Enum(vec![variant(
        "A",
        Discriminant::Int(3),
        FieldsInput::Unnamed(vec![field(&[], None)]),
    )]);
    assert_eq!(derive_kind(false, &with_disc), Ok(DeriveKind::Unit));
}

#[test]
fn unit_values() {
    assert_eq!(unit_enum_values(&[None, None, None]), vec![0, 1, 2]);
    assert_eq!(unit_enum_values(&[None, Some(10), None, Some(-3), None]), vec![0, 10, 11, -3, -2]);
    assert_eq!(unit_enum_values(&[]), Vec::<isize>::new());
    assert_eq!(unit_enum_values(&[Some(isize::MAX)]), vec![isize::MAX]);
}

#[test]
fn plan_struct() {
    let input = TypeInput {
        doc_lines: vec![" A point.".into()],
        ident: "Point".into(),
        has_type_params: false,
        data: DataInput::Struct(FieldsInput::Named(vec![
            field(&[" across"], Some("x")),
            field(&[], Some("y")),
        ])),
    };
    let plan = plan_message(&input).unwrap();
    assert_eq!(plan.kind, DeriveKind::Struct);
    assert_eq!(plan.doc, " A point.\n");
    assert_eq!(plan.name, "{}::Point");
    match plan.body {
        BodyPlan::Fields(fs) => {
            assert_eq!(fs.len(), 2);
            assert_eq!((fs[0].doc.as_str(), fs[0].name.as_str()), (" across\n", "x"));
            assert_eq!((fs[1].doc.as_str(), fs[1].name.as_str()), ("", "y"));
        }
        other => panic!("{other:?}"),
    }
}

#[test]
fn plan_unit_enum() {
    let input = TypeInput {
        doc_lines: vec![],
        ident: "Car".into(),
        has_type_params: false,
        data: DataInput::Enum(vec![
            variant("A", Discriminant::Absent, FieldsInput::Unit),
            variant("B", Discriminant::Int(10), FieldsInput::Unit),
            variant("C", Discriminant::Absent, FieldsInput::Unit),
        ]),
    };
    let plan = plan_message(&input).unwrap();
    assert_eq!(plan.kind, DeriveKind::Unit);
    match plan.body {
        BodyPlan::UnitVariants(vs) => {
            let got: Vec<(&str, isize)> = vs.iter().map(|v| (v.name.as_str(), v.value)).collect();
            assert_eq!(got, vec![("A", 0), ("B", 10), ("C", 11)]);
        }
        other => panic!("{other:?}"),
    }
}

#[test]
fn plan_data_enum() {
    let input = TypeInput {
        doc_lines: vec![],
        ident: "Shape".into(),
        has_type_params: false,
        data: DataInput::Enum(vec![
            variant("Empty", Discriminant::Absent, FieldsInput::Unit),
            variant("Circle", Discriminant::Absent, FieldsInput::Unnamed(vec![field(&[" radius"], None)])),
            variant("Rect", Discriminant::Absent, FieldsInput::Named(vec![field(&[], Some("w"))])),
        ]),
    };
    let plan = plan_message(&input).unwrap();
    assert_eq!(plan.kind, DeriveKind::Enum);
    match plan.body {
        BodyPlan::Variants(vs) => {
            assert_eq!(vs.len(), 3);
            assert!(matches!(vs[0].kind, VariantKindPlan::Unit));
            match &vs[1].kind {
                VariantKindPlan::Tuple(fs) => {
                    assert_eq!((fs[0].doc.as_str(), fs[0].name.as_str()), (" radius\n", ""))
                }
                other => panic!("{other:?}"),
            }
            match &vs[2].kind {
                VariantKindPlan::Struct(fs) => assert_eq!(fs[0].name, "w"),
                other => panic!("{other:?}"),
            }
        }
        other => panic!("{other:?}"),
    }
}

#[test]
fn plan_errors() {
    let mk = |has_type_params: bool, data: DataInput| TypeInput {
        doc_lines: vec![],
        ident: "T".into(),
        has_type_params,
        data,
    };
    let err = |i: TypeInput| plan_message(&i).err();
    assert_eq!(err(mk(true, DataInput::Union)), Some(DeriveError::GenericType));
    assert_eq!(err(mk(true, DataInput::Struct(FieldsInput::Unit))), Some(DeriveError::GenericType));
    // struct S {} and struct S(); are accepted.
    assert!(plan_message(&mk(false, DataInput::Struct(FieldsInput::Named(vec![])))).is_ok());
    assert!(plan_message(&mk(false, DataInput::Struct(FieldsInput::Unnamed(vec![])))).is_ok());
}

#[test]
fn derive_stops() {
    let mk = |has_type_params: bool, data: DataInput| TypeInput {
        doc_lines: vec![],
        ident: "T".into(),
        has_type_params,
        data,
    };
    let stop = |i: TypeInput| derive_panic(&i);
    let unit = |d: Discriminant| variant("A", d, FieldsInput::Unit);
    assert_eq!(stop(mk(false, DataInput::Struct(FieldsInput::Unit))), Some(DerivePanic::UnitStruct));
    assert_eq!(stop(mk(false, DataInput::Union)), Some(DerivePanic::Union));
    // A type with type parameters is refused before anything else.
    assert_eq!(stop(mk(true, DataInput::Union)), None);
    assert_eq!(stop(mk(false, DataInput::Struct(FieldsInput::Named(vec![])))), None);
    assert_eq!(
        stop(mk(false, DataInput::Enum(vec![unit(Discriminant::NotLiteral)]))),
        Some(DerivePanic::DiscriminantNotLiteral)
    );
    assert_eq!(
        stop(mk(false, DataInput::Enum(vec![unit(Discriminant::NotInteger)]))),
        Some(DerivePanic::DiscriminantNotInteger)
    );
    assert_eq!(
        stop(mk(false, DataInput::Enum(vec![unit(Discriminant::OutOfRange)]))),
        Some(DerivePanic::DiscriminantOutOfRange)
    );
    assert_eq!(
        stop(mk(false, DataInput::Enum(vec![unit(Discriminant::Int(isize::MAX)), unit(Discriminant::Absent)]))),
        Some(DerivePanic::DiscriminantOverflow)
    );
    // The first problem in variant order decides.
    assert_eq!(
        stop(mk(false, DataInput::Enum(vec![unit(Discriminant::NotInteger), unit(Discriminant::NotLiteral)]))),
        Some(DerivePanic::DiscriminantNotInteger)
    );
    assert_eq!(
        stop(mk(false, DataInput::Enum(vec![unit(Discriminant::Int(isize::MAX)), unit(Discriminant::Int(0)), unit(Discriminant::Absent)]))),
        None
    );
    // Discriminants of an enum that is not a unit enum are not read.
    let data_enum = DataInput::Enum(vec![
        variant("A", Discriminant::Absent, FieldsInput::Unnamed(vec![field(&[], None)])),
        variant("B", Discriminant::NotLiteral, FieldsInput::Unit),
    ]);
    assert_eq!(stop(mk(false, data_enum)), None);
}

#[test]
fn doc_comments() {
    assert_eq!(get_comments_from(&[]), "");
    assert_eq!(get_comments_from(&[" Hello World".into()]), " Hello World\n");
    assert_eq!(get_comments_from(&["a".into(), "b".into()]), "a\nb\n");
}

fn ident(s: &str) -> TokenTree {
    TokenTree::Ident(s.to_string())
}

#[test]
fn lib_test_name() {
    // Box<Node<Vec<T>>> with the generic parameters [U, T]
    let code = vec![
        ident("Box"),
        TokenTree::Punct('<', Spacing::Alone),
        ident("Node"),
        TokenTree::Punct('<', Spacing::Alone),
        ident("Vec"),
        TokenTree::Punct('<', Spacing::Alone),
        ident("T"),
        TokenTree::Punct('>', Spacing::Joint),
        TokenTree::Punct('>', Spacing::Joint),
        TokenTree::Punct('>', Spacing::Joint),
    ];
    let result = replace_generic_param(&code, &["U".to_string(), "T".to_string()]);
    println!("{:?}", result);
    assert_eq!(result, vec![None, None, None, None, None, None, Some(1), None, None, None]);
}

#[test]
fn generic_param_first_match() {
    let code = vec![ident("T"), ident("U"), TokenTree::Literal("T".into())];
    assert_eq!(
        replace_generic_param(&code, &["T".into(), "U".into(), "T".into()]),
        vec![Some(0), Some(1), None]
    );
    assert_eq!(replace_generic_param(&code, &[]), vec![None, None, None]);
}

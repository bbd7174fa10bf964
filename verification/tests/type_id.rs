use frpc::type_id::{
    CostomTypes, CustomType, CustomTypeKind, EnumField, EnumKind, Ident, StructField, TupleField,
    Ty, TypeId, UnitField,
};

fn unit_kind(doc: &str) -> CustomTypeKind {
    CustomTypeKind::Unit(CustomType::new(doc, vec![UnitField::new("", "A", 0)]))
}

#[test]
fn register_new_name() {
    let mut c = CostomTypes::default();
    let ty = c.register("m::Foo".to_string(), |_| unit_kind("foo"));
    assert!(matches!(ty, Ty::CustomType(ref n) if n == "m::Foo"));
    match c.get("m::Foo") {
        Some(CustomTypeKind::Unit(t)) => assert_eq!(t.doc, "foo"),
        _ => panic!("not registered"),
    }
}

#[test]
fn register_twice_keeps_first() {
    let mut c = CostomTypes::default();
    c.register("Foo".to_string(), |_| unit_kind("first"));
    let ty = c.register("Foo".to_string(), |_| unit_kind("second"));
    assert!(matches!(ty, Ty::CustomType(ref n) if n == "Foo"));
    match c.get("Foo") {
        Some(CustomTypeKind::Unit(t)) => assert_eq!(t.doc, "first"),
        _ => panic!("not registered"),
    }
    assert_eq!(c.entries().len(), 1);
}

#[test]
fn register_recursive_type_sees_placeholder() {
    let mut c = CostomTypes::default();
    c.register("List".to_string(), |c| {
        // While the definition is built, the name is already known.
        assert!(c.contains_key("List"));
        let inner = c.register("List".to_string(), |_| panic!("registered twice"));
        CustomTypeKind::Struct(CustomType::new("", vec![StructField::new("", "next", inner)]))
    });
    assert!(matches!(c.get("List"), Some(CustomTypeKind::Struct(_))));
}

#[test]
fn entries_are_sorted() {
    let mut c = CostomTypes::default();
    for name in ["b", "a", "c", "ab", "B"] {
        c.register(name.to_string(), |_| unit_kind(""));
    }
    let names: Vec<&str> = c.entries().iter().map(|(n, _)| n.as_str()).collect();
    assert_eq!(names, vec!["B", "a", "ab", "b", "c"]);
    assert!(c.get("zz").is_none());
}

#[test]
fn ident_raw_prefix() {
    let raw = Ident("r#type".to_string());
    assert!(raw.is_raw_str_literal());
    assert_eq!(&*raw, "type");
    let plain = Ident("name".to_string());
    assert!(!plain.is_raw_str_literal());
    assert_eq!(&*plain, "name");
    let twice = Ident("r#r#x".to_string());
    assert_eq!(&*twice, "x");
    assert_eq!(&*Ident("r#".to_string()), "");
    assert!(!Ident("r".to_string()).is_raw_str_literal());
}

#[test]
fn empty_tuple() {
    assert!(Ty::Tuple(vec![]).is_empty_tuple());
    assert!(!Ty::Tuple(vec![Ty::u8]).is_empty_tuple());
    assert!(!Ty::bool.is_empty_tuple());
}

#[test]
fn constructors() {
    let f = StructField::new("doc", "age", Ty::u8);
    assert_eq!(f.doc, "doc");
    assert_eq!(f.name.0, "age");
    let t = TupleField::new("d", Ty::String);
    assert_eq!(t.doc, "d");
    let e = EnumField::new("", "Quz", EnumKind::Unit);
    assert_eq!(e.name.0, "Quz");
    let u = UnitField::new("x", "Foo", 3);
    assert_eq!(u.value, 3);
}

#[test]
fn basic_type_ids() {
    let mut c = CostomTypes::default();
    assert!(matches!(<u8 as TypeId>::ty(&mut c), Ty::u8));
    assert!(matches!(<(u8, String) as TypeId>::ty(&mut c), Ty::Tuple(ref t) if t.len() == 2));
    assert!(matches!(<[u16; 4] as TypeId>::ty(&mut c), Ty::Array { len: 4, .. }));
    assert!(matches!(<Vec<bool> as TypeId>::ty(&mut c), Ty::SetOf { .. }));
    assert!(<() as TypeId>::ty(&mut c).is_empty_tuple());
}

use frpc::message::_utils::{c, s};
use frpc::message::{Context, CustomTypeKind, Message, SetVariant, Ty};
use frpc::frpc_message::{FuncOutput, TypeDef};
use frpc::__private::describe_func;
use frpc::type_id::{CostomTypes, Ty as TypeTy};

#[test]
fn basic_messages() {
    let mut ctx = Context::default();
    assert!(matches!(<u8 as Message>::ty(&mut ctx), Ty::u8));
    assert!(matches!(<&str as Message>::ty(&mut ctx), Ty::str));
    assert!(matches!(<char as Message>::ty(&mut ctx), Ty::char));
    assert!(matches!(<Option<u8> as Message>::ty(&mut ctx), Ty::Option(_)));
    assert!(matches!(<[u8; 3] as Message>::ty(&mut ctx), Ty::Array { len: 3, .. }));
    assert!(matches!(
        <Vec<u8> as Message>::ty(&mut ctx),
        Ty::SetOf { variant: SetVariant::Vec, .. }
    ));
    assert!(ctx.costom_types.is_empty());
    assert!(matches!(CustomTypeKind::default(), CustomTypeKind::Unit(t) if t.doc.is_empty() && t.fields.is_empty()));
}

#[test]
fn utils() {
    assert_eq!(s("abc"), "abc".to_string());
    assert_eq!(c(&vec![1, 2]), vec![1, 2]);
}

#[test]
fn describe_drops_leading_state() {
    let args = TypeTy::Tuple(vec![TypeTy::Tuple(vec![]), TypeTy::u8, TypeTy::String]);
    let f = describe_func(args, FuncOutput::Unary(TypeTy::bool), 3, "echo").unwrap();
    assert_eq!(f.index, 3);
    assert_eq!(f.ident.0, "echo");
    assert_eq!(f.args.len(), 2);
    assert!(matches!(f.args[0], TypeTy::u8));
    let f = describe_func(TypeTy::Tuple(vec![TypeTy::u8, TypeTy::Tuple(vec![])]), FuncOutput::Unary(TypeTy::bool), 0, "f").unwrap();
    assert_eq!(f.args.len(), 2);
    let f = describe_func(TypeTy::Tuple(vec![]), FuncOutput::Unary(TypeTy::bool), 0, "f").unwrap();
    assert!(f.args.is_empty());
    assert!(describe_func(TypeTy::u8, FuncOutput::Unary(TypeTy::bool), 0, "f").is_none());
}

#[test]
fn type_def() {
    let t = TypeDef::new("EchoTest", CostomTypes::default(), vec![]);
    assert_eq!(t.name.0, "EchoTest");
    assert!(t.funcs.is_empty());
}

use frpc::__private::{fn_sig, fn_ty};
use frpc::fn_once::FnOnce;
use frpc::frpc_message::{Func, FuncOutput, TypeDef};
use frpc::type_id::{CostomTypes, CustomType, CustomTypeKind, Ident, Ty, TypeId};

fn service() -> TypeDef {
    let funcs = vec![
        Func {
            index: 1,
            ident: Ident("add".into()),
            args: vec![Ty::u8, Ty::u16],
            output: FuncOutput::Unary(Ty::u32),
        },
        Func {
            index: 2,
            ident: Ident("ping".into()),
            args: vec![],
            output: FuncOutput::Unary(Ty::Tuple(vec![])),
        },
        Func {
            index: 3,
            ident: Ident("watch".into()),
            args: vec![Ty::String],
            output: FuncOutput::ServerStream { yield_ty: Ty::bool, return_ty: Ty::i8 },
        },
    ];
    TypeDef::new("Calc", CostomTypes::default(), funcs)
}

#[test]
fn type_def_fields() {
    let td = service();
    assert_eq!(td.name.0, "Calc");
    assert_eq!(td.funcs.len(), 3);
    assert_eq!(td.funcs[2].index, 3);
}

#[test]
fn input_types_in_order() {
    let td = service();
    let tys = td.input_tys();
    assert_eq!(tys.len(), 3);
    assert!(matches!(tys[0], Ty::u8));
    assert!(matches!(tys[1], Ty::u16));
    assert!(matches!(tys[2], Ty::String));
}

#[test]
fn output_types_in_order() {
    let td = service();
    let tys = td.output_tys();
    assert_eq!(tys.len(), 4);
    assert!(matches!(tys[0], Ty::u32));
    assert!(matches!(tys[1], Ty::Tuple(v) if v.is_empty()));
    assert!(matches!(tys[2], Ty::bool));
    assert!(matches!(tys[3], Ty::i8));
}

#[test]
fn async_procedure_description() {
    let mut c = CostomTypes::default();
    // async fn add(state: State, a: u8, b: u16) -> u32: the state is described as `()`.
    let f = fn_ty::<((), u8, u16), std::future::Ready<u32>>(&mut c, 7, "add").unwrap();
    assert_eq!(f.index, 7);
    assert_eq!(f.ident.0, "add");
    assert_eq!(f.args.len(), 2);
    assert!(matches!(f.args[0], Ty::u8));
    assert!(matches!(f.args[1], Ty::u16));
    assert!(matches!(f.output, FuncOutput::Unary(Ty::u32)));
}

async fn add(_state: (), a: u8, b: u16) -> u32 {
    a as u32 + b as u32
}

#[test]
fn procedure_description_from_a_function() {
    let mut c = CostomTypes::default();
    let f = fn_sig(&add, &mut c, 4, "add").unwrap();
    assert_eq!(f.index, 4);
    assert_eq!(f.ident.0, "add");
    assert_eq!(f.args.len(), 2);
    assert!(matches!(f.args[0], Ty::u8));
    assert!(matches!(f.args[1], Ty::u16));
    assert!(matches!(f.output, FuncOutput::Unary(Ty::u32)));
    assert!(c.entries().is_empty());
}

#[test]
fn calling_with_a_tuple() {
    assert_eq!(FnOnce::call_once(|a: u8, b: u8| a + b, (2, 3)), 5);
    assert_eq!(FnOnce::call_once(|| 7u8, ()), 7);
}

struct Point;

impl TypeId for Point {
    fn ty(c: &mut CostomTypes) -> Ty {
        c.register("geo::Point".to_string(), |_| {
            CustomTypeKind::Struct(CustomType::new(" A point.\n", vec![]))
        })
    }
}

async fn locate(_state: (), _p: Option<Point>) -> Vec<Point> {
    vec![]
}

#[test]
fn procedure_types_go_into_the_callers_registry() {
    let mut c = CostomTypes::default();
    let f = fn_sig(&locate, &mut c, 1, "locate").unwrap();
    assert!(matches!(&f.args[0], Ty::Option(t) if matches!(&**t, Ty::CustomType(n) if n == "geo::Point")));
    assert!(c.contains_key("geo::Point"));
    assert_eq!(c.entries().len(), 1);
}

use frpc::definition::tuple_elements;
use frpc::message::Ty;

#[test]
fn tuple_shapes_give_their_elements() {
    let elems = tuple_elements(Ty::Tuple(vec![Ty::u8, Ty::String])).unwrap();
    assert_eq!(elems.len(), 2);
    assert!(matches!(elems[0], Ty::u8));
    assert!(matches!(elems[1], Ty::String));
    assert!(tuple_elements(Ty::Tuple(vec![])).unwrap().is_empty());
    assert!(tuple_elements(Ty::bool).is_none());
}

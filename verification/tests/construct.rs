use flatde::data::{Error, Kind, Value};
use flatde::node::Node;
use flatde::parse::construct;
use flatde::shape::Shape;

/// The shape of a flat two-field struct of 32-bit integers.
fn point_shape() -> Shape {
    Shape::Tuple(vec![Shape::I32, Shape::I32])
}

/// The shape of a flat two-field struct of 64-bit integers.
fn point64_shape() -> Shape {
    Shape::Tuple(vec![Shape::I64, Shape::I64])
}

#[test]
fn it_works() {
    let vector: Vec<Value> = vec![Value::I32(1), Value::I32(2)];
    let result = construct(&vector, &point_shape()).unwrap();
    assert_eq!(result, Node::List(vec![Node::I32(1), Node::I32(2)]));

    let vector64: Vec<Value> = vec![Value::I64(1), Value::I64(2)];
    let result = construct(&vector64, &point64_shape()).unwrap();
    assert_eq!(result, Node::List(vec![Node::I64(1), Node::I64(2)]));

    let result = construct(&vector, &point64_shape());
    assert!(result.is_err());
}

#[test]
fn harder_test() {
    let vector: Vec<Value> = vec![
        Value::I32(1),
        Value::I32(2),
        Value::I32(3),
        Value::I32(4),
        Value::I64(5),
        Value::I64(6),
    ];
    let compound_shape = Shape::Tuple(vec![
        Shape::Tuple(vec![point_shape(), point_shape()]),
        Shape::Sequence(Box::new(point64_shape())),
    ]);
    let result = construct(&vector, &compound_shape).unwrap();

    assert_eq!(
        result,
        Node::List(vec![
            Node::List(vec![
                Node::List(vec![Node::I32(1), Node::I32(2)]),
                Node::List(vec![Node::I32(3), Node::I32(4)]),
            ]),
            Node::List(vec![Node::List(vec![Node::I64(5), Node::I64(6)])]),
        ])
    );
}

#[test]
fn kind_mismatch_is_exact() {
    let vector: Vec<Value> = vec![Value::I32(1), Value::I32(2)];
    let result = construct(&vector, &point64_shape());
    assert_eq!(
        result,
        Err(Error::TypeMismatch { expected: Kind::I64, found: Kind::I32 })
    );

    let vector64: Vec<Value> = vec![Value::I64(1), Value::I64(2)];
    let result = construct(&vector64, &point_shape());
    assert_eq!(
        result,
        Err(Error::TypeMismatch { expected: Kind::I32, found: Kind::I64 })
    );
}

#[test]
fn trailing_input_rejected() {
    let vector: Vec<Value> = vec![Value::I32(1), Value::I32(2), Value::I32(3)];
    let result = construct(&vector, &point_shape());
    assert_eq!(result, Err(Error::InputNotEmpty));
}

#[test]
fn empty_input_fails() {
    let vector: Vec<Value> = vec![];
    let result = construct(&vector, &point_shape());
    assert_eq!(result, Err(Error::InputEmpty));
    let result = construct(&vector, &Shape::I32);
    assert_eq!(result, Err(Error::InputEmpty));
}

#[test]
fn empty_tuple_takes_empty_input() {
    let vector: Vec<Value> = vec![];
    let result = construct(&vector, &Shape::Tuple(vec![])).unwrap();
    assert_eq!(result, Node::List(vec![]));

    let vector: Vec<Value> = vec![Value::I32(1)];
    let result = construct(&vector, &Shape::Tuple(vec![]));
    assert_eq!(result, Err(Error::InputNotEmpty));
}

#[test]
fn sequence_consumes_until_exhaustion() {
    let vector: Vec<Value> = vec![Value::I32(1), Value::I32(2), Value::I32(3)];
    let shape = Shape::Sequence(Box::new(Shape::I32));
    let result = construct(&vector, &shape).unwrap();
    assert_eq!(
        result,
        Node::List(vec![Node::I32(1), Node::I32(2), Node::I32(3)])
    );

    let empty: Vec<Value> = vec![];
    let result = construct(&empty, &shape).unwrap();
    assert_eq!(result, Node::List(vec![]));
}

#[test]
fn sequence_element_errors_propagate() {
    let vector: Vec<Value> = vec![Value::I32(1), Value::I64(2)];
    let shape = Shape::Sequence(Box::new(Shape::I32));
    let result = construct(&vector, &shape);
    assert_eq!(
        result,
        Err(Error::TypeMismatch { expected: Kind::I32, found: Kind::I64 })
    );
}

#[test]
fn any_shape_infers_kind_from_data() {
    let vector: Vec<Value> = vec![Value::I32(1), Value::I64(2)];
    let shape = Shape::Tuple(vec![Shape::Any, Shape::Any]);
    let result = construct(&vector, &shape).unwrap();
    assert_eq!(result, Node::List(vec![Node::I32(1), Node::I64(2)]));
}

#[test]
fn unsupported_shapes_are_rejected() {
    let starving = Shape::Sequence(Box::new(Shape::Tuple(vec![])));
    assert!(!starving.is_supported());
    let vector: Vec<Value> = vec![Value::I32(1)];
    match construct(&vector, &starving) {
        Err(Error::Message(msg)) => assert_eq!(msg, "unsupported shape"),
        other => panic!("expected a message error, got {:?}", other),
    }

    let nested = Shape::Sequence(Box::new(Shape::Sequence(Box::new(Shape::I32))));
    assert!(!nested.is_supported());
    assert!(matches!(
        construct(&vector, &nested),
        Err(Error::Message(_))
    ));

    assert!(point_shape().is_supported());
    assert!(Shape::Sequence(Box::new(point_shape())).is_supported());
}

#[test]
fn shape_consumption_is_decided() {
    assert!(Shape::I32.consumes());
    assert!(Shape::I64.consumes());
    assert!(Shape::Any.consumes());
    assert!(!Shape::Tuple(vec![]).consumes());
    assert!(!Shape::Sequence(Box::new(Shape::I32)).consumes());
    assert!(Shape::Tuple(vec![Shape::Tuple(vec![]), Shape::I32]).consumes());
}

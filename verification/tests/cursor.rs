use flatde::cursor::Deserializer;
use flatde::data::{Error, Kind, Value};

#[test]
fn peek_does_not_advance() {
    let vector: Vec<Value> = vec![Value::I32(7), Value::I64(8)];
    let de = Deserializer::from_values(&vector);
    assert_eq!(de.position(), 0);
    assert_eq!(de.peek_value(), Ok(Value::I32(7)));
    assert_eq!(de.peek_value(), Ok(Value::I32(7)));
    assert_eq!(de.position(), 0);
}

#[test]
fn next_value_walks_in_order() {
    let vector: Vec<Value> = vec![Value::I32(7), Value::I64(8)];
    let mut de = Deserializer::from_values(&vector);
    assert_eq!(de.next_value(), Ok(Value::I32(7)));
    assert_eq!(de.position(), 1);
    assert_eq!(de.next_value(), Ok(Value::I64(8)));
    assert_eq!(de.position(), 2);
    assert_eq!(de.next_value(), Err(Error::InputEmpty));
    assert_eq!(de.peek_value(), Err(Error::InputEmpty));
    assert_eq!(de.position(), 2);
}

#[test]
fn mismatch_is_atomic_and_retryable() {
    let vector: Vec<Value> = vec![Value::I64(7)];
    let mut de = Deserializer::from_values(&vector);
    assert_eq!(
        de.next_i32(),
        Err(Error::TypeMismatch { expected: Kind::I32, found: Kind::I64 })
    );
    assert_eq!(de.position(), 0);
    assert_eq!(de.next_i64(), Ok(7));
    assert_eq!(de.position(), 1);

    let vector: Vec<Value> = vec![Value::I32(9)];
    let mut de = Deserializer::from_values(&vector);
    assert_eq!(
        de.next_i64(),
        Err(Error::TypeMismatch { expected: Kind::I64, found: Kind::I32 })
    );
    assert_eq!(de.position(), 0);
    assert_eq!(de.next_i32(), Ok(9));
    assert_eq!(de.position(), 1);
}

#[test]
fn typed_reads_at_exhaustion_report_end_of_input() {
    let vector: Vec<Value> = vec![];
    let mut de = Deserializer::from_values(&vector);
    assert_eq!(de.next_i32(), Err(Error::InputEmpty));
    assert_eq!(de.next_i64(), Err(Error::InputEmpty));
    assert_eq!(de.position(), 0);
}

#[test]
fn value_kinds_are_tagged() {
    assert_eq!(Value::I32(1).kind(), Kind::I32);
    assert_eq!(Value::I64(1).kind(), Kind::I64);
}

#[test]
fn error_messages_describe_each_kind() {
    assert_eq!(Error::InputNotEmpty.message(), "unexpected input remaining");
    assert_eq!(Error::InputEmpty.message(), "unexpected end of input");
    assert_eq!(
        Error::TypeMismatch { expected: Kind::I32, found: Kind::I64 }.message(),
        "type mismatch detected"
    );
    assert_eq!(
        Error::Message(String::from("boxed in")).message(),
        "boxed in"
    );
}

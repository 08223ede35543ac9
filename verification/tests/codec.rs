use accessibility::value::{
    decode_boolean, decode_element, decode_element_array, decode_number, decode_point,
    decode_rect, decode_size, decode_text, encode_boolean, encode_element, encode_element_array,
    encode_number, encode_point, encode_rect, encode_size, encode_text, DecodeError, NativeValue,
    Point, Rect, Size,
};

#[test]
fn text_round_trip() {
    let v = encode_text(String::from("Hello"));
    assert_eq!(decode_text(&v), Ok(String::from("Hello")));
}

#[test]
fn boolean_round_trip() {
    let v = encode_boolean(true);
    assert_eq!(decode_boolean(&v), Ok(true));
    let v = encode_boolean(false);
    assert_eq!(decode_boolean(&v), Ok(false));
}

#[test]
fn number_round_trip() {
    let v = encode_number(-42);
    assert_eq!(decode_number(&v), Ok(-42));
}

#[test]
fn point_round_trip() {
    let p = Point { x: 3, y: -7 };
    assert_eq!(decode_point(&encode_point(p)), Ok(p));
}

#[test]
fn size_round_trip() {
    let s = Size { width: 800, height: 600 };
    assert_eq!(decode_size(&encode_size(s)), Ok(s));
}

#[test]
fn rect_round_trip() {
    let r = Rect { x: 0, y: 22, width: 800, height: 578 };
    assert_eq!(decode_rect(&encode_rect(r)), Ok(r));
}

#[test]
fn element_round_trip() {
    let v = encode_element(99);
    assert_eq!(decode_element(&v), Ok(99));
}

#[test]
fn element_array_round_trip() {
    let ids = vec![5u64, 3, 5, 8];
    let v = encode_element_array(&ids);
    assert_eq!(decode_element_array(&v), Ok(ids));
}

#[test]
fn array_order_is_preserved() {
    let ids = vec![9u64, 1, 4];
    let v = encode_element_array(&ids);
    assert_eq!(decode_element_array(&v), Ok(vec![9, 1, 4]));
}

#[test]
fn boolean_does_not_decode_as_number() {
    let v = encode_boolean(true);
    assert_eq!(decode_number(&v), Err(DecodeError::TypeMismatch));
}

#[test]
fn number_does_not_decode_as_boolean() {
    let v = encode_number(1);
    assert_eq!(decode_boolean(&v), Err(DecodeError::TypeMismatch));
}

#[test]
fn text_does_not_decode_as_other_kinds() {
    let v = encode_text(String::from("true"));
    assert_eq!(decode_boolean(&v), Err(DecodeError::TypeMismatch));
    assert_eq!(decode_number(&v), Err(DecodeError::TypeMismatch));
    assert_eq!(decode_element(&v), Err(DecodeError::TypeMismatch));
}

#[test]
fn geometry_tags_do_not_cross_decode() {
    let p = encode_point(Point { x: 1, y: 2 });
    assert_eq!(decode_size(&p), Err(DecodeError::TypeMismatch));
    assert_eq!(decode_rect(&p), Err(DecodeError::TypeMismatch));
    let s = encode_size(Size { width: 1, height: 2 });
    assert_eq!(decode_point(&s), Err(DecodeError::TypeMismatch));
}

#[test]
fn mixed_array_is_not_an_element_array() {
    let v = NativeValue::Array(vec![NativeValue::ElementRef(1), NativeValue::Number(2)]);
    assert_eq!(decode_element_array(&v), Err(DecodeError::TypeMismatch));
}

#[test]
fn empty_array_decodes_as_empty_element_array() {
    let v = NativeValue::Array(vec![]);
    assert_eq!(decode_element_array(&v), Ok(vec![]));
}

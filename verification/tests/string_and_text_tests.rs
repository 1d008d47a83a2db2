use ort::engine::Engine;
use ort::error::ErrorCode;
use ort::text::{char_p_to_string, i64_to_string, u64_to_string};
use ort::value::Tensor;

#[test]
fn test_char_p_to_string() {
    let bytes = b"foo\0".to_vec();
    assert_eq!(
        "foo",
        char_p_to_string(Some(bytes.as_slice())).expect("failed to convert string")
    );
}

#[test]
fn char_p_to_string_handles_absent_and_unterminated() {
    assert_eq!("", char_p_to_string(None).unwrap());
    let bytes = b"abc".to_vec();
    assert_eq!("abc", char_p_to_string(Some(bytes.as_slice())).unwrap());
    let bytes = b"ab\0cd".to_vec();
    assert_eq!("ab", char_p_to_string(Some(bytes.as_slice())).unwrap());
}

#[test]
fn test_string_tensor_raw() {
    let mut engine = Engine::new();
    let v = vec!["hello world".to_string(), "こんにちは世界".to_string()];

    let value = Tensor::from_string_array(
        &mut engine,
        (vec![v.len() as i64], v.clone().into_boxed_slice()),
    )
    .unwrap();
    let (extracted_shape, extracted_view) = value.try_extract_raw_string_tensor(&engine).unwrap();
    assert_eq!(extracted_shape, [v.len() as i64]);
    assert_eq!(extracted_view, v);
}

#[test]
fn string_tensor_rejects_interior_nul() {
    let mut engine = Engine::new();
    let v = vec!["fine".to_string(), "bad\0byte".to_string()];
    let err =
        Tensor::from_string_array(&mut engine, (vec![v.len() as i64], v.into_boxed_slice()))
            .unwrap_err();
    assert_eq!(err.code, ErrorCode::InvalidArgument);
    assert_eq!(
        err.message(),
        "string at index 1 contains an interior nul byte and cannot fill a string tensor"
    );
}

#[test]
fn string_tensor_rejects_wrong_count() {
    let mut engine = Engine::new();
    let v = vec!["one".to_string(), "two".to_string()];
    let err = Tensor::from_string_array(&mut engine, (vec![3i64], v.into_boxed_slice()))
        .unwrap_err();
    assert_eq!(err.code, ErrorCode::InvalidArgument);
}

#[test]
fn string_tensor_extraction_type_checks() {
    let mut engine = Engine::new();
    let value = Tensor::from_array(&mut engine, (vec![2i64], vec![1i64, 2])).unwrap();
    let err = value.try_extract_raw_string_tensor(&engine).unwrap_err();
    assert_eq!(err.code, ErrorCode::Fail);

    let strings = vec!["a".to_string()];
    let value =
        Tensor::from_string_array(&mut engine, (vec![1i64], strings.into_boxed_slice())).unwrap();
    let err = value.try_extract_raw_tensor::<i64>(&engine).unwrap_err();
    assert_eq!(err.code, ErrorCode::Fail);
}

#[test]
fn decimal_rendering_is_exact() {
    assert_eq!(u64_to_string(0), "0");
    assert_eq!(u64_to_string(17), "17");
    assert_eq!(u64_to_string(4294967295), "4294967295");
    assert_eq!(u64_to_string(u64::MAX), "18446744073709551615");
    assert_eq!(i64_to_string(-5), "-5");
    assert_eq!(i64_to_string(0), "0");
    assert_eq!(i64_to_string(i64::MIN), "-9223372036854775808");
}

use faas::error::Error;
use faas::function::{Deployment, FunctionRecord};
use faas::signature::{FunctionType, TypeDesc};
use serde_json::Value;
use std::time::SystemTime;

fn decode_all(bytes: &[u8]) -> (Result<TypeDesc, Error>, usize) {
    let mut rest = bytes;
    let decoded = TypeDesc::decode(&mut rest);
    (decoded, rest.len())
}

fn identity_signature() -> FunctionType {
    FunctionType {
        params: vec![TypeDesc::I32],
        shim_idx: 0,
        ret: TypeDesc::I32,
        inner_ret: Some(TypeDesc::Unit),
    }
}

#[test]
fn decode_identity_function() {
    let (decoded, left) = decode_all(&[0x0B, 0x00, 0x01, 0x04, 0x04, 0x1B]);
    assert_eq!(decoded, Ok(TypeDesc::Function(Box::new(identity_signature()))));
    assert_eq!(left, 0);
}

#[test]
fn decode_every_plain_tag() {
    let expected = vec![
        (0u8, TypeDesc::I8),
        (1, TypeDesc::U8),
        (2, TypeDesc::I16),
        (3, TypeDesc::U16),
        (4, TypeDesc::I32),
        (5, TypeDesc::U32),
        (6, TypeDesc::I64),
        (7, TypeDesc::U64),
        (8, TypeDesc::F32),
        (9, TypeDesc::F64),
        (10, TypeDesc::Boolean),
        (14, TypeDesc::String),
        (24, TypeDesc::Char),
        (27, TypeDesc::Unit),
    ];
    for (tag, desc) in expected {
        let (decoded, left) = decode_all(&[tag, 0xEE]);
        assert_eq!(decoded, Ok(desc));
        assert_eq!(left, 1);
    }
}

#[test]
fn decode_every_nesting_tag() {
    assert_eq!(decode_all(&[15, 4]).0, Ok(TypeDesc::Ref(Box::new(TypeDesc::I32))));
    assert_eq!(decode_all(&[16, 14]).0, Ok(TypeDesc::RefMut(Box::new(TypeDesc::String))));
    assert_eq!(decode_all(&[18, 1]).0, Ok(TypeDesc::Slice(Box::new(TypeDesc::U8))));
    assert_eq!(decode_all(&[19, 9]).0, Ok(TypeDesc::Vector(Box::new(TypeDesc::F64))));
    assert_eq!(decode_all(&[25, 24]).0, Ok(TypeDesc::Option(Box::new(TypeDesc::Char))));
}

#[test]
fn decode_nested_wrappers() {
    let (decoded, left) = decode_all(&[25, 19, 15, 14, 7]);
    let expected = TypeDesc::Option(Box::new(TypeDesc::Vector(Box::new(TypeDesc::Ref(
        Box::new(TypeDesc::String),
    )))));
    assert_eq!(decoded, Ok(expected));
    assert_eq!(left, 1);
}

#[test]
fn decode_function_parameter() {
    // fn(fn() -> (), bool) -> Vec<u8>, shim index 7
    let bytes = [11, 7, 2, 11, 3, 0, 27, 27, 10, 19, 1, 27];
    let inner = FunctionType {
        params: vec![],
        shim_idx: 3,
        ret: TypeDesc::Unit,
        inner_ret: Some(TypeDesc::Unit),
    };
    let expected = FunctionType {
        params: vec![TypeDesc::Function(Box::new(inner)), TypeDesc::Boolean],
        shim_idx: 7,
        ret: TypeDesc::Vector(Box::new(TypeDesc::U8)),
        inner_ret: Some(TypeDesc::Unit),
    };
    let (decoded, left) = decode_all(&bytes);
    assert_eq!(decoded, Ok(TypeDesc::Function(Box::new(expected))));
    assert_eq!(left, 0);
}

#[test]
fn decode_unsupported_tags_by_name() {
    let names = vec![
        (12u8, "closure"),
        (13, "cached_string"),
        (17, "long_ref"),
        (20, "extern_ref"),
        (21, "named_extern_ref"),
        (22, "enum"),
        (23, "struct"),
        (26, "result"),
        (28, "clamped"),
        (29, "undefined"),
        (200, "undefined"),
        (255, "undefined"),
    ];
    for (tag, name) in names {
        let (decoded, _) = decode_all(&[tag, 4, 4]);
        assert_eq!(decoded, Err(Error::UnsupportedType(name.to_string())));
    }
}

#[test]
fn decode_unsupported_inside_function() {
    let (decoded, _) = decode_all(&[11, 0, 2, 4, 22, 4, 27]);
    assert_eq!(decoded, Err(Error::UnsupportedType("enum".to_string())));
}

#[test]
fn decode_truncated_streams() {
    assert_eq!(decode_all(&[]).0, Err(Error::CorruptFunctionDesc));
    assert_eq!(decode_all(&[15]).0, Err(Error::CorruptFunctionDesc));
    assert_eq!(decode_all(&[11]).0, Err(Error::CorruptFunctionDesc));
    assert_eq!(decode_all(&[11, 0]).0, Err(Error::CorruptFunctionDesc));
    assert_eq!(decode_all(&[11, 0, 1]).0, Err(Error::CorruptFunctionDesc));
    assert_eq!(decode_all(&[11, 0, 1, 4]).0, Err(Error::CorruptFunctionDesc));
    assert_eq!(decode_all(&[11, 0, 1, 4, 4]).0, Err(Error::CorruptFunctionDesc));
    assert_eq!(decode_all(&[11, 0, 2, 4, 4, 27]).0, Err(Error::CorruptFunctionDesc));
}

#[test]
fn decode_signature_payload() {
    let mut rest: &[u8] = &[9, 0, 10, 27, 99];
    let decoded = FunctionType::decode(&mut rest);
    let expected = FunctionType {
        params: vec![],
        shim_idx: 9,
        ret: TypeDesc::Boolean,
        inner_ret: Some(TypeDesc::Unit),
    };
    assert_eq!(decoded, Ok(expected));
    assert_eq!(rest, &[99]);
}

#[test]
fn decode_many_parameters() {
    let mut bytes = vec![11u8, 1, 255];
    for _ in 0..255 {
        bytes.push(5);
    }
    bytes.push(27);
    bytes.push(27);
    let (decoded, left) = decode_all(&bytes);
    match decoded {
        Ok(TypeDesc::Function(f)) => {
            assert_eq!(f.arity(), 255);
            assert!(f.params.iter().all(|p| *p == TypeDesc::U32));
        }
        other => panic!("unexpected {:?}", other),
    }
    assert_eq!(left, 0);
}

#[test]
fn arity_is_number_of_parameters() {
    assert_eq!(identity_signature().arity(), 1);
}

#[test]
fn describe_function() {
    let described = FunctionRecord::describe(&[0x0B, 0x00, 0x01, 0x04, 0x04, 0x1B]);
    assert_eq!(described, Ok((1, identity_signature())));
}

#[test]
fn describe_rejects_other_descriptors() {
    assert_eq!(FunctionRecord::describe(&[4]), Err(Error::NotAFunction));
    assert_eq!(FunctionRecord::describe(&[25, 4]), Err(Error::NotAFunction));
    assert_eq!(FunctionRecord::describe(&[]), Err(Error::CorruptFunctionDesc));
    assert_eq!(
        FunctionRecord::describe(&[13]),
        Err(Error::UnsupportedType("cached_string".to_string()))
    );
}

#[test]
fn new_function_record() {
    let row = FunctionRecord::new("id", "/blobs/id_1.wasm", "/blobs/id_1.wasm", &[11, 0, 2, 4, 14, 10, 27])
        .unwrap();
    assert_eq!(row.arity, 2);
    assert_eq!(row.name, "id");
    assert_eq!(row.uri, "/blobs/id_1.wasm");
    assert_eq!(row.user_uri, "/blobs/id_1.wasm");
    assert_eq!(row.signature.params, vec![TypeDesc::I32, TypeDesc::String]);
    assert_eq!(row.signature.ret, TypeDesc::Boolean);
}

#[test]
fn new_function_record_rejects_non_function() {
    assert_eq!(FunctionRecord::new("x", "a", "b", &[10]).err(), Some(Error::NotAFunction));
}

fn stored(arity: i32) -> FunctionRecord {
    FunctionRecord {
        id: 3,
        arity,
        created_at: SystemTime::UNIX_EPOCH,
        updated_at: SystemTime::UNIX_EPOCH,
        name: "f".to_string(),
        uri: "store/f".to_string(),
        user_uri: "user/f".to_string(),
        signature: identity_signature(),
    }
}

#[test]
fn validate_args_counts_arguments() {
    let func = stored(1);
    assert_eq!(func.validate_args(&vec![Value::from(1)]), Ok(()));
    assert_eq!(func.validate_args(&vec![]), Err(Error::MismatchedArgs));
    assert_eq!(
        func.validate_args(&vec![Value::from(1), Value::from(2)]),
        Err(Error::MismatchedArgs)
    );
    assert_eq!(stored(-1).validate_args(&vec![]), Err(Error::MismatchedArgs));
    assert_eq!(stored(0).validate_args(&vec![]), Ok(()));
}

#[test]
fn deployment_answer() {
    let answer = Deployment::new(stored(1));
    assert_eq!(
        answer,
        Deployment { id: 3, name: "f".to_string(), uri: "user/f".to_string() }
    );
}

#[test]
fn error_messages() {
    assert_eq!(Error::NotFound.message(), "resource not found");
    assert_eq!(Error::DBError("down".to_string()).message(), "down");
    assert_eq!(
        Error::UnsupportedType("enum".to_string()).message(),
        "unsupported type: enum"
    );
    assert_eq!(Error::MismatchedArgs.message(), "incorrect arguments");
    assert_eq!(Error::NotAFunction.message(), "not a function");
    assert_eq!(Error::CorruptFunctionDesc.message(), "corrupt function signature");
}

use ristretto255_natives::{
    execute, pop_scalar_from_bytes, scalar_from_struct, scalar_from_valid_bytes, GasParameters,
    NativeError, Operation, StatusCode, Value, E_NON_CANONICAL_SCALAR, E_ZERO_SCALAR_INVERSE,
};

const L: [u8; 32] = [
    237, 211, 245, 92, 26, 99, 18, 88, 214, 156, 247, 162, 222, 249, 222, 20, 0, 0, 0, 0, 0, 0,
    0, 0, 0, 0, 0, 0, 0, 0, 0, 16,
];
const L_MINUS_1: [u8; 32] = [
    236, 211, 245, 92, 26, 99, 18, 88, 214, 156, 247, 162, 222, 249, 222, 20, 0, 0, 0, 0, 0, 0,
    0, 0, 0, 0, 0, 0, 0, 0, 0, 16,
];
const INV_2: [u8; 32] = [
    247, 233, 122, 46, 141, 49, 9, 44, 107, 206, 123, 81, 239, 124, 111, 10, 0, 0, 0, 0, 0, 0, 0,
    0, 0, 0, 0, 0, 0, 0, 0, 8,
];

fn gas() -> GasParameters {
    GasParameters {
        basepoint_mul: 1,
        basepoint_double_mul: 1,
        point_add: 1,
        point_clone: 1,
        point_compress: 1,
        point_decompress: 1,
        point_equals: 1,
        point_from_64_uniform_bytes: 1,
        point_identity: 1,
        point_mul: 1,
        point_double_mul: 1,
        point_neg: 1,
        point_sub: 1,
        point_parse_arg: 1,
        sha512_per_byte: 1,
        sha512_per_hash: 1,
        scalar_add: 11,
        scalar_reduced_from_32_bytes: 1,
        scalar_uniform_from_64_bytes: 1,
        scalar_from_u128: 1,
        scalar_from_u64: 1,
        scalar_invert: 1,
        scalar_is_canonical: 1,
        scalar_mul: 1,
        scalar_neg: 1,
        scalar_sub: 1,
        scalar_parse_arg: 1,
    }
}

fn small(x: u8) -> Vec<u8> {
    let mut v = vec![0u8; 32];
    v[0] = x;
    v
}

fn run(op: Operation, args: Vec<Value>) -> Result<Value, NativeError> {
    let mut args = args;
    execute(&gas(), op, &mut args).result
}

fn bytes(v: &[u8]) -> Value {
    Value::Bytes(v.to_vec())
}

#[test]
fn scalar_add_small() {
    let r = run(Operation::ScalarAdd, vec![bytes(&small(2)), bytes(&small(3))]);
    assert_eq!(r, Ok(bytes(&small(5))));
}

#[test]
fn scalar_add_wraps_at_group_order() {
    let r = run(Operation::ScalarAdd, vec![bytes(&L_MINUS_1), bytes(&small(2))]);
    assert_eq!(r, Ok(bytes(&small(1))));
}

#[test]
fn scalar_sub_below_zero() {
    let r = run(Operation::ScalarSub, vec![bytes(&small(0)), bytes(&small(1))]);
    assert_eq!(r, Ok(bytes(&L_MINUS_1)));
}

#[test]
fn scalar_sub_keeps_order() {
    let r = run(Operation::ScalarSub, vec![bytes(&small(9)), bytes(&small(4))]);
    assert_eq!(r, Ok(bytes(&small(5))));
}

#[test]
fn scalar_mul_small() {
    let r = run(Operation::ScalarMul, vec![bytes(&small(7)), bytes(&small(9))]);
    assert_eq!(r, Ok(bytes(&small(63))));
}

#[test]
fn scalar_neg_one() {
    let r = run(Operation::ScalarNeg, vec![bytes(&small(1))]);
    assert_eq!(r, Ok(bytes(&L_MINUS_1)));
}

#[test]
fn scalar_invert_two() {
    let r = run(Operation::ScalarInvert, vec![bytes(&small(2))]);
    assert_eq!(r, Ok(bytes(&INV_2)));
}

#[test]
fn scalar_invert_zero_is_refused() {
    let r = run(Operation::ScalarInvert, vec![bytes(&small(0))]);
    assert_eq!(r, Err(NativeError::Abort { code: E_ZERO_SCALAR_INVERSE }));
}

#[test]
fn scalar_field_laws_on_values() {
    let a = bytes(&INV_2);
    let b = bytes(&small(200));
    let c = bytes(&L_MINUS_1);
    let b_plus_c = run(Operation::ScalarAdd, vec![b.clone(), c.clone()]).unwrap();
    let left = run(Operation::ScalarMul, vec![a.clone(), b_plus_c]).unwrap();
    let ab = run(Operation::ScalarMul, vec![a.clone(), b]).unwrap();
    let ac = run(Operation::ScalarMul, vec![a, c.clone()]).unwrap();
    let right = run(Operation::ScalarAdd, vec![ab, ac]).unwrap();
    assert_eq!(left, right);
    let c_inv = run(Operation::ScalarInvert, vec![c.clone()]).unwrap();
    assert_eq!(run(Operation::ScalarMul, vec![c, c_inv]), Ok(bytes(&small(1))));
}

#[test]
fn scalar_from_u64_value() {
    let r = run(Operation::ScalarFromU64, vec![Value::U64(258)]);
    let mut e = small(2);
    e[1] = 1;
    assert_eq!(r, Ok(Value::Bytes(e)));
}

#[test]
fn scalar_from_u128_max() {
    let r = run(Operation::ScalarFromU128, vec![Value::U128(u128::MAX)]);
    let mut e = vec![255u8; 16];
    e.extend_from_slice(&[0u8; 16]);
    assert_eq!(r, Ok(Value::Bytes(e)));
}

#[test]
fn scalar_from_u64_wrong_kind() {
    let r = run(Operation::ScalarFromU64, vec![Value::U128(1)]);
    assert_eq!(r, Err(NativeError::InvariantViolation { status: StatusCode::InternalTypeError }));
}

#[test]
fn scalar_reduced_from_32_bytes_of_ones() {
    let r = run(Operation::ScalarReducedFrom32Bytes, vec![bytes(&[0xff; 32])]);
    let e: [u8; 32] = [
        28, 149, 152, 141, 116, 49, 236, 214, 112, 207, 125, 115, 244, 91, 239, 198, 254, 255,
        255, 255, 255, 255, 255, 255, 255, 255, 255, 255, 255, 255, 255, 15,
    ];
    assert_eq!(r, Ok(bytes(&e)));
}

#[test]
fn scalar_reduced_from_group_order_is_zero() {
    let r = run(Operation::ScalarReducedFrom32Bytes, vec![bytes(&L)]);
    assert_eq!(r, Ok(bytes(&small(0))));
}

#[test]
fn scalar_uniform_from_64_bytes_of_ones() {
    let r = run(Operation::ScalarUniformFrom64Bytes, vec![bytes(&[0xff; 64])]);
    let e: [u8; 32] = [
        0, 15, 156, 68, 227, 17, 6, 164, 71, 147, 133, 104, 167, 27, 14, 208, 101, 190, 245, 23,
        210, 115, 236, 206, 61, 154, 48, 124, 27, 65, 153, 3,
    ];
    assert_eq!(r, Ok(bytes(&e)));
}

#[test]
fn scalar_uniform_wrong_length_is_internal() {
    let r = run(Operation::ScalarUniformFrom64Bytes, vec![bytes(&[0xff; 32])]);
    assert_eq!(r, Err(NativeError::InvariantViolation { status: StatusCode::InternalTypeError }));
}

#[test]
fn scalar_from_sha512_abc() {
    let r = run(Operation::ScalarFromSha512, vec![bytes(b"abc")]);
    let e: [u8; 32] = [
        209, 93, 190, 242, 154, 191, 31, 242, 159, 156, 249, 28, 75, 117, 238, 11, 177, 1, 44,
        176, 49, 217, 96, 93, 104, 78, 132, 29, 240, 52, 222, 11,
    ];
    assert_eq!(r, Ok(bytes(&e)));
}

#[test]
fn scalar_is_canonical_cases() {
    assert_eq!(run(Operation::ScalarIsCanonical, vec![bytes(&L_MINUS_1)]), Ok(Value::Bool(true)));
    assert_eq!(run(Operation::ScalarIsCanonical, vec![bytes(&L)]), Ok(Value::Bool(false)));
    assert_eq!(run(Operation::ScalarIsCanonical, vec![bytes(&[1u8; 31])]), Ok(Value::Bool(false)));
    let mut high = small(1);
    high[31] = 0x80;
    assert_eq!(run(Operation::ScalarIsCanonical, vec![Value::Bytes(high)]), Ok(Value::Bool(false)));
}

#[test]
fn non_canonical_scalar_is_user_error() {
    let r = run(Operation::ScalarNeg, vec![bytes(&L)]);
    assert_eq!(r, Err(NativeError::Abort { code: E_NON_CANONICAL_SCALAR }));
}

#[test]
fn high_bit_scalar_is_refused() {
    let mut b = small(1);
    b[31] = 0x80;
    assert_eq!(
        scalar_from_valid_bytes(b).map(|s| s.bytes),
        Err(NativeError::Abort { code: E_NON_CANONICAL_SCALAR })
    );
}

#[test]
fn scalar_from_valid_bytes_keeps_bytes() {
    let s = scalar_from_valid_bytes(L_MINUS_1.to_vec()).unwrap();
    assert_eq!(s.bytes, L_MINUS_1);
    assert_eq!(s.to_bytes(), L_MINUS_1.to_vec());
}

#[test]
fn scalar_from_valid_bytes_wrong_length() {
    assert_eq!(
        scalar_from_valid_bytes(vec![0u8; 31]).map(|s| s.bytes),
        Err(NativeError::InvariantViolation { status: StatusCode::InternalTypeError })
    );
}

#[test]
fn reduce_then_decode_is_canonical() {
    let reduced = run(Operation::ScalarReducedFrom32Bytes, vec![bytes(&[0xee; 32])]).unwrap();
    let again = run(Operation::ScalarAdd, vec![reduced.clone(), bytes(&small(0))]).unwrap();
    assert_eq!(reduced, again);
    assert_eq!(run(Operation::ScalarIsCanonical, vec![reduced]), Ok(Value::Bool(true)));
}

#[test]
fn pop_scalar_from_bytes_pops_top() {
    let mut args = vec![bytes(&small(4)), bytes(&small(9))];
    let s = pop_scalar_from_bytes(&mut args).unwrap();
    assert_eq!(s.bytes.to_vec(), small(9));
    assert_eq!(args, vec![bytes(&small(4))]);
}

#[test]
fn pop_scalar_from_empty_stack() {
    let mut args: Vec<Value> = vec![];
    assert_eq!(
        pop_scalar_from_bytes(&mut args).map(|s| s.bytes),
        Err(NativeError::InvariantViolation { status: StatusCode::MissingArgument })
    );
}

#[test]
fn scalar_from_struct_reads_data_field() {
    let s = scalar_from_struct(Value::Record(vec![small(6)])).unwrap();
    assert_eq!(s.bytes.to_vec(), small(6));
    assert_eq!(
        scalar_from_struct(Value::Record(vec![])).map(|s| s.bytes),
        Err(NativeError::InvariantViolation { status: StatusCode::InternalTypeError })
    );
    assert_eq!(
        scalar_from_struct(Value::Bytes(small(6))).map(|s| s.bytes),
        Err(NativeError::InvariantViolation { status: StatusCode::InternalTypeError })
    );
    assert_eq!(
        scalar_from_struct(Value::Record(vec![L.to_vec()])).map(|s| s.bytes),
        Err(NativeError::Abort { code: E_NON_CANONICAL_SCALAR })
    );
}

#[test]
fn scalar_cost_is_charged() {
    let mut args = vec![bytes(&small(2)), bytes(&small(3))];
    let out = execute(&gas(), Operation::ScalarAdd, &mut args);
    assert_eq!(out.cost, 11);
    let mut args = vec![bytes(&L), bytes(&small(3))];
    let out = execute(&gas(), Operation::ScalarAdd, &mut args);
    assert_eq!(out.cost, 11);
    assert!(out.result.is_err());
}

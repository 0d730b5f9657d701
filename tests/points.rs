use ristretto255_natives::{
    execute, pop_32_byte_slice, pop_64_byte_slice, GasParameters, NativeError, Operation,
    StatusCode, Value, E_DIFFERENT_NUM_POINTS_AND_SCALARS, E_INVALID_POINT_ENCODING,
    E_NON_CANONICAL_SCALAR, E_ZERO_POINTS,
};

const BASEPOINT: [u8; 32] = [
    0xe2, 0xf2, 0xae, 0x0a, 0x6a, 0xbc, 0x4e, 0x71, 0xa8, 0x84, 0xa9, 0x61, 0xc5, 0x00, 0x51,
    0x5f, 0x58, 0xe3, 0x0b, 0x6a, 0xa5, 0x82, 0xdd, 0x8d, 0xb6, 0xa6, 0x59, 0x45, 0xe0, 0x8d,
    0x2d, 0x76,
];

fn gas() -> GasParameters {
    GasParameters {
        basepoint_mul: 1,
        basepoint_double_mul: 1,
        point_add: 1,
        point_clone: 1,
        point_compress: 1,
        point_decompress: 1,
        point_equals: 1,
        point_from_64_uniform_bytes: 1,
        point_identity: 1,
        point_mul: 1,
        point_double_mul: 1,
        point_neg: 1,
        point_sub: 1,
        point_parse_arg: 1,
        sha512_per_byte: 1,
        sha512_per_hash: 1,
        scalar_add: 1,
        scalar_reduced_from_32_bytes: 1,
        scalar_uniform_from_64_bytes: 1,
        scalar_from_u128: 1,
        scalar_from_u64: 1,
        scalar_invert: 1,
        scalar_is_canonical: 1,
        scalar_mul: 1,
        scalar_neg: 1,
        scalar_sub: 1,
        scalar_parse_arg: 1,
    }
}

fn run(op: Operation, args: Vec<Value>) -> Result<Value, NativeError> {
    let mut args = args;
    execute(&gas(), op, &mut args).result
}

fn small(x: u8) -> Value {
    let mut v = vec![0u8; 32];
    v[0] = x;
    Value::Bytes(v)
}

fn hashed(tag: &[u8]) -> Value {
    run(Operation::NewPointFromSha512, vec![Value::Bytes(tag.to_vec())]).unwrap()
}

fn add(p: &Value, q: &Value) -> Value {
    run(Operation::PointAdd, vec![p.clone(), q.clone()]).unwrap()
}

fn identity() -> Value {
    run(Operation::PointIdentity, vec![]).unwrap()
}

#[test]
fn identity_is_all_zeros() {
    assert_eq!(identity(), Value::Bytes(vec![0u8; 32]));
}

#[test]
fn basepoint_mul_by_one() {
    let r = run(Operation::BasepointMul, vec![small(1)]);
    assert_eq!(r, Ok(Value::Bytes(BASEPOINT.to_vec())));
}

#[test]
fn basepoint_mul_by_two_is_doubling() {
    let b = Value::Bytes(BASEPOINT.to_vec());
    let two_b = run(Operation::BasepointMul, vec![small(2)]).unwrap();
    assert_eq!(two_b, add(&b, &b));
    assert_ne!(two_b, b);
}

#[test]
fn group_laws_on_hashed_points() {
    let p = hashed(b"first");
    let q = hashed(b"second");
    let r = hashed(b"third");
    assert_ne!(p, q);
    assert_eq!(add(&p, &q), add(&q, &p));
    assert_eq!(add(&add(&p, &q), &r), add(&p, &add(&q, &r)));
    assert_eq!(add(&p, &identity()), p);
    let neg_p = run(Operation::PointNeg, vec![p.clone()]).unwrap();
    assert_eq!(add(&p, &neg_p), identity());
    assert_eq!(run(Operation::PointSub, vec![p.clone(), p.clone()]), Ok(identity()));
    assert_eq!(run(Operation::PointSub, vec![add(&p, &q), q.clone()]), Ok(p));
}

#[test]
fn point_round_trip() {
    let c = Value::Bytes(BASEPOINT.to_vec());
    let d = run(Operation::PointDecompress, vec![c.clone()]).unwrap();
    assert_eq!(run(Operation::PointCompress, vec![d.clone()]), Ok(c.clone()));
    assert_eq!(run(Operation::PointClone, vec![d]), Ok(c));
}

#[test]
fn invalid_point_is_refused() {
    for bad in [[0xffu8; 32], {
        let mut b = [0u8; 32];
        b[0] = 1;
        b
    }] {
        let v = Value::Bytes(bad.to_vec());
        assert_eq!(
            run(Operation::PointDecompress, vec![v.clone()]),
            Err(NativeError::Abort { code: E_INVALID_POINT_ENCODING })
        );
        assert_eq!(run(Operation::PointIsCanonical, vec![v.clone()]), Ok(Value::Bool(false)));
        assert_eq!(
            run(Operation::PointNeg, vec![v]),
            Err(NativeError::Abort { code: E_INVALID_POINT_ENCODING })
        );
    }
}

#[test]
fn point_is_canonical_cases() {
    let b = Value::Bytes(BASEPOINT.to_vec());
    assert_eq!(run(Operation::PointIsCanonical, vec![b]), Ok(Value::Bool(true)));
    assert_eq!(
        run(Operation::PointIsCanonical, vec![Value::Bytes(vec![0u8; 31])]),
        Ok(Value::Bool(false))
    );
}

#[test]
fn point_wrong_length_is_internal() {
    assert_eq!(
        run(Operation::PointDecompress, vec![Value::Bytes(vec![0u8; 33])]),
        Err(NativeError::InvariantViolation { status: StatusCode::InternalTypeError })
    );
}

#[test]
fn point_equals_cases() {
    let p = hashed(b"p");
    let q = hashed(b"q");
    assert_eq!(run(Operation::PointEquals, vec![p.clone(), p.clone()]), Ok(Value::Bool(true)));
    assert_eq!(run(Operation::PointEquals, vec![p, q]), Ok(Value::Bool(false)));
}

#[test]
fn point_mul_matches_repeated_addition() {
    let p = hashed(b"p");
    let three_p = run(Operation::PointMul, vec![p.clone(), small(3)]).unwrap();
    assert_eq!(three_p, add(&add(&p, &p), &p));
}

#[test]
fn double_scalar_mul_names_agree() {
    let p = hashed(b"r");
    let q = hashed(b"s");
    let args = vec![p, q, small(11), small(13)];
    assert_eq!(run(Operation::PointDoubleMul, args.clone()), run(Operation::DoubleScalarMul, args));
}

#[test]
fn double_scalar_mul_matches_parts() {
    let p = hashed(b"p");
    let q = hashed(b"q");
    let expected = add(
        &run(Operation::PointMul, vec![p.clone(), small(5)]).unwrap(),
        &run(Operation::PointMul, vec![q.clone(), small(7)]).unwrap(),
    );
    let args = vec![p, q, small(5), small(7)];
    assert_eq!(run(Operation::PointDoubleMul, args.clone()), Ok(expected.clone()));
    assert_eq!(run(Operation::DoubleScalarMul, args), Ok(expected));
}

#[test]
fn basepoint_double_mul_matches_parts() {
    let p = hashed(b"p");
    let expected = add(
        &run(Operation::PointMul, vec![p.clone(), small(4)]).unwrap(),
        &run(Operation::BasepointMul, vec![small(9)]).unwrap(),
    );
    assert_eq!(run(Operation::BasepointDoubleMul, vec![p, small(4), small(9)]), Ok(expected));
}

fn records(xs: &[u8]) -> Value {
    Value::RecordVector(
        xs.iter()
            .map(|x| {
                let mut v = vec![0u8; 32];
                v[0] = *x;
                vec![v]
            })
            .collect(),
    )
}

fn encodings(ps: &[Value]) -> Value {
    Value::BytesVector(
        ps.iter()
            .map(|p| match p {
                Value::Bytes(b) => b.clone(),
                _ => panic!("not a point"),
            })
            .collect(),
    )
}

#[test]
fn msm_equals_sum_of_products() {
    let ps = [hashed(b"a"), hashed(b"b"), hashed(b"c")];
    let xs = [2u8, 3, 250];
    let mut expected = identity();
    for (p, x) in ps.iter().zip(xs.iter()) {
        let m = run(Operation::PointMul, vec![p.clone(), small(*x)]).unwrap();
        expected = add(&expected, &m);
    }
    let r = run(Operation::MultiScalarMul, vec![encodings(&ps), records(&xs)]);
    assert_eq!(r, Ok(expected));
}

#[test]
fn msm_single_point() {
    let p = hashed(b"a");
    let r = run(Operation::MultiScalarMul, vec![encodings(&[p.clone()]), records(&[6])]);
    assert_eq!(r, Ok(run(Operation::PointMul, vec![p, small(6)]).unwrap()));
}

#[test]
fn msm_mismatched_lengths() {
    let ps = [hashed(b"a"), hashed(b"b")];
    let r = run(Operation::MultiScalarMul, vec![encodings(&ps), records(&[1, 2, 3])]);
    assert_eq!(r, Err(NativeError::Abort { code: E_DIFFERENT_NUM_POINTS_AND_SCALARS }));
}

#[test]
fn msm_no_points() {
    let r = run(Operation::MultiScalarMul, vec![encodings(&[]), records(&[])]);
    assert_eq!(r, Err(NativeError::Abort { code: E_ZERO_POINTS }));
}

#[test]
fn msm_bad_inputs() {
    let ps = [hashed(b"a"), Value::Bytes(vec![0xff; 32])];
    let r = run(Operation::MultiScalarMul, vec![encodings(&ps), records(&[1, 2])]);
    assert_eq!(r, Err(NativeError::Abort { code: E_INVALID_POINT_ENCODING }));
    let ps = [hashed(b"a")];
    let bad = Value::RecordVector(vec![vec![vec![0xff; 32]]]);
    let r = run(Operation::MultiScalarMul, vec![encodings(&ps), bad]);
    assert_eq!(r, Err(NativeError::Abort { code: E_NON_CANONICAL_SCALAR }));
    let r = run(Operation::MultiScalarMul, vec![records(&[1]), encodings(&ps)]);
    assert_eq!(r, Err(NativeError::InvariantViolation { status: StatusCode::InternalTypeError }));
}

#[test]
fn new_point_from_uniform_bytes() {
    let p = run(Operation::NewPointFromUniformBytes, vec![Value::Bytes(vec![7u8; 64])]).unwrap();
    assert_eq!(run(Operation::PointIsCanonical, vec![p.clone()]), Ok(Value::Bool(true)));
    let q = run(Operation::NewPointFromUniformBytes, vec![Value::Bytes(vec![8u8; 64])]).unwrap();
    assert_ne!(p, q);
    assert_eq!(
        run(Operation::NewPointFromUniformBytes, vec![Value::Bytes(vec![7u8; 63])]),
        Err(NativeError::InvariantViolation { status: StatusCode::InternalTypeError })
    );
}

#[test]
fn hashed_point_is_deterministic() {
    assert_eq!(hashed(b"x"), hashed(b"x"));
    assert_ne!(hashed(b"x"), hashed(b"y"));
}

#[test]
fn pop_fixed_slices() {
    let mut args = vec![Value::Bytes(vec![1u8; 64]), Value::Bytes(vec![2u8; 32])];
    assert_eq!(pop_32_byte_slice(&mut args), Ok([2u8; 32]));
    assert_eq!(pop_64_byte_slice(&mut args), Ok([1u8; 64]));
    assert_eq!(
        pop_32_byte_slice(&mut args),
        Err(NativeError::InvariantViolation { status: StatusCode::MissingArgument })
    );
    let mut args = vec![Value::Bytes(vec![1u8; 31])];
    assert_eq!(
        pop_32_byte_slice(&mut args),
        Err(NativeError::InvariantViolation { status: StatusCode::InternalTypeError })
    );
    assert!(args.is_empty());
    let mut args = vec![Value::U64(3)];
    assert_eq!(
        pop_64_byte_slice(&mut args),
        Err(NativeError::InvariantViolation { status: StatusCode::InternalTypeError })
    );
}

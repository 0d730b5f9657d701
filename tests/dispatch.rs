use ristretto255_natives::{
    all_operations, make_all, operation_cost, DispatchError, Features, GasParameters, Operation,
    Value, NUM_OPERATIONS,
};

fn gas(point_mul: u64) -> GasParameters {
    GasParameters {
        basepoint_mul: 3,
        basepoint_double_mul: 3,
        point_add: 5,
        point_clone: 3,
        point_compress: 3,
        point_decompress: 4,
        point_equals: 3,
        point_from_64_uniform_bytes: 7,
        point_identity: 3,
        point_mul,
        point_double_mul: 3,
        point_neg: 3,
        point_sub: 3,
        point_parse_arg: 0,
        sha512_per_byte: 2,
        sha512_per_hash: 10,
        scalar_add: 3,
        scalar_reduced_from_32_bytes: 3,
        scalar_uniform_from_64_bytes: 9,
        scalar_from_u128: 3,
        scalar_from_u64: 3,
        scalar_invert: 3,
        scalar_is_canonical: 3,
        scalar_mul: 3,
        scalar_neg: 3,
        scalar_sub: 3,
        scalar_parse_arg: 0,
    }
}

#[test]
fn msm_gas_formula() {
    let g = gas(100);
    assert_eq!(g.multi_scalar_mul_gas(4), 200);
    assert_eq!(g.multi_scalar_mul_gas(2), 200);
    assert_eq!(g.multi_scalar_mul_gas(8), 300);
    assert_eq!(g.multi_scalar_mul_gas(10), 400);
    assert_eq!(g.multi_scalar_mul_gas(200), 2700);
    assert_eq!(g.multi_scalar_mul_gas(256), 3200);
    assert_eq!(g.multi_scalar_mul_gas(3), 200);
    assert_eq!(g.multi_scalar_mul_gas(5), 300);
    assert!(g.multi_scalar_mul_gas(200) > g.multi_scalar_mul_gas(10));
}

#[test]
fn msm_gas_never_decreases_with_size() {
    let g = gas(1);
    let mut last = 0;
    for n in 2..400usize {
        let c = g.multi_scalar_mul_gas(n);
        assert!(c >= last, "size {}", n);
        assert!(c as f64 >= n as f64 / (n as f64).log2() - 1e-9);
        assert!((c as f64) < n as f64 / (n as f64).log2() + 1.0);
        last = c;
    }
}

#[test]
fn msm_gas_saturates() {
    let g = gas(u64::MAX / 2);
    assert_eq!(g.multi_scalar_mul_gas(4), u64::MAX - 1);
    assert_eq!(g.multi_scalar_mul_gas(8), u64::MAX);
}

#[test]
fn hash_cost_counts_bytes() {
    let g = gas(1);
    let args = vec![Value::Bytes(vec![0u8; 5])];
    assert_eq!(operation_cost(&g, Operation::NewPointFromSha512, &args), 27);
    assert_eq!(operation_cost(&g, Operation::ScalarFromSha512, &args), 29);
    assert_eq!(operation_cost(&g, Operation::PointAdd, &args), 5);
}

#[test]
fn msm_cost_by_size() {
    let mut g = gas(100);
    g.point_parse_arg = 1;
    g.scalar_parse_arg = 2;
    let args = vec![Value::BytesVector(vec![vec![0u8; 32]; 4]), Value::RecordVector(vec![])];
    assert_eq!(operation_cost(&g, Operation::MultiScalarMul, &args), 212);
    let args = vec![Value::BytesVector(vec![vec![0u8; 32]; 1]), Value::RecordVector(vec![])];
    assert_eq!(operation_cost(&g, Operation::MultiScalarMul, &args), 103);
}

#[test]
fn identifiers_round_trip() {
    let ops = all_operations();
    assert_eq!(ops.len(), NUM_OPERATIONS);
    for (i, op) in ops.iter().enumerate() {
        assert_eq!(op.index(), i as u64);
        assert_eq!(Operation::from_index(i as u64), Some(*op));
    }
    assert_eq!(Operation::from_index(NUM_OPERATIONS as u64), None);
    let mut names: Vec<&str> = ops.iter().map(|o| o.name()).collect();
    names.sort();
    names.dedup();
    assert_eq!(names.len(), NUM_OPERATIONS);
}

#[test]
fn unknown_operation_is_refused() {
    let table = make_all(gas(1), Features::all_enabled());
    let mut args = vec![Value::U64(1)];
    assert_eq!(table.dispatch(99, &mut args).err(), Some(DispatchError::UnknownOperation));
    assert_eq!(args, vec![Value::U64(1)]);
}

#[test]
fn feature_gating() {
    let mut features = Features::all_enabled();
    let add = Operation::ScalarAdd.index();
    let from_u64 = Operation::ScalarFromU64.index();
    features.set_enabled(Operation::ScalarAdd, false);
    assert!(!features.is_enabled(Operation::ScalarAdd));
    assert!(features.is_enabled(Operation::ScalarFromU64));
    let table = make_all(gas(1), features.clone());
    let mut two = vec![0u8; 32];
    two[0] = 2;
    let mut args = vec![Value::Bytes(two.clone()), Value::Bytes(two.clone())];
    assert_eq!(table.dispatch(add, &mut args).err(), Some(DispatchError::FeatureDisabled));
    assert_eq!(args.len(), 2);
    let mut u = vec![Value::U64(2)];
    let out = table.dispatch(from_u64, &mut u).unwrap();
    assert_eq!(out.result, Ok(Value::Bytes(two.clone())));
    assert_eq!(out.cost, 3);

    features.set_enabled(Operation::ScalarAdd, true);
    let table = make_all(gas(1), features);
    let out = table.dispatch(add, &mut args).unwrap();
    let mut four = vec![0u8; 32];
    four[0] = 4;
    assert_eq!(out.result, Ok(Value::Bytes(four)));
    let mut u = vec![Value::U64(2)];
    assert_eq!(table.dispatch(from_u64, &mut u).unwrap().result, Ok(Value::Bytes(two)));
}

//! The handler of each catalog operation: it pops its arguments, calls the curve library
//! once, and encodes the result for the host VM.

use vstd::prelude::*;
use crate::catalog::{
    Operation, Outcome, encodes_scalar, op_result, operation_cost, point_pair, scalar_pair,
    op_cost, msm_shapes, arity, after_pops, first_failure, scalar_record_check, point_check, lemma_first_failure_prefix,
};
use crate::cost::GasParameters;
use crate::error::{
    NativeError, E_INVALID_POINT_ENCODING, abort, StatusCode, E_DIFFERENT_NUM_POINTS_AND_SCALARS, E_ZERO_POINTS,
    E_ZERO_SCALAR_INVERSE,
};
use crate::point;
use crate::point::{is_ristretto_encoding, encodings_equal, check_point_encoding, point_value, pop_point};
use crate::scalar;
use crate::scalar::{
    Scalar, pop_scalar_from_bytes, scalar_from_fields, scalar_bytes_arg,
};
use crate::value::{
    Value, array_to_vec, bytes_arg, lemma_popped_nth, pop_bytes, pop_32_byte_slice, pop_64_byte_slice,
    bytes_to_32, popped,
};

verus! {

/// Encodes a canonical scalar as a stack value.
pub fn scalar_value(s: &Scalar) -> (r: Value)
    requires
        s.is_canonical(),
    ensures
        encodes_scalar(r, s.value()),
        r is Bytes && r->Bytes_0@ == s@,
{
    Value::Bytes(s.to_bytes())
}

/// Pops two scalars; the result lists the deeper one first.
pub fn pop_two_scalars(args: &mut Vec<Value>) -> (r: Result<(Scalar, Scalar), NativeError>)
    ensures
        match r {
            Ok((a, b)) => scalar_pair(old(args)@) == Ok::<(nat, nat), NativeError>((a.value(), b.value()))
                && a.is_canonical() && b.is_canonical()
                && scalar_bytes_arg(old(args)@, 0) == Ok::<Seq<u8>, NativeError>(b@)
                && scalar_bytes_arg(old(args)@, 1) == Ok::<Seq<u8>, NativeError>(a@),
            Err(e) => scalar_pair(old(args)@) == Err::<(nat, nat), NativeError>(e),
        },
        r is Ok ==> final(args)@ == after_pops(old(args)@, 2),
{
    let ghost a0 = args@;
    proof { lemma_popped_nth(a0, 0); }
    let b = pop_scalar_from_bytes(args)?;
    let a = pop_scalar_from_bytes(args)?;
    Ok((a, b))
}

/// Pops two points; the result lists the deeper one first, each as encoding and point.
pub fn pop_two_points(args: &mut Vec<Value>) -> (r: Result<([u8; 32], [u8; 32]), NativeError>)
    ensures
        match r {
            Ok((p, q)) => point_pair(old(args)@) == Ok::<(Seq<u8>, Seq<u8>), NativeError>((p@, q@))
            && is_ristretto_encoding(p@) && is_ristretto_encoding(q@),
            Err(e) => point_pair(old(args)@) == Err::<(Seq<u8>, Seq<u8>), NativeError>(e),
        },
        r is Ok ==> final(args)@ == after_pops(old(args)@, 2),
{
    let ghost a0 = args@;
    proof { lemma_popped_nth(a0, 0); }
    let q = pop_point(args)?;
    let p = pop_point(args)?;
    Ok((p, q))
}

pub fn native_point_is_canonical(args: &mut Vec<Value>) -> (r: Result<Value, NativeError>)
    ensures
        op_result(Operation::PointIsCanonical, old(args)@, r),
        r is Ok ==> final(args)@ == after_pops(old(args)@, 1),
{
    let bytes = pop_bytes(args)?;
    if bytes.len() != 32 {
        return Ok(Value::Bool(false));
    }
    let c = bytes_to_32(&bytes)?;
    Ok(Value::Bool(check_point_encoding(c).is_ok()))
}

pub fn native_point_identity(args: &mut Vec<Value>) -> (r: Result<Value, NativeError>)
    ensures
        op_result(Operation::PointIdentity, old(args)@, r),
        r is Ok ==> final(args)@ == after_pops(old(args)@, 0),
{
    Ok(Value::Bytes(array_to_vec(&point::identity())))
}

/// Decompression, cloning and compression of a point held in compressed form: the point is
/// checked and its encoding handed back.
pub fn native_point_decompress(args: &mut Vec<Value>) -> (r: Result<Value, NativeError>)
    ensures
        op_result(Operation::PointDecompress, old(args)@, r),
        r is Ok ==> final(args)@ == after_pops(old(args)@, 1),
        op_result(Operation::PointClone, old(args)@, r),
        op_result(Operation::PointCompress, old(args)@, r),
{
    let c = pop_point(args)?;
    Ok(Value::Bytes(array_to_vec(&c)))
}

pub fn native_point_mul(args: &mut Vec<Value>) -> (r: Result<Value, NativeError>)
    ensures
        op_result(Operation::PointMul, old(args)@, r),
        r is Ok ==> final(args)@ == after_pops(old(args)@, 2),
{
    let ghost a0 = args@;
    proof { lemma_popped_nth(a0, 0); }
    let s = pop_scalar_from_bytes(args)?;
    let p = pop_point(args)?;
    Ok(point_value(&point::mul(&p, &s)))
}

/// `s1 * p1 + s2 * p2` for the stack `[p1, p2, s1, s2]`.
pub fn native_double_scalar_mul(args: &mut Vec<Value>) -> (r: Result<Value, NativeError>)
    ensures
        op_result(Operation::PointDoubleMul, old(args)@, r),
        r is Ok ==> final(args)@ == after_pops(old(args)@, 4),
        op_result(Operation::DoubleScalarMul, old(args)@, r),
{
    let ghost a0 = args@;
    proof {
        lemma_popped_nth(a0, 0);
        lemma_popped_nth(a0, 1);
        lemma_popped_nth(a0, 2);
        lemma_popped_nth(popped(a0), 0);
        lemma_popped_nth(popped(a0), 1);
        lemma_popped_nth(popped(popped(a0)), 0);
    }
    let (s1, s2) = pop_two_scalars(args)?;
    let (p1, p2) = pop_two_points(args)?;
    let mut scalars: Vec<Scalar> = Vec::new();
    scalars.push(s1);
    scalars.push(s2);
    let mut points: Vec<[u8; 32]> = Vec::new();
    points.push(p1);
    points.push(p2);
    let r = point::vartime_multiscalar_mul(&scalars, &points);
    assert(scalars@.map_values(|s: Scalar| s@) =~= seq![s1@, s2@]);
    assert(points@.map_values(|c: [u8; 32]| c@) =~= seq![p1@, p2@]);
    Ok(point_value(&r))
}

pub fn native_point_equals(args: &mut Vec<Value>) -> (r: Result<Value, NativeError>)
    ensures
        op_result(Operation::PointEquals, old(args)@, r),
        r is Ok ==> final(args)@ == after_pops(old(args)@, 2),
{
    let (p, q) = pop_two_points(args)?;
    Ok(Value::Bool(encodings_equal(&p, &q)))
}

pub fn native_point_neg(args: &mut Vec<Value>) -> (r: Result<Value, NativeError>)
    ensures
        op_result(Operation::PointNeg, old(args)@, r),
        r is Ok ==> final(args)@ == after_pops(old(args)@, 1),
{
    let p = pop_point(args)?;
    Ok(point_value(&point::neg(&p)))
}

pub fn native_point_add(args: &mut Vec<Value>) -> (r: Result<Value, NativeError>)
    ensures
        op_result(Operation::PointAdd, old(args)@, r),
        r is Ok ==> final(args)@ == after_pops(old(args)@, 2),
{
    let (p, q) = pop_two_points(args)?;
    Ok(point_value(&point::add(&p, &q)))
}

pub fn native_point_sub(args: &mut Vec<Value>) -> (r: Result<Value, NativeError>)
    ensures
        op_result(Operation::PointSub, old(args)@, r),
        r is Ok ==> final(args)@ == after_pops(old(args)@, 2),
{
    let (p, q) = pop_two_points(args)?;
    Ok(point_value(&point::sub(&p, &q)))
}

pub fn native_basepoint_mul(args: &mut Vec<Value>) -> (r: Result<Value, NativeError>)
    ensures
        op_result(Operation::BasepointMul, old(args)@, r),
        r is Ok ==> final(args)@ == after_pops(old(args)@, 1),
{
    let s = pop_scalar_from_bytes(args)?;
    Ok(point_value(&point::basepoint_mul(&s)))
}

/// `a * p + b * basepoint` for the stack `[p, a, b]`.
pub fn native_basepoint_double_mul(args: &mut Vec<Value>) -> (r: Result<Value, NativeError>)
    ensures
        op_result(Operation::BasepointDoubleMul, old(args)@, r),
        r is Ok ==> final(args)@ == after_pops(old(args)@, 3),
{
    let ghost a0 = args@;
    proof {
        lemma_popped_nth(a0, 0);
        lemma_popped_nth(a0, 1);
        lemma_popped_nth(popped(a0), 0);
    }
    let (a, b) = pop_two_scalars(args)?;
    let p = pop_point(args)?;
    Ok(point_value(&point::basepoint_double_mul(&a, &p, &b)))
}

pub fn native_new_point_from_sha512(args: &mut Vec<Value>) -> (r: Result<Value, NativeError>)
    ensures
        op_result(Operation::NewPointFromSha512, old(args)@, r),
        r is Ok ==> final(args)@ == after_pops(old(args)@, 1),
{
    let bytes = pop_bytes(args)?;
    Ok(point_value(&point::hash_from_bytes(bytes.as_slice())))
}

pub fn native_new_point_from_64_uniform_bytes(args: &mut Vec<Value>) -> (r: Result<Value, NativeError>)
    ensures
        op_result(Operation::NewPointFromUniformBytes, old(args)@, r),
        r is Ok ==> final(args)@ == after_pops(old(args)@, 1),
{
    let b = pop_64_byte_slice(args)?;
    Ok(point_value(&point::from_uniform_bytes(&b)))
}

pub fn native_scalar_is_canonical(args: &mut Vec<Value>) -> (r: Result<Value, NativeError>)
    ensures
        op_result(Operation::ScalarIsCanonical, old(args)@, r),
        r is Ok ==> final(args)@ == after_pops(old(args)@, 1),
{
    let bytes = pop_bytes(args)?;
    if bytes.len() != 32 {
        return Ok(Value::Bool(false));
    }
    let c = bytes_to_32(&bytes)?;
    Ok(Value::Bool(scalar::decode_canonical(c).is_some()))
}

pub fn native_scalar_invert(args: &mut Vec<Value>) -> (r: Result<Value, NativeError>)
    ensures
        op_result(Operation::ScalarInvert, old(args)@, r),
        r is Ok ==> final(args)@ == after_pops(old(args)@, 1),
{
    let s = pop_scalar_from_bytes(args)?;
    if scalar::is_zero(&s) {
        return Err(NativeError::Abort { code: E_ZERO_SCALAR_INVERSE });
    }
    Ok(scalar_value(&scalar::dalek_invert(&s)))
}

pub fn native_scalar_from_sha512(args: &mut Vec<Value>) -> (r: Result<Value, NativeError>)
    ensures
        op_result(Operation::ScalarFromSha512, old(args)@, r),
        r is Ok ==> final(args)@ == after_pops(old(args)@, 1),
{
    let bytes = pop_bytes(args)?;
    let s = scalar::dalek_hash_from_bytes(bytes.as_slice());
    Ok(scalar_value(&s))
}

pub fn native_scalar_mul(args: &mut Vec<Value>) -> (r: Result<Value, NativeError>)
    ensures
        op_result(Operation::ScalarMul, old(args)@, r),
        r is Ok ==> final(args)@ == after_pops(old(args)@, 2),
{
    let (a, b) = pop_two_scalars(args)?;
    Ok(scalar_value(&scalar::dalek_mul(&a, &b)))
}

pub fn native_scalar_add(args: &mut Vec<Value>) -> (r: Result<Value, NativeError>)
    ensures
        op_result(Operation::ScalarAdd, old(args)@, r),
        r is Ok ==> final(args)@ == after_pops(old(args)@, 2),
{
    let (a, b) = pop_two_scalars(args)?;
    Ok(scalar_value(&scalar::dalek_add(&a, &b)))
}

pub fn native_scalar_sub(args: &mut Vec<Value>) -> (r: Result<Value, NativeError>)
    ensures
        op_result(Operation::ScalarSub, old(args)@, r),
        r is Ok ==> final(args)@ == after_pops(old(args)@, 2),
{
    let (a, b) = pop_two_scalars(args)?;
    Ok(scalar_value(&scalar::dalek_sub(&a, &b)))
}

pub fn native_scalar_neg(args: &mut Vec<Value>) -> (r: Result<Value, NativeError>)
    ensures
        op_result(Operation::ScalarNeg, old(args)@, r),
        r is Ok ==> final(args)@ == after_pops(old(args)@, 1),
{
    let a = pop_scalar_from_bytes(args)?;
    Ok(scalar_value(&scalar::dalek_neg(&a)))
}

pub fn native_scalar_from_u64(args: &mut Vec<Value>) -> (r: Result<Value, NativeError>)
    ensures
        op_result(Operation::ScalarFromU64, old(args)@, r),
        r is Ok ==> final(args)@ == after_pops(old(args)@, 1),
{
    match args.pop() {
        Some(Value::U64(x)) => Ok(scalar_value(&scalar::scalar_from_u64(x))),
        Some(_) => Err(NativeError::InvariantViolation { status: StatusCode::InternalTypeError }),
        None => Err(NativeError::InvariantViolation { status: StatusCode::MissingArgument }),
    }
}

pub fn native_scalar_from_u128(args: &mut Vec<Value>) -> (r: Result<Value, NativeError>)
    ensures
        op_result(Operation::ScalarFromU128, old(args)@, r),
        r is Ok ==> final(args)@ == after_pops(old(args)@, 1),
{
    match args.pop() {
        Some(Value::U128(x)) => Ok(scalar_value(&scalar::scalar_from_u128(x))),
        Some(_) => Err(NativeError::InvariantViolation { status: StatusCode::InternalTypeError }),
        None => Err(NativeError::InvariantViolation { status: StatusCode::MissingArgument }),
    }
}

pub fn native_scalar_reduced_from_32_bytes(args: &mut Vec<Value>) -> (r: Result<Value, NativeError>)
    ensures
        op_result(Operation::ScalarReducedFrom32Bytes, old(args)@, r),
        r is Ok ==> final(args)@ == after_pops(old(args)@, 1),
{
    let b = pop_32_byte_slice(args)?;
    Ok(scalar_value(&scalar::dalek_from_bytes_mod_order(b)))
}

pub fn native_scalar_uniform_from_64_bytes(args: &mut Vec<Value>) -> (r: Result<Value, NativeError>)
    ensures
        op_result(Operation::ScalarUniformFrom64Bytes, old(args)@, r),
        r is Ok ==> final(args)@ == after_pops(old(args)@, 1),
{
    let b = pop_64_byte_slice(args)?;
    Ok(scalar_value(&scalar::dalek_from_bytes_mod_order_wide(&b)))
}

/// Multi-scalar multiplication: the sum of `scalars[i] * points[i]` for the stack
/// `[points, scalars]`, where the points are compressed and the scalars are scalar records.
pub fn native_multi_scalar_mul(args: &mut Vec<Value>) -> (r: Result<Value, NativeError>)
    ensures
        op_result(Operation::MultiScalarMul, old(args)@, r),
        r is Ok ==> final(args)@ == after_pops(old(args)@, 2),
{
    let ghost a0 = args@;
    let scalar_records = match args.pop() {
        Some(Value::RecordVector(s)) => s,
        Some(_) => return Err(NativeError::InvariantViolation { status: StatusCode::InternalTypeError }),
        None => return Err(NativeError::InvariantViolation { status: StatusCode::MissingArgument }),
    };
    let encodings = match args.pop() {
        Some(Value::BytesVector(p)) => p,
        Some(_) => return Err(NativeError::InvariantViolation { status: StatusCode::InternalTypeError }),
        None => return Err(NativeError::InvariantViolation { status: StatusCode::MissingArgument }),
    };
    if encodings.len() != scalar_records.len() {
        return Err(NativeError::Abort { code: E_DIFFERENT_NUM_POINTS_AND_SCALARS });
    }
    if encodings.len() == 0 {
        return Err(NativeError::Abort { code: E_ZERO_POINTS });
    }
    let ghost check_scalar = |f: Vec<Vec<u8>>| scalar_record_check(f);
    let ghost check_point = |b: Vec<u8>| point_check(b);
    let mut scalars: Vec<Scalar> = Vec::new();
    let mut i: usize = 0;
    while i < scalar_records.len()
        invariant
            a0 == old(args)@,
            msm_shapes(a0) == Ok::<(Seq<Vec<u8>>, Seq<Vec<Vec<u8>>>), NativeError>((encodings@, scalar_records@)),
            encodings@.len() == scalar_records@.len(),
            encodings@.len() > 0,
            i <= scalar_records@.len(),
            scalars@.len() == i,
            forall|j: int| 0 <= j < i ==> (#[trigger] scalars@[j]).is_canonical(),
            forall|j: int| 0 <= j < i ==> (#[trigger] scalars@[j])@ == scalar_records@[j]@[0]@,
            first_failure(scalar_records@.take(i as int), check_scalar) == Ok::<(), NativeError>(()),
            check_scalar == (|f: Vec<Vec<u8>>| scalar_record_check(f)),
        decreases scalar_records@.len() - i,
    {
        assert(scalar_records@.take(i + 1).drop_last() =~= scalar_records@.take(i as int));
        let s = match scalar_from_fields(&scalar_records[i]) {
            Ok(s) => s,
            Err(e) => {
                proof {
                    lemma_first_failure_prefix(scalar_records@, i + 1, check_scalar);
                }
                return Err(e);
            },
        };
        scalars.push(s);
        i = i + 1;
    }
    assert(scalar_records@.take(i as int) =~= scalar_records@);
    let mut points: Vec<[u8; 32]> = Vec::new();
    let mut k: usize = 0;
    while k < encodings.len()
        invariant
            a0 == old(args)@,
            msm_shapes(a0) == Ok::<(Seq<Vec<u8>>, Seq<Vec<Vec<u8>>>), NativeError>((encodings@, scalar_records@)),
            encodings@.len() == scalar_records@.len(),
            encodings@.len() > 0,
            first_failure(scalar_records@, check_scalar) == Ok::<(), NativeError>(()),
            check_scalar == (|f: Vec<Vec<u8>>| scalar_record_check(f)),
            check_point == (|b: Vec<u8>| point_check(b)),
            scalars@.len() == encodings@.len(),
            forall|j: int| 0 <= j < scalars@.len() ==> (#[trigger] scalars@[j]).is_canonical(),
            forall|j: int| 0 <= j < scalars@.len() ==> (#[trigger] scalars@[j])@ == scalar_records@[j]@[0]@,
            k <= encodings@.len(),
            points@.len() == k,
            forall|j: int| 0 <= j < k ==> (#[trigger] points@[j])@ == encodings@[j]@,
            forall|j: int| 0 <= j < k ==> is_ristretto_encoding((#[trigger] points@[j])@),
            first_failure(encodings@.take(k as int), check_point) == Ok::<(), NativeError>(()),
        decreases encodings@.len() - k,
    {
        assert(encodings@.take(k + 1).drop_last() =~= encodings@.take(k as int));
        let c = match bytes_to_32(&encodings[k]) {
            Ok(c) => c,
            Err(e) => {
                proof {
                    lemma_first_failure_prefix(encodings@, k + 1, check_point);
                }
                return Err(e);
            },
        };
        let c = match check_point_encoding(c) {
            Ok(c) => c,
            Err(e) => {
                proof {
                    lemma_first_failure_prefix(encodings@, k + 1, check_point);
                }
                return Err(e);
            },
        };
        points.push(c);
        k = k + 1;
    }
    assert(encodings@.take(k as int) =~= encodings@);
    let r = point::vartime_multiscalar_mul(&scalars, &points);
    assert(scalars@.map_values(|s: Scalar| s@) =~= scalar_records@.map_values(|f: Vec<Vec<u8>>| f@[0]@));
    assert(points@.map_values(|c: [u8; 32]| c@) =~= encodings@.map_values(|b: Vec<u8>| b@));
    Ok(point_value(&r))
}

/// Runs operation `op` on the argument stack: charges its cost, fixed before it runs, and
/// returns what it returns.
pub fn execute(gas: &GasParameters, op: Operation, args: &mut Vec<Value>) -> (r: Outcome)
    ensures
        r.cost == op_cost(*gas, op, old(args)@),
        r.result is Ok ==> final(args)@ == after_pops(old(args)@, arity(op)),
        op_result(op, old(args)@, r.result),
{
    let cost = operation_cost(gas, op, args);
    let result = match op {
        Operation::PointIsCanonical => native_point_is_canonical(args),
        Operation::PointIdentity => native_point_identity(args),
        Operation::PointDecompress | Operation::PointClone | Operation::PointCompress => native_point_decompress(args),
        Operation::PointMul => native_point_mul(args),
        Operation::PointDoubleMul | Operation::DoubleScalarMul => native_double_scalar_mul(args),
        Operation::PointEquals => native_point_equals(args),
        Operation::PointNeg => native_point_neg(args),
        Operation::PointAdd => native_point_add(args),
        Operation::PointSub => native_point_sub(args),
        Operation::BasepointMul => native_basepoint_mul(args),
        Operation::BasepointDoubleMul => native_basepoint_double_mul(args),
        Operation::NewPointFromSha512 => native_new_point_from_sha512(args),
        Operation::NewPointFromUniformBytes => native_new_point_from_64_uniform_bytes(args),
        Operation::MultiScalarMul => native_multi_scalar_mul(args),
        Operation::ScalarIsCanonical => native_scalar_is_canonical(args),
        Operation::ScalarInvert => native_scalar_invert(args),
        Operation::ScalarFromSha512 => native_scalar_from_sha512(args),
        Operation::ScalarMul => native_scalar_mul(args),
        Operation::ScalarAdd => native_scalar_add(args),
        Operation::ScalarSub => native_scalar_sub(args),
        Operation::ScalarNeg => native_scalar_neg(args),
        Operation::ScalarFromU64 => native_scalar_from_u64(args),
        Operation::ScalarFromU128 => native_scalar_from_u128(args),
        Operation::ScalarReducedFrom32Bytes => native_scalar_reduced_from_32_bytes(args),
        Operation::ScalarUniformFrom64Bytes => native_scalar_uniform_from_64_bytes(args),
    };
    Outcome { cost, result }
}

/// Decompressing a valid encoding `c` and compressing the point it gives yields `c` again;
/// decompressing 32 bytes that encode no point is refused as a user error.
pub proof fn lemma_point_round_trip(
    c: Seq<u8>,
    args: Seq<Value>,
    decompressed: Result<Value, NativeError>,
    recompressed: Result<Value, NativeError>,
)
    requires
        c.len() == 32,
        bytes_arg(args, 0) == Ok::<Seq<u8>, NativeError>(c),
        op_result(Operation::PointDecompress, args, decompressed),
        decompressed is Ok ==> op_result(
            Operation::PointCompress,
            seq![decompressed->Ok_0],
            recompressed,
        ),
    ensures
        is_ristretto_encoding(c) ==> decompressed is Ok && recompressed is Ok
            && recompressed->Ok_0 is Bytes && recompressed->Ok_0->Bytes_0@ == c,
        !is_ristretto_encoding(c) ==> decompressed == Err::<Value, NativeError>(
            abort(E_INVALID_POINT_ENCODING),
        ),
{
    if is_ristretto_encoding(c) {
        assert(bytes_arg(seq![decompressed->Ok_0], 0) == Ok::<Seq<u8>, NativeError>(c));
    }
}

/// Through the catalog, scalar multiplication distributes over addition: the encodings
/// returned for `a * (b + c)` and for `a * b + a * c` are equal, and every one is canonical.
/// Multiplying a nonzero scalar by the inverse the catalog returns gives the encoding of one.
pub proof fn lemma_scalar_laws_through_catalog(
    a: Vec<u8>,
    b: Vec<u8>,
    c: Vec<u8>,
    sum_bc: Result<Value, NativeError>,
    left: Result<Value, NativeError>,
    prod_ab: Result<Value, NativeError>,
    prod_ac: Result<Value, NativeError>,
    right: Result<Value, NativeError>,
    inverse: Result<Value, NativeError>,
    one: Result<Value, NativeError>,
)
    requires
        scalar::is_canonical_encoding(a@),
        scalar::is_canonical_encoding(b@),
        scalar::is_canonical_encoding(c@),
        op_result(Operation::ScalarAdd, seq![Value::Bytes(b), Value::Bytes(c)], sum_bc),
        sum_bc is Ok ==> op_result(Operation::ScalarMul, seq![Value::Bytes(a), sum_bc->Ok_0], left),
        op_result(Operation::ScalarMul, seq![Value::Bytes(a), Value::Bytes(b)], prod_ab),
        op_result(Operation::ScalarMul, seq![Value::Bytes(a), Value::Bytes(c)], prod_ac),
        prod_ab is Ok && prod_ac is Ok ==> op_result(
            Operation::ScalarAdd,
            seq![prod_ab->Ok_0, prod_ac->Ok_0],
            right,
        ),
        op_result(Operation::ScalarInvert, seq![Value::Bytes(c)], inverse),
        inverse is Ok ==> op_result(Operation::ScalarMul, seq![Value::Bytes(c), inverse->Ok_0], one),
    ensures
        sum_bc is Ok && left is Ok && prod_ab is Ok && prod_ac is Ok && right is Ok,
        left->Ok_0 is Bytes && right->Ok_0 is Bytes,
        left->Ok_0->Bytes_0@ == right->Ok_0->Bytes_0@,
        scalar::is_canonical_encoding(left->Ok_0->Bytes_0@),
        scalar::le_value(c@) != 0 ==> inverse is Ok && one is Ok && encodes_scalar(one->Ok_0, 1),
        scalar::le_value(c@) == 0 ==> inverse == Err::<Value, NativeError>(abort(E_ZERO_SCALAR_INVERSE)),
{
    let (va, vb, vc) = (scalar::le_value(a@), scalar::le_value(b@), scalar::le_value(c@));
    scalar::lemma_field_laws(va, vb, vc);
    let l = left->Ok_0->Bytes_0@;
    let r = right->Ok_0->Bytes_0@;
    scalar::lemma_le_value_injective(l, r);
    if vc != 0 {
        let inv = scalar::le_value(inverse->Ok_0->Bytes_0@);
        vstd::arithmetic::div_mod::lemma_small_mod(1, scalar::group_order());
    }
}

} // verus!

//! The operation catalog: each named operation, what it charges and what it returns.

use vstd::prelude::*;
use crate::cost::{GasParameters, sat_add, sat_add_spec, sat_mul, sat_mul_spec};
use crate::error::{
    NativeError, E_DIFFERENT_NUM_POINTS_AND_SCALARS, E_ZERO_POINTS, E_ZERO_SCALAR_INVERSE, abort,
    type_error, missing_argument,
};
use crate::point::{
    is_ristretto_encoding, point_arg, identity_encoding, ristretto_add_of, ristretto_sub_of,
    ristretto_neg_of, ristretto_mul_of, basepoint_mul_of, basepoint_double_mul_of,
    from_uniform_bytes_of, hash_to_point_of, multiscalar_mul_of,
};
use crate::error::E_INVALID_POINT_ENCODING;
use crate::scalar::{
    add_mod, is_canonical_encoding, le_value, group_order, mul_mod, neg_mod, record_scalar,
    scalar_bytes_arg,
    scalar_arg, sha512_scalar_of, sub_mod,
};
use crate::value::{Value, bytes_arg, fixed_bytes_arg, nth_from_top};

verus! {

/// The operations of the catalog.
#[derive(Clone, Copy, Debug, PartialEq, Eq, Structural)]
pub enum Operation {
    PointIsCanonical,
    PointIdentity,
    PointDecompress,
    PointClone,
    PointCompress,
    PointMul,
    PointDoubleMul,
    PointEquals,
    PointNeg,
    PointAdd,
    PointSub,
    BasepointMul,
    BasepointDoubleMul,
    NewPointFromSha512,
    NewPointFromUniformBytes,
    DoubleScalarMul,
    MultiScalarMul,
    ScalarIsCanonical,
    ScalarInvert,
    ScalarFromSha512,
    ScalarMul,
    ScalarAdd,
    ScalarSub,
    ScalarNeg,
    ScalarFromU64,
    ScalarFromU128,
    ScalarReducedFrom32Bytes,
    ScalarUniformFrom64Bytes,
}

/// The number of operations in the catalog.
pub const NUM_OPERATIONS: usize = 28;

/// The result of running an operation: the gas charged, which is fixed before the operation
/// runs and charged whether or not it succeeds, and the returned value or the failure.
#[derive(Debug)]
pub struct Outcome {
    pub cost: u64,
    pub result: Result<Value, NativeError>,
}

/// Runs `first` and then `second` on the stack: the error of the one popped first wins.
pub open spec fn both<A, B>(first: Result<A, NativeError>, second: Result<B, NativeError>) -> Result<
    (A, B),
    NativeError,
> {
    match first {
        Err(e) => Err(e),
        Ok(a) => match second {
            Err(e) => Err(e),
            Ok(b) => Ok((a, b)),
        },
    }
}

/// The value holds the canonical encoding of the field element `x`.
pub open spec fn encodes_scalar(v: Value, x: nat) -> bool {
    match v {
        Value::Bytes(b) => is_canonical_encoding(b@) && le_value(b@) == x,
        _ => false,
    }
}

/// `r` returns the scalar `x`, or fails as `x` does.
pub open spec fn scalar_result(r: Result<Value, NativeError>, x: Result<nat, NativeError>) -> bool {
    match x {
        Ok(v) => r is Ok && encodes_scalar(r->Ok_0, v),
        Err(e) => r == Err::<Value, NativeError>(e),
    }
}

/// `r` returns the boolean `x`, or fails as `x` does.
pub open spec fn bool_result(r: Result<Value, NativeError>, x: Result<bool, NativeError>) -> bool {
    match x {
        Ok(b) => r == Ok::<Value, NativeError>(Value::Bool(b)),
        Err(e) => r == Err::<Value, NativeError>(e),
    }
}

/// `r` returns the byte sequence `x`, or fails as `x` does.
pub open spec fn bytes_result(r: Result<Value, NativeError>, x: Result<Seq<u8>, NativeError>) -> bool {
    match x {
        Ok(b) => r is Ok && r->Ok_0 is Bytes && r->Ok_0->Bytes_0@ == b,
        Err(e) => r == Err::<Value, NativeError>(e),
    }
}

/// The integer on top of the stack, of the kind `U64`.
pub open spec fn u64_arg(args: Seq<Value>) -> Result<nat, NativeError> {
    match nth_from_top(args, 0) {
        Some(Value::U64(x)) => Ok(x as nat),
        Some(_) => Err(type_error()),
        None => Err(missing_argument()),
    }
}

/// The integer on top of the stack, of the kind `U128`.
pub open spec fn u128_arg(args: Seq<Value>) -> Result<nat, NativeError> {
    match nth_from_top(args, 0) {
        Some(Value::U128(x)) => Ok(x as nat),
        Some(_) => Err(type_error()),
        None => Err(missing_argument()),
    }
}

/// Applies `f` to a successful value.
pub open spec fn map_ok<A, B>(x: Result<A, NativeError>, f: spec_fn(A) -> B) -> Result<B, NativeError> {
    match x {
        Ok(a) => Ok(f(a)),
        Err(e) => Err(e),
    }
}

/// The two scalars on top of the stack, the deeper one first.
pub open spec fn scalar_pair(args: Seq<Value>) -> Result<(nat, nat), NativeError> {
    map_ok(both(scalar_arg(args, 0), scalar_arg(args, 1)), |p: (nat, nat)| (p.1, p.0))
}

/// The two points on top of the stack, the deeper one first, as encodings.
pub open spec fn point_pair(args: Seq<Value>) -> Result<(Seq<u8>, Seq<u8>), NativeError> {
    map_ok(both(point_arg(args, 0), point_arg(args, 1)), |p: (Seq<u8>, Seq<u8>)| (p.1, p.0))
}

/// `s1 * p1 + s2 * p2` for the stack `[p1, p2, s1, s2]`, as an encoding.
pub open spec fn double_mul_spec(args: Seq<Value>) -> Result<Seq<u8>, NativeError> {
    map_ok(
        both(
            both(scalar_bytes_arg(args, 0), scalar_bytes_arg(args, 1)),
            both(point_arg(args, 2), point_arg(args, 3)),
        ),
        |p: ((Seq<u8>, Seq<u8>), (Seq<u8>, Seq<u8>))|
            multiscalar_mul_of(seq![p.0.1, p.0.0], seq![p.1.1, p.1.0]),
    )
}

/// `a * p + b * basepoint` for the stack `[p, a, b]`, as an encoding.
pub open spec fn basepoint_double_mul_spec(args: Seq<Value>) -> Result<Seq<u8>, NativeError> {
    map_ok(
        both(both(scalar_bytes_arg(args, 0), scalar_bytes_arg(args, 1)), point_arg(args, 2)),
        |p: ((Seq<u8>, Seq<u8>), Seq<u8>)| basepoint_double_mul_of(p.0.1, p.1, p.0.0),
    )
}

/// The inverse of the scalar on top of the stack; zero has none.
pub open spec fn invert_spec(args: Seq<Value>, r: Result<Value, NativeError>) -> bool {
    match scalar_arg(args, 0) {
        Ok(a) => if a == 0 {
            r == Err::<Value, NativeError>(abort(E_ZERO_SCALAR_INVERSE))
        } else {
            r is Ok && r->Ok_0 is Bytes && is_canonical_encoding(r->Ok_0->Bytes_0@)
                && mul_mod(a, le_value(r->Ok_0->Bytes_0@)) == 1
        },
        Err(e) => r == Err::<Value, NativeError>(e),
    }
}

/// The two sequences of a multi-scalar multiplication: points below, scalar records on top.
pub open spec fn msm_shapes(args: Seq<Value>) -> Result<(Seq<Vec<u8>>, Seq<Vec<Vec<u8>>>), NativeError> {
    match (nth_from_top(args, 0), nth_from_top(args, 1)) {
        (Some(Value::RecordVector(s)), Some(Value::BytesVector(p))) => Ok((p@, s@)),
        (None, _) => Err(missing_argument()),
        (Some(Value::RecordVector(_)), None) => Err(missing_argument()),
        _ => Err(type_error()),
    }
}

/// The first failure of `check` along `s`, in order, or success when there is none.
pub open spec fn first_failure<T>(s: Seq<T>, check: spec_fn(T) -> Result<(), NativeError>) -> Result<
    (),
    NativeError,
>
    decreases s.len(),
{
    if s.len() == 0 {
        Ok(())
    } else {
        match first_failure(s.drop_last(), check) {
            Err(e) => Err(e),
            Ok(_) => check(s.last()),
        }
    }
}

/// Reading a scalar out of a record, without its value.
pub open spec fn scalar_record_check(fields: Vec<Vec<u8>>) -> Result<(), NativeError> {
    match record_scalar(fields@) {
        Ok(_) => Ok(()),
        Err(e) => Err(e),
    }
}

/// Reading a compressed point out of a byte sequence.
pub open spec fn point_check(b: Vec<u8>) -> Result<(), NativeError> {
    if b@.len() != 32 {
        Err(type_error())
    } else if !is_ristretto_encoding(b@) {
        Err(abort(E_INVALID_POINT_ENCODING))
    } else {
        Ok(())
    }
}

/// A multi-scalar multiplication on the stack `[points, scalars]`. Checked in this order:
/// the kinds of the two values; equal lengths; at least one point; each scalar, in order;
/// each point, in order. The first failure is the result; otherwise the encoding of the
/// sum of `scalars[i] * points[i]`.
pub open spec fn msm_spec(args: Seq<Value>, r: Result<Value, NativeError>) -> bool {
    match msm_shapes(args) {
        Err(e) => r == Err::<Value, NativeError>(e),
        Ok((ps, ss)) => if ps.len() != ss.len() {
            r == Err::<Value, NativeError>(abort(E_DIFFERENT_NUM_POINTS_AND_SCALARS))
        } else if ps.len() == 0 {
            r == Err::<Value, NativeError>(abort(E_ZERO_POINTS))
        } else {
            match first_failure(ss, |f: Vec<Vec<u8>>| scalar_record_check(f)) {
                Err(e) => r == Err::<Value, NativeError>(e),
                Ok(_) => match first_failure(ps, |b: Vec<u8>| point_check(b)) {
                    Err(e) => r == Err::<Value, NativeError>(e),
                    Ok(_) => bytes_result(
                        r,
                        Ok(
                            multiscalar_mul_of(
                                ss.map_values(|f: Vec<Vec<u8>>| f@[0]@),
                                ps.map_values(|b: Vec<u8>| b@),
                            ),
                        ),
                    ),
                },
            }
        },
    }
}

/// A failure found in a prefix is the first failure of the whole sequence.
pub proof fn lemma_first_failure_prefix<T>(
    s: Seq<T>,
    j: int,
    check: spec_fn(T) -> Result<(), NativeError>,
)
    requires
        0 <= j <= s.len(),
        first_failure(s.take(j), check) is Err,
    ensures
        first_failure(s, check) == first_failure(s.take(j), check),
    decreases s.len() - j,
{
    if j == s.len() {
        assert(s.take(j) =~= s);
    } else {
        assert(s.take(j + 1).drop_last() =~= s.take(j));
        lemma_first_failure_prefix(s, j + 1, check);
    }
}

/// The stack after its top `k` values are consumed.
pub open spec fn after_pops(args: Seq<Value>, k: nat) -> Seq<Value> {
    args.subrange(0, args.len() - k)
}

/// How many values operation `op` consumes from the top of the stack.
pub open spec fn arity(op: Operation) -> nat {
    match op {
        Operation::PointDecompress | Operation::PointClone | Operation::PointCompress => 1,
        Operation::PointDoubleMul | Operation::DoubleScalarMul => 4,
        Operation::PointIsCanonical => 1,
        Operation::PointIdentity => 0,
        Operation::PointMul => 2,
        Operation::PointEquals => 2,
        Operation::PointNeg => 1,
        Operation::PointAdd => 2,
        Operation::PointSub => 2,
        Operation::BasepointMul => 1,
        Operation::BasepointDoubleMul => 3,
        Operation::NewPointFromSha512 => 1,
        Operation::NewPointFromUniformBytes => 1,
        Operation::MultiScalarMul => 2,
        Operation::ScalarIsCanonical => 1,
        Operation::ScalarInvert => 1,
        Operation::ScalarFromSha512 => 1,
        Operation::ScalarMul => 2,
        Operation::ScalarAdd => 2,
        Operation::ScalarSub => 2,
        Operation::ScalarNeg => 1,
        Operation::ScalarFromU64 => 1,
        Operation::ScalarFromU128 => 1,
        Operation::ScalarReducedFrom32Bytes => 1,
        Operation::ScalarUniformFrom64Bytes => 1,
    }
}

/// What operation `op` returns on the stack `args`.
pub open spec fn op_result(op: Operation, args: Seq<Value>, r: Result<Value, NativeError>) -> bool {
    match op {
        Operation::PointIsCanonical => bool_result(
            r,
            map_ok(bytes_arg(args, 0), |b: Seq<u8>| b.len() == 32 && is_ristretto_encoding(b)),
        ),
        Operation::PointIdentity => bytes_result(r, Ok(identity_encoding())),
        Operation::PointDecompress | Operation::PointClone | Operation::PointCompress => bytes_result(
            r,
            point_arg(args, 0),
        ),
        Operation::PointMul => bytes_result(
            r,
            map_ok(
                both(scalar_bytes_arg(args, 0), point_arg(args, 1)),
                |p: (Seq<u8>, Seq<u8>)| ristretto_mul_of(p.0, p.1),
            ),
        ),
        Operation::PointDoubleMul | Operation::DoubleScalarMul => bytes_result(r, double_mul_spec(args)),
        Operation::PointEquals => bool_result(r, map_ok(point_pair(args), |p: (Seq<u8>, Seq<u8>)| p.0 == p.1)),
        Operation::PointNeg => bytes_result(r, map_ok(point_arg(args, 0), |p: Seq<u8>| ristretto_neg_of(p))),
        Operation::PointAdd => bytes_result(
            r,
            map_ok(point_pair(args), |p: (Seq<u8>, Seq<u8>)| ristretto_add_of(p.0, p.1)),
        ),
        Operation::PointSub => bytes_result(
            r,
            map_ok(point_pair(args), |p: (Seq<u8>, Seq<u8>)| ristretto_sub_of(p.0, p.1)),
        ),
        Operation::BasepointMul => bytes_result(r, map_ok(scalar_bytes_arg(args, 0), |s: Seq<u8>| basepoint_mul_of(s))),
        Operation::BasepointDoubleMul => bytes_result(r, basepoint_double_mul_spec(args)),
        Operation::NewPointFromSha512 => bytes_result(r, map_ok(bytes_arg(args, 0), |b: Seq<u8>| hash_to_point_of(b))),
        Operation::NewPointFromUniformBytes => bytes_result(
            r,
            map_ok(fixed_bytes_arg(args, 0, 64), |b: Seq<u8>| from_uniform_bytes_of(b)),
        ),
        Operation::MultiScalarMul => msm_spec(args, r),
        Operation::ScalarIsCanonical => bool_result(
            r,
            map_ok(bytes_arg(args, 0), |b: Seq<u8>| is_canonical_encoding(b)),
        ),
        Operation::ScalarInvert => invert_spec(args, r),
        Operation::ScalarFromSha512 => bytes_result(
            r,
            map_ok(bytes_arg(args, 0), |b: Seq<u8>| sha512_scalar_of(b)),
        ),
        Operation::ScalarMul => scalar_result(r, map_ok(scalar_pair(args), |p: (nat, nat)| mul_mod(p.0, p.1))),
        Operation::ScalarAdd => scalar_result(r, map_ok(scalar_pair(args), |p: (nat, nat)| add_mod(p.0, p.1))),
        Operation::ScalarSub => scalar_result(r, map_ok(scalar_pair(args), |p: (nat, nat)| sub_mod(p.0, p.1))),
        Operation::ScalarNeg => scalar_result(r, map_ok(scalar_arg(args, 0), |a: nat| neg_mod(a))),
        Operation::ScalarFromU64 => scalar_result(r, u64_arg(args)),
        Operation::ScalarFromU128 => scalar_result(r, u128_arg(args)),
        Operation::ScalarReducedFrom32Bytes => scalar_result(
            r,
            map_ok(fixed_bytes_arg(args, 0, 32), |b: Seq<u8>| le_value(b) % group_order()),
        ),
        Operation::ScalarUniformFrom64Bytes => scalar_result(
            r,
            map_ok(fixed_bytes_arg(args, 0, 64), |b: Seq<u8>| le_value(b) % group_order()),
        ),
    }
}

/// The length of the byte sequence on top of the stack, or 0.
pub open spec fn top_len(args: Seq<Value>) -> nat {
    match nth_from_top(args, 0) {
        Some(Value::Bytes(b)) => b@.len(),
        _ => 0,
    }
}

/// The number of points of a multi-scalar multiplication: the length of the sequence below
/// the top of the stack, or 0.
pub open spec fn msm_size(args: Seq<Value>) -> nat {
    match nth_from_top(args, 1) {
        Some(Value::BytesVector(p)) => p@.len(),
        _ => 0,
    }
}

/// The cost of hashing `len` bytes and then deriving a value that costs `tail`.
pub open spec fn hash_cost(g: GasParameters, len: nat, tail: u64) -> nat {
    sat_add_spec(sat_add_spec(g.sha512_per_hash as nat, sat_mul_spec(g.sha512_per_byte as nat, len)), tail as nat)
}

/// The cost of a multi-scalar multiplication of `n` points: parsing each point and scalar, and
/// then the multiplication itself, which for `n <= 1` is at most one scalar multiplication.
pub open spec fn msm_cost(g: GasParameters, n: nat) -> nat {
    let parse = sat_mul_spec(sat_add_spec(g.point_parse_arg as nat, g.scalar_parse_arg as nat), n);
    if n >= 2 {
        sat_add_spec(g.msm_gas_spec(n), parse)
    } else {
        sat_add_spec(g.point_mul as nat, parse)
    }
}

/// What operation `op` charges on the stack `args`.
pub open spec fn op_cost(g: GasParameters, op: Operation, args: Seq<Value>) -> nat {
    match op {
        Operation::PointIsCanonical => g.point_decompress as nat,
        Operation::PointIdentity => g.point_identity as nat,
        Operation::PointDecompress => g.point_decompress as nat,
        Operation::PointClone => g.point_clone as nat,
        Operation::PointCompress => g.point_compress as nat,
        Operation::PointMul => g.point_mul as nat,
        Operation::PointDoubleMul | Operation::DoubleScalarMul => g.point_double_mul as nat,
        Operation::PointEquals => g.point_equals as nat,
        Operation::PointNeg => g.point_neg as nat,
        Operation::PointAdd => g.point_add as nat,
        Operation::PointSub => g.point_sub as nat,
        Operation::BasepointMul => g.basepoint_mul as nat,
        Operation::BasepointDoubleMul => g.basepoint_double_mul as nat,
        Operation::NewPointFromSha512 => hash_cost(g, top_len(args), g.point_from_64_uniform_bytes),
        Operation::NewPointFromUniformBytes => g.point_from_64_uniform_bytes as nat,
        Operation::MultiScalarMul => msm_cost(g, msm_size(args)),
        Operation::ScalarIsCanonical => g.scalar_is_canonical as nat,
        Operation::ScalarInvert => g.scalar_invert as nat,
        Operation::ScalarFromSha512 => hash_cost(g, top_len(args), g.scalar_uniform_from_64_bytes),
        Operation::ScalarMul => g.scalar_mul as nat,
        Operation::ScalarAdd => g.scalar_add as nat,
        Operation::ScalarSub => g.scalar_sub as nat,
        Operation::ScalarNeg => g.scalar_neg as nat,
        Operation::ScalarFromU64 => g.scalar_from_u64 as nat,
        Operation::ScalarFromU128 => g.scalar_from_u128 as nat,
        Operation::ScalarReducedFrom32Bytes => g.scalar_reduced_from_32_bytes as nat,
        Operation::ScalarUniformFrom64Bytes => g.scalar_uniform_from_64_bytes as nat,
    }
}

fn top_len_exec(args: &Vec<Value>) -> (r: u64)
    ensures
        r == top_len(args@),
{
    if args.len() == 0 {
        return 0;
    }
    match &args[args.len() - 1] {
        Value::Bytes(b) => b.len() as u64,
        _ => 0,
    }
}

fn msm_size_exec(args: &Vec<Value>) -> (r: usize)
    ensures
        r == msm_size(args@),
{
    if args.len() < 2 {
        return 0;
    }
    match &args[args.len() - 2] {
        Value::BytesVector(p) => p.len(),
        _ => 0,
    }
}

fn hash_cost_exec(g: &GasParameters, len: u64, tail: u64) -> (r: u64)
    ensures
        r == hash_cost(*g, len as nat, tail),
{
    sat_add(sat_add(g.sha512_per_hash, sat_mul(g.sha512_per_byte, len)), tail)
}

fn msm_cost_exec(g: &GasParameters, n: usize) -> (r: u64)
    ensures
        r == msm_cost(*g, n as nat),
{
    let parse = sat_mul(sat_add(g.point_parse_arg, g.scalar_parse_arg), n as u64);
    if n >= 2 {
        sat_add(g.multi_scalar_mul_gas(n), parse)
    } else {
        sat_add(g.point_mul, parse)
    }
}

/// The gas that operation `op` charges on the argument stack `args`, before it runs.
pub fn operation_cost(g: &GasParameters, op: Operation, args: &Vec<Value>) -> (r: u64)
    ensures
        r == op_cost(*g, op, args@),
{
    match op {
        Operation::PointIsCanonical => g.point_decompress,
        Operation::PointIdentity => g.point_identity,
        Operation::PointDecompress => g.point_decompress,
        Operation::PointClone => g.point_clone,
        Operation::PointCompress => g.point_compress,
        Operation::PointMul => g.point_mul,
        Operation::PointDoubleMul | Operation::DoubleScalarMul => g.point_double_mul,
        Operation::PointEquals => g.point_equals,
        Operation::PointNeg => g.point_neg,
        Operation::PointAdd => g.point_add,
        Operation::PointSub => g.point_sub,
        Operation::BasepointMul => g.basepoint_mul,
        Operation::BasepointDoubleMul => g.basepoint_double_mul,
        Operation::NewPointFromSha512 => hash_cost_exec(g, top_len_exec(args), g.point_from_64_uniform_bytes),
        Operation::NewPointFromUniformBytes => g.point_from_64_uniform_bytes,
        Operation::MultiScalarMul => msm_cost_exec(g, msm_size_exec(args)),
        Operation::ScalarIsCanonical => g.scalar_is_canonical,
        Operation::ScalarInvert => g.scalar_invert,
        Operation::ScalarFromSha512 => hash_cost_exec(g, top_len_exec(args), g.scalar_uniform_from_64_bytes),
        Operation::ScalarMul => g.scalar_mul,
        Operation::ScalarAdd => g.scalar_add,
        Operation::ScalarSub => g.scalar_sub,
        Operation::ScalarNeg => g.scalar_neg,
        Operation::ScalarFromU64 => g.scalar_from_u64,
        Operation::ScalarFromU128 => g.scalar_from_u128,
        Operation::ScalarReducedFrom32Bytes => g.scalar_reduced_from_32_bytes,
        Operation::ScalarUniformFrom64Bytes => g.scalar_uniform_from_64_bytes,
    }
}

} // verus!

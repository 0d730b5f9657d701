//! Points of the Ristretto255 group. The host VM sees a point only as its 32-byte compressed
//! encoding; the curve library's point type is used while an operation runs.

use vstd::prelude::*;
use curve25519_dalek::constants::RISTRETTO_BASEPOINT_TABLE;
use curve25519_dalek::ristretto::{CompressedRistretto, RistrettoPoint};
use curve25519_dalek::scalar::Scalar as DalekScalar;
use curve25519_dalek::traits::{Identity, VartimeMultiscalarMul};
use crate::error::{NativeError, E_INVALID_POINT_ENCODING, abort};
use crate::scalar::Scalar;
use crate::value::{Value, array_to_vec, fixed_bytes_arg, popped, pop_32_byte_slice};

verus! {

#[verifier::external_type_specification]
#[verifier::external_body]
pub struct ExRistrettoPoint(RistrettoPoint);

/// Whether `CompressedRistretto::decompress` accepts the 32 bytes `c`.
pub uninterp spec fn is_ristretto_encoding(c: Seq<u8>) -> bool;

/// The point encoded by the 32-byte sequence `k` places below the top of the stack, as its
/// encoding, or why it cannot be read.
pub open spec fn point_arg(args: Seq<Value>, k: nat) -> Result<Seq<u8>, NativeError> {
    match fixed_bytes_arg(args, k, 32) {
        Ok(c) => if is_ristretto_encoding(c) {
            Ok(c)
        } else {
            Err(abort(E_INVALID_POINT_ENCODING))
        },
        Err(e) => Err(e),
    }
}

/// Relies on `CompressedRistretto::decompress`: `Some` exactly when the bytes encode a
/// group element.
#[verifier::external_body]
pub(crate) fn decompress(c: [u8; 32]) -> (r: Option<RistrettoPoint>)
    ensures
        r.is_some() == is_ristretto_encoding(c@),
{
    CompressedRistretto(c).decompress()
}

/// The encoding of the sum of the points encoded by `p` and `q`.
pub uninterp spec fn ristretto_add_of(p: Seq<u8>, q: Seq<u8>) -> Seq<u8>;

/// The encoding of the difference of the points encoded by `p` and `q`.
pub uninterp spec fn ristretto_sub_of(p: Seq<u8>, q: Seq<u8>) -> Seq<u8>;

/// The encoding of the inverse of the point encoded by `p`.
pub uninterp spec fn ristretto_neg_of(p: Seq<u8>) -> Seq<u8>;

/// The encoding of the multiple of the point encoded by `p` by the scalar encoded by `s`.
pub uninterp spec fn ristretto_mul_of(s: Seq<u8>, p: Seq<u8>) -> Seq<u8>;

/// The encoding of the multiple of the basepoint by the scalar encoded by `s`.
pub uninterp spec fn basepoint_mul_of(s: Seq<u8>) -> Seq<u8>;

/// The encoding of `a * p + b * basepoint`.
pub uninterp spec fn basepoint_double_mul_of(a: Seq<u8>, p: Seq<u8>, b: Seq<u8>) -> Seq<u8>;

/// The encoding of the point derived from 64 uniform bytes.
pub uninterp spec fn from_uniform_bytes_of(b: Seq<u8>) -> Seq<u8>;

/// The encoding of the point that hashing `input` with SHA-512 derives.
pub uninterp spec fn hash_to_point_of(input: Seq<u8>) -> Seq<u8>;

/// The encoding of the sum of `scalars[i] * points[i]`, over scalar and point encodings.
pub uninterp spec fn multiscalar_mul_of(scalars: Seq<Seq<u8>>, points: Seq<Seq<u8>>) -> Seq<u8>;

/// The 32 zero bytes, which encode the identity.
pub open spec fn identity_encoding() -> Seq<u8> {
    Seq::new(32, |i: int| 0u8)
}

/// Relies on `Identity for CompressedRistretto`: the identity's encoding, 32 zero bytes, which
/// `CompressedRistretto::decompress` accepts.
#[verifier::external_body]
pub(crate) fn identity() -> (r: [u8; 32])
    ensures
        r@ == identity_encoding(),
        is_ristretto_encoding(r@),
{
    CompressedRistretto::identity().to_bytes()
}

/// Relies on `Add for &RistrettoPoint`, between decompressing the operands and compressing
/// the sum.
#[verifier::external_body]
pub(crate) fn add(p: &[u8; 32], q: &[u8; 32]) -> (r: [u8; 32])
    requires
        is_ristretto_encoding(p@),
        is_ristretto_encoding(q@),
    ensures
        r@ == ristretto_add_of(p@, q@),
        is_ristretto_encoding(r@),
{
    let p = CompressedRistretto(*p).decompress().unwrap();
    let q = CompressedRistretto(*q).decompress().unwrap();
    (&p + &q).compress().to_bytes()
}

/// Relies on `Sub for &RistrettoPoint`, between decompressing and compressing.
#[verifier::external_body]
pub(crate) fn sub(p: &[u8; 32], q: &[u8; 32]) -> (r: [u8; 32])
    requires
        is_ristretto_encoding(p@),
        is_ristretto_encoding(q@),
    ensures
        r@ == ristretto_sub_of(p@, q@),
        is_ristretto_encoding(r@),
{
    let p = CompressedRistretto(*p).decompress().unwrap();
    let q = CompressedRistretto(*q).decompress().unwrap();
    (&p - &q).compress().to_bytes()
}

/// Relies on `Neg for &RistrettoPoint`, between decompressing and compressing.
#[verifier::external_body]
pub(crate) fn neg(p: &[u8; 32]) -> (r: [u8; 32])
    requires
        is_ristretto_encoding(p@),
    ensures
        r@ == ristretto_neg_of(p@),
        is_ristretto_encoding(r@),
{
    let p = CompressedRistretto(*p).decompress().unwrap();
    (-&p).compress().to_bytes()
}

/// Relies on `Mul<&Scalar> for &RistrettoPoint`, between decompressing and compressing; the
/// scalar's bytes are taken as they are, which is exact for a canonical scalar.
#[verifier::external_body]
pub(crate) fn mul(p: &[u8; 32], s: &Scalar) -> (r: [u8; 32])
    requires
        is_ristretto_encoding(p@),
        s.is_canonical(),
    ensures
        r@ == ristretto_mul_of(s@, p@),
        is_ristretto_encoding(r@),
{
    let p = CompressedRistretto(*p).decompress().unwrap();
    (&p * &DalekScalar::from_bits(s.bytes)).compress().to_bytes()
}

/// Relies on `Mul<&Scalar> for &RistrettoBasepointTable`: a multiple of the basepoint.
#[verifier::external_body]
pub(crate) fn basepoint_mul(s: &Scalar) -> (r: [u8; 32])
    requires
        s.is_canonical(),
    ensures
        r@ == basepoint_mul_of(s@),
        is_ristretto_encoding(r@),
{
    (&RISTRETTO_BASEPOINT_TABLE * &DalekScalar::from_bits(s.bytes)).compress().to_bytes()
}

/// Relies on `RistrettoPoint::vartime_double_scalar_mul_basepoint`: `a * p + b * basepoint`.
#[verifier::external_body]
pub(crate) fn basepoint_double_mul(a: &Scalar, p: &[u8; 32], b: &Scalar) -> (r: [u8; 32])
    requires
        a.is_canonical(),
        b.is_canonical(),
        is_ristretto_encoding(p@),
    ensures
        r@ == basepoint_double_mul_of(a@, p@, b@),
        is_ristretto_encoding(r@),
{
    let p = CompressedRistretto(*p).decompress().unwrap();
    RistrettoPoint::vartime_double_scalar_mul_basepoint(
        &DalekScalar::from_bits(a.bytes),
        &p,
        &DalekScalar::from_bits(b.bytes),
    ).compress().to_bytes()
}

/// Relies on `RistrettoPoint::from_uniform_bytes`: a point derived from 64 uniform bytes.
#[verifier::external_body]
pub(crate) fn from_uniform_bytes(b: &[u8; 64]) -> (r: [u8; 32])
    ensures
        r@ == from_uniform_bytes_of(b@),
        is_ristretto_encoding(r@),
{
    RistrettoPoint::from_uniform_bytes(b).compress().to_bytes()
}

/// Relies on `RistrettoPoint::hash_from_bytes::<Sha512>`: a point derived from the input.
#[verifier::external_body]
pub(crate) fn hash_from_bytes(input: &[u8]) -> (r: [u8; 32])
    ensures
        r@ == hash_to_point_of(input@),
        is_ristretto_encoding(r@),
{
    RistrettoPoint::hash_from_bytes::<sha2::Sha512>(input).compress().to_bytes()
}

/// Relies on `VartimeMultiscalarMul::vartime_multiscalar_mul` for `RistrettoPoint`: the sum
/// of `scalars[i] * points[i]`. The curve library panics when the lengths differ.
#[verifier::external_body]
pub(crate) fn vartime_multiscalar_mul(scalars: &Vec<Scalar>, points: &Vec<[u8; 32]>) -> (r: [u8; 32])
    requires
        scalars@.len() == points@.len(),
        forall|i: int| 0 <= i < scalars@.len() ==> (#[trigger] scalars@[i]).is_canonical(),
        forall|i: int| 0 <= i < points@.len() ==> is_ristretto_encoding((#[trigger] points@[i])@),
    ensures
        r@ == multiscalar_mul_of(
            scalars@.map_values(|s: Scalar| s@),
            points@.map_values(|c: [u8; 32]| c@),
        ),
        is_ristretto_encoding(r@),
{
    let mut ps: Vec<RistrettoPoint> = Vec::new();
    for c in points.iter() {
        ps.push(CompressedRistretto(*c).decompress().unwrap());
    }
    RistrettoPoint::vartime_multiscalar_mul(scalars.iter().map(|s| DalekScalar::from_bits(s.bytes)), ps.iter())
        .compress().to_bytes()
}

/// Checks that 32 bytes encode a point; failure is a user error.
pub fn check_point_encoding(c: [u8; 32]) -> (r: Result<[u8; 32], NativeError>)
    ensures
        r is Ok <==> is_ristretto_encoding(c@),
        r is Ok ==> r == Ok::<[u8; 32], NativeError>(c),
        r is Err ==> r == Err::<[u8; 32], NativeError>(abort(E_INVALID_POINT_ENCODING)),
{
    match decompress(c) {
        Some(_) => Ok(c),
        None => Err(NativeError::Abort { code: E_INVALID_POINT_ENCODING }),
    }
}

/// Pops a compressed point off the argument stack and checks it.
pub fn pop_point(arguments: &mut Vec<Value>) -> (r: Result<[u8; 32], NativeError>)
    ensures
        final(arguments)@ == popped(old(arguments)@),
        match r {
            Ok(c) => point_arg(old(arguments)@, 0) == Ok::<Seq<u8>, NativeError>(c@),
            Err(e) => point_arg(old(arguments)@, 0) == Err::<Seq<u8>, NativeError>(e),
        },
{
    let c = pop_32_byte_slice(arguments)?;
    check_point_encoding(c)
}

/// A point's encoding as a stack value.
pub fn point_value(c: &[u8; 32]) -> (r: Value)
    requires
        is_ristretto_encoding(c@),
    ensures
        is_point_value(r),
        r == Value::Bytes(r->Bytes_0) && r->Bytes_0@ == c@,
{
    Value::Bytes(array_to_vec(c))
}

/// A stack value that holds a valid compressed point.
pub open spec fn is_point_value(v: Value) -> bool {
    match v {
        Value::Bytes(b) => b@.len() == 32 && is_ristretto_encoding(b@),
        _ => false,
    }
}

/// Whether two 32-byte arrays are equal. Ristretto encodings are canonical, so two valid
/// encodings stand for the same point exactly when they are equal.
pub fn encodings_equal(a: &[u8; 32], b: &[u8; 32]) -> (r: bool)
    ensures
        r == (a@ == b@),
{
    let mut i: usize = 0;
    while i < 32
        invariant
            i <= 32,
            forall|j: int| 0 <= j < i ==> a@[j] == b@[j],
        decreases 32 - i,
    {
        if a[i] != b[i] {
            return false;
        }
        i = i + 1;
    }
    assert(a@ =~= b@);
    true
}

} // verus!

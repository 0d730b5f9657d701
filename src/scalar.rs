//! Scalars of the Ristretto255 group: canonical 32-byte little-endian encodings of
//! integers below the group order, and the field operations on them.

use vstd::prelude::*;
use vstd::arithmetic::power::pow;
use vstd::arithmetic::power2::{lemma2_to64, lemma_pow2_adds, lemma_pow2_strictly_increases};
use curve25519_dalek::scalar::Scalar as DalekScalar;
use crate::error::{NativeError, StatusCode, E_NON_CANONICAL_SCALAR, abort, type_error};
use crate::value::{Value, array_to_vec, bytes_arg, popped, pop_bytes};

verus! {

/// The prime order of the group, `2^252 + 27742317777372353535851937790883648493`.
pub open spec fn group_order() -> nat {
    vstd::arithmetic::power2::pow2(252) + 27742317777372353535851937790883648493nat
}

/// The integer that a byte sequence encodes, least significant byte first.
pub open spec fn le_value(s: Seq<u8>) -> nat
    decreases s.len(),
{
    if s.len() == 0 {
        0
    } else {
        s[0] as nat + 256 * le_value(s.subrange(1, s.len() as int))
    }
}

/// 32 bytes that encode an integer below the group order.
pub open spec fn is_canonical_encoding(b: Seq<u8>) -> bool {
    b.len() == 32 && le_value(b) < group_order()
}

/// What strict decoding of a scalar makes of a byte sequence: its field element, or why not.
pub open spec fn decode_scalar(b: Seq<u8>) -> Result<nat, NativeError> {
    if b.len() != 32 {
        Err(type_error())
    } else if le_value(b) >= group_order() {
        Err(abort(E_NON_CANONICAL_SCALAR))
    } else {
        Ok(le_value(b))
    }
}

/// The scalar encoded by the byte sequence `k` places below the top of the stack.
pub open spec fn scalar_arg(args: Seq<Value>, k: nat) -> Result<nat, NativeError> {
    match bytes_arg(args, k) {
        Ok(b) => decode_scalar(b),
        Err(e) => Err(e),
    }
}

/// The encoding of the scalar `k` places below the top of the stack, once strict decoding
/// accepts it.
pub open spec fn scalar_bytes_arg(args: Seq<Value>, k: nat) -> Result<Seq<u8>, NativeError> {
    match bytes_arg(args, k) {
        Ok(b) => match decode_scalar(b) {
            Ok(_) => Ok(b),
            Err(e) => Err(e),
        },
        Err(e) => Err(e),
    }
}

/// Field addition.
pub open spec fn add_mod(a: nat, b: nat) -> nat {
    (a + b) % group_order()
}

/// Field subtraction.
pub open spec fn sub_mod(a: nat, b: nat) -> nat {
    ((a - b) % (group_order() as int)) as nat
}

/// Field multiplication.
pub open spec fn mul_mod(a: nat, b: nat) -> nat {
    (a * b) % group_order()
}

/// Field negation.
pub open spec fn neg_mod(a: nat) -> nat {
    ((0 - a) % (group_order() as int)) as nat
}

/// The scalar that `Scalar::hash_from_bytes::<Sha512>` derives from `input`, as its encoding.
pub uninterp spec fn sha512_scalar_of(input: Seq<u8>) -> Seq<u8>;

/// A scalar, held as its 32-byte little-endian encoding.
#[derive(Clone, Copy, Debug, PartialEq, Eq)]
pub struct Scalar {
    pub bytes: [u8; 32],
}

impl View for Scalar {
    type V = Seq<u8>;

    open spec fn view(&self) -> Seq<u8> {
        self.bytes@
    }
}

impl Scalar {
    /// The field element this scalar stands for.
    pub open spec fn value(&self) -> nat {
        le_value(self.bytes@)
    }

    /// The encoding is the reduced representative of its field element.
    pub open spec fn is_canonical(&self) -> bool {
        is_canonical_encoding(self.bytes@)
    }

    /// The encoding as a byte vector.
    pub fn to_bytes(&self) -> (r: Vec<u8>)
        ensures
            r@ == self@,
    {
        array_to_vec(&self.bytes)
    }
}

/// Relies on `Scalar::from_canonical_bytes`: `Some` exactly when the 32 bytes, read as a
/// little-endian integer, lie below the group order; the scalar keeps those bytes.
#[verifier::external_body]
pub(crate) fn decode_canonical(b: [u8; 32]) -> (r: Option<Scalar>)
    ensures
        r.is_some() == (le_value(b@) < group_order()),
        r.is_some() ==> r.unwrap()@ == b@,
{
    match DalekScalar::from_canonical_bytes(b) {
        Some(s) => Some(Scalar { bytes: s.to_bytes() }),
        None => None,
    }
}

/// Relies on `Add for &Scalar`: the sum reduced modulo the group order.
#[verifier::external_body]
pub(crate) fn dalek_add(a: &Scalar, b: &Scalar) -> (r: Scalar)
    requires
        a.is_canonical(),
        b.is_canonical(),
    ensures
        r.is_canonical(),
        r.value() == add_mod(a.value(), b.value()),
{
    Scalar { bytes: (&DalekScalar::from_bits(a.bytes) + &DalekScalar::from_bits(b.bytes)).to_bytes() }
}

/// Relies on `Sub for &Scalar`: the difference reduced modulo the group order.
#[verifier::external_body]
pub(crate) fn dalek_sub(a: &Scalar, b: &Scalar) -> (r: Scalar)
    requires
        a.is_canonical(),
        b.is_canonical(),
    ensures
        r.is_canonical(),
        r.value() == sub_mod(a.value(), b.value()),
{
    Scalar { bytes: (&DalekScalar::from_bits(a.bytes) - &DalekScalar::from_bits(b.bytes)).to_bytes() }
}

/// Relies on `Mul for &Scalar`: the product reduced modulo the group order.
#[verifier::external_body]
pub(crate) fn dalek_mul(a: &Scalar, b: &Scalar) -> (r: Scalar)
    requires
        a.is_canonical(),
        b.is_canonical(),
    ensures
        r.is_canonical(),
        r.value() == mul_mod(a.value(), b.value()),
{
    Scalar { bytes: (&DalekScalar::from_bits(a.bytes) * &DalekScalar::from_bits(b.bytes)).to_bytes() }
}

/// Relies on `Neg for &Scalar`: the additive inverse modulo the group order.
#[verifier::external_body]
pub(crate) fn dalek_neg(a: &Scalar) -> (r: Scalar)
    requires
        a.is_canonical(),
    ensures
        r.is_canonical(),
        r.value() == neg_mod(a.value()),
{
    Scalar { bytes: (-&DalekScalar::from_bits(a.bytes)).to_bytes() }
}

/// Relies on `Scalar::invert`: for a nonzero scalar, its multiplicative inverse.
#[verifier::external_body]
pub(crate) fn dalek_invert(a: &Scalar) -> (r: Scalar)
    requires
        a.is_canonical(),
        a.value() != 0,
    ensures
        r.is_canonical(),
        mul_mod(a.value(), r.value()) == 1,
{
    Scalar { bytes: DalekScalar::from_bits(a.bytes).invert().to_bytes() }
}

/// Appending a most significant byte `d` adds `d * 256^len`.
proof fn lemma_le_value_push(s: Seq<u8>, d: u8)
    ensures
        le_value(s.push(d)) == le_value(s) + d * pow(256, s.len()),
    decreases s.len(),
{
    reveal(pow);
    if s.len() == 0 {
        assert(s.push(d).subrange(1, 1) =~= Seq::<u8>::empty());
        assert(le_value(Seq::<u8>::empty()) == 0);
        assert(pow(256, 0) == 1);
        assert(le_value(s.push(d)) == d + 256 * le_value(s.push(d).subrange(1, 1)));
    } else {
        let rest = s.subrange(1, s.len() as int);
        assert(s.push(d).subrange(1, s.len() as int + 1) =~= rest.push(d));
        lemma_le_value_push(rest, d);
        assert(pow(256, s.len()) == 256 * pow(256, (s.len() - 1) as nat));
        assert(256 * (le_value(rest) + d * pow(256, rest.len())) == 256 * le_value(rest) + d * (256
            * pow(256, rest.len()))) by (nonlinear_arith);
        assert(le_value(s.push(d)) == s[0] + 256 * le_value(rest.push(d)));
        assert(le_value(s) == s[0] + 256 * le_value(rest));
    }
}

/// The scalar whose value is `x`: its 16 little-endian bytes, then zeros.
pub fn scalar_from_u128(x: u128) -> (r: Scalar)
    ensures
        r.is_canonical(),
        r.value() == x,
{
    let mut b: [u8; 32] = [0u8; 32];
    let mut v: u128 = x;
    let mut i: usize = 0;
    assert(b@.take(0) =~= Seq::<u8>::empty());
    assert(le_value(Seq::<u8>::empty()) == 0);
    proof {
        reveal(pow);
    }
    while i < 32
        invariant
            i <= 32,
            b@.len() == 32,
            le_value(b@.take(i as int)) + pow(256, i as nat) * v == x,
        decreases 32 - i,
    {
        let ghost before = b@;
        b[i] = (v % 256) as u8;
        proof {
            assert(b@.take(i as int) =~= before.take(i as int));
            assert(b@.take(i + 1) =~= b@.take(i as int).push(b@[i as int]));
            lemma_le_value_push(b@.take(i as int), b@[i as int]);
            reveal(pow);
            let p = pow(256, i as nat);
            assert(pow(256, (i + 1) as nat) == 256 * p);
            assert((v % 256) * p + (256 * p) * (v / 256) == p * v) by (nonlinear_arith);
        }
        v = v / 256;
        i = i + 1;
    }
    proof {
        assert(b@.take(32) =~= b@);
        reveal_with_fuel(pow, 33);
        assert(pow(256, 32) > u128::MAX);
        if v > 0 {
            assert(pow(256, 32) * v >= pow(256, 32)) by (nonlinear_arith)
                requires v > 0, pow(256, 32) > 0;
        }
        lemma2_to64();
        lemma_pow2_adds(64, 64);
        lemma_pow2_strictly_increases(128, 252);
    }
    Scalar { bytes: b }
}

/// The scalar whose value is `x`.
pub fn scalar_from_u64(x: u64) -> (r: Scalar)
    ensures
        r.is_canonical(),
        r.value() == x,
{
    scalar_from_u128(x as u128)
}

/// Relies on `Scalar::from_bytes_mod_order`: the 256-bit little-endian integer reduced
/// modulo the group order.
#[verifier::external_body]
pub(crate) fn dalek_from_bytes_mod_order(b: [u8; 32]) -> (r: Scalar)
    ensures
        r.is_canonical(),
        r.value() == le_value(b@) % group_order(),
{
    Scalar { bytes: DalekScalar::from_bytes_mod_order(b).to_bytes() }
}

/// Relies on `Scalar::from_bytes_mod_order_wide`: the 512-bit little-endian integer reduced
/// modulo the group order.
#[verifier::external_body]
pub(crate) fn dalek_from_bytes_mod_order_wide(b: &[u8; 64]) -> (r: Scalar)
    ensures
        r.is_canonical(),
        r.value() == le_value(b@) % group_order(),
{
    Scalar { bytes: DalekScalar::from_bytes_mod_order_wide(b).to_bytes() }
}

/// Relies on `Scalar::hash_from_bytes::<Sha512>`: a reduced scalar determined by the input.
#[verifier::external_body]
pub(crate) fn dalek_hash_from_bytes(input: &[u8]) -> (r: Scalar)
    ensures
        r@ == sha512_scalar_of(input@),
        r.is_canonical(),
{
    Scalar { bytes: DalekScalar::hash_from_bytes::<sha2::Sha512>(input).to_bytes() }
}

/// Constructs a scalar from bytes that should canonically encode it. A length other than 32
/// is an internal type error; a non-canonical encoding, also one that only a cleared high
/// bit would make canonical, is refused as a user error.
pub fn scalar_from_valid_bytes(bytes: Vec<u8>) -> (r: Result<Scalar, NativeError>)
    ensures
        match r {
            Ok(s) => decode_scalar(bytes@) == Ok::<nat, NativeError>(s.value()) && s@ == bytes@
                && s.is_canonical(),
            Err(e) => decode_scalar(bytes@) == Err::<nat, NativeError>(e),
        },
{
    if bytes.len() != 32 {
        return Err(NativeError::InvariantViolation { status: StatusCode::InternalTypeError });
    }
    let slice = match crate::value::bytes_to_32(&bytes) {
        Ok(a) => a,
        Err(e) => return Err(e),
    };
    match decode_canonical(slice) {
        Some(s) => Ok(s),
        None => Err(NativeError::Abort { code: E_NON_CANONICAL_SCALAR }),
    }
}

/// Pops a scalar off the argument stack when the argument was a `vector<u8>`.
pub fn pop_scalar_from_bytes(arguments: &mut Vec<Value>) -> (r: Result<Scalar, NativeError>)
    ensures
        final(arguments)@ == popped(old(arguments)@),
        match r {
            Ok(s) => scalar_arg(old(arguments)@, 0) == Ok::<nat, NativeError>(s.value())
                && scalar_bytes_arg(old(arguments)@, 0) == Ok::<Seq<u8>, NativeError>(s@)
                && s.is_canonical(),
            Err(e) => scalar_arg(old(arguments)@, 0) == Err::<nat, NativeError>(e),
        },
{
    let bytes = pop_bytes(arguments)?;
    scalar_from_valid_bytes(bytes)
}

/// The index of the `data` field inside a scalar record.
pub const DATA_FIELD_INDEX: usize = 0;

/// What reading a scalar out of a record makes of the record's fields.
pub open spec fn record_scalar(fields: Seq<Vec<u8>>) -> Result<nat, NativeError> {
    if fields.len() <= DATA_FIELD_INDEX {
        Err(type_error())
    } else {
        decode_scalar(fields[DATA_FIELD_INDEX as int]@)
    }
}

/// What reading a scalar out of a record value makes of it.
pub open spec fn struct_scalar(v: Value) -> Result<nat, NativeError> {
    match v {
        Value::Record(fields) => record_scalar(fields@),
        _ => Err(type_error()),
    }
}

/// Whether a scalar is zero.
pub fn is_zero(s: &Scalar) -> (r: bool)
    ensures
        r == (s.value() == 0),
{
    let mut i: usize = 0;
    while i < 32
        invariant
            i <= 32,
            forall|j: int| 0 <= j < i ==> s.bytes@[j] == 0,
        decreases 32 - i,
    {
        if s.bytes[i] != 0 {
            proof {
                lemma_le_value_zero(s.bytes@);
            }
            return false;
        }
        i = i + 1;
    }
    proof {
        lemma_le_value_zero(s.bytes@);
    }
    true
}

proof fn lemma_le_value_zero(s: Seq<u8>)
    ensures
        le_value(s) == 0 <==> forall|i: int| 0 <= i < s.len() ==> s[i] == 0,
    decreases s.len(),
{
    if s.len() > 0 {
        let t = s.subrange(1, s.len() as int);
        lemma_le_value_zero(t);
        if le_value(s) == 0 {
            assert forall|i: int| 0 <= i < s.len() implies s[i] == 0 by {
                if i > 0 {
                    assert(s[i] == t[i - 1]);
                }
            }
        }
        if forall|i: int| 0 <= i < s.len() ==> s[i] == 0 {
            assert forall|i: int| 0 <= i < t.len() implies t[i] == 0 by {
                assert(t[i] == s[i + 1]);
            }
            assert(s[0] == 0);
        }
    }
}

/// Reads the scalar held in the `data` field of a record's fields.
pub fn scalar_from_fields(fields: &Vec<Vec<u8>>) -> (r: Result<Scalar, NativeError>)
    ensures
        match r {
            Ok(s) => record_scalar(fields@) == Ok::<nat, NativeError>(s.value()) && s.is_canonical()
                && s@ == fields@[DATA_FIELD_INDEX as int]@,
            Err(e) => record_scalar(fields@) == Err::<nat, NativeError>(e),
        },
{
    if fields.len() <= DATA_FIELD_INDEX {
        return Err(NativeError::InvariantViolation { status: StatusCode::InternalTypeError });
    }
    scalar_from_valid_bytes(fields[DATA_FIELD_INDEX].clone())
}

/// Gets a scalar from a scalar record, whose `data` field holds its encoding.
pub fn scalar_from_struct(move_scalar: Value) -> (r: Result<Scalar, NativeError>)
    ensures
        match r {
            Ok(s) => struct_scalar(move_scalar) == Ok::<nat, NativeError>(s.value()) && s.is_canonical(),
            Err(e) => struct_scalar(move_scalar) == Err::<nat, NativeError>(e),
        },
{
    match move_scalar {
        Value::Record(fields) => scalar_from_fields(&fields),
        _ => Err(NativeError::InvariantViolation { status: StatusCode::InternalTypeError }),
    }
}

proof fn lemma_le_value_split(s: Seq<u8>)
    requires
        s.len() > 0,
    ensures
        s[0] as nat == le_value(s) % 256,
        le_value(s.subrange(1, s.len() as int)) == le_value(s) / 256,
{
    vstd::arithmetic::div_mod::lemma_fundamental_div_mod_converse(
        le_value(s) as int,
        256,
        le_value(s.subrange(1, s.len() as int)) as int,
        s[0] as int,
    );
}

/// Two byte sequences of one length that encode the same integer are equal.
pub proof fn lemma_le_value_injective(a: Seq<u8>, b: Seq<u8>)
    requires
        a.len() == b.len(),
        le_value(a) == le_value(b),
    ensures
        a == b,
    decreases a.len(),
{
    if a.len() > 0 {
        lemma_le_value_split(a);
        lemma_le_value_split(b);
        lemma_le_value_injective(a.subrange(1, a.len() as int), b.subrange(1, b.len() as int));
        assert forall|i: int| 0 <= i < a.len() implies a[i] == b[i] by {
            if i > 0 {
                assert(a[i] == a.subrange(1, a.len() as int)[i - 1]);
                assert(b[i] == b.subrange(1, b.len() as int)[i - 1]);
            }
        }
        assert(a =~= b);
    } else {
        assert(a =~= b);
    }
}

/// Reducing 32 bytes `b` modulo the group order yields the one canonical encoding `r` of the
/// reduced value: strict decoding accepts `r` and returns that value, and accepts no other
/// 32 bytes `c` for it. Strict decoding refuses `b` itself exactly when `b` is not canonical,
/// and then as a user error.
pub proof fn lemma_canonical_encoding(b: Seq<u8>, r: Seq<u8>, c: Seq<u8>)
    requires
        b.len() == 32,
        r.len() == 32,
        le_value(r) == le_value(b) % group_order(),
    ensures
        decode_scalar(r) == Ok::<nat, NativeError>(le_value(b) % group_order()),
        is_canonical_encoding(r),
        decode_scalar(c) == Ok::<nat, NativeError>(le_value(b) % group_order()) ==> c == r,
        is_canonical_encoding(b) ==> r == b,
        decode_scalar(b) is Ok <==> is_canonical_encoding(b),
        !is_canonical_encoding(b) ==> decode_scalar(b) == Err::<nat, NativeError>(
            abort(E_NON_CANONICAL_SCALAR),
        ),
{
    if decode_scalar(c) == Ok::<nat, NativeError>(le_value(b) % group_order()) {
        lemma_le_value_injective(c, r);
    }
    if is_canonical_encoding(b) {
        vstd::arithmetic::div_mod::lemma_small_mod(le_value(b), group_order());
        lemma_le_value_injective(b, r);
    }
}

/// In the scalar field, multiplication distributes over addition, addition and
/// multiplication commute, and zero and one are the neutral elements.
pub proof fn lemma_field_laws(a: nat, b: nat, c: nat)
    requires
        a < group_order(),
        b < group_order(),
        c < group_order(),
    ensures
        mul_mod(a, add_mod(b, c)) == add_mod(mul_mod(a, b), mul_mod(a, c)),
        add_mod(a, b) == add_mod(b, a),
        mul_mod(a, b) == mul_mod(b, a),
        add_mod(a, 0) == a,
        mul_mod(a, 1) == a,
        add_mod(a, neg_mod(a)) == 0,
{
    let m = group_order() as int;
    vstd::arithmetic::div_mod::lemma_mul_mod_noop_right(a as int, (b + c) as int, m);
    vstd::arithmetic::mul::lemma_mul_is_distributive_add(a as int, b as int, c as int);
    vstd::arithmetic::div_mod::lemma_add_mod_noop((a * b) as int, (a * c) as int, m);
    vstd::arithmetic::mul::lemma_mul_is_commutative(a as int, b as int);
    vstd::arithmetic::div_mod::lemma_small_mod(a, group_order());
    vstd::arithmetic::div_mod::lemma_add_mod_noop(a as int, (0 - a) as int, m);
    vstd::arithmetic::div_mod::lemma_small_mod(a, group_order());
    assert((0 - a) % m >= 0);
    assert(a as int % m == a);
    vstd::arithmetic::div_mod::lemma_mod_self_0(m);
    vstd::arithmetic::div_mod::lemma_small_mod(0, group_order());
}

} // verus!

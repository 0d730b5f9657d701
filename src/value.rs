//! Values on the host VM's argument stack, and popping them into fixed-size byte arrays.

use vstd::prelude::*;
use crate::error::{NativeError, StatusCode, type_error, missing_argument};

verus! {

/// A value handed over by the host VM.
#[derive(Clone, Debug, PartialEq, Eq)]
pub enum Value {
    Bool(bool),
    U64(u64),
    U128(u128),
    /// A `vector<u8>`: a scalar, a compressed point, or a buffer to hash.
    Bytes(Vec<u8>),
    /// A record whose fields are byte sequences, in declaration order.
    Record(Vec<Vec<u8>>),
    /// A vector of byte sequences.
    BytesVector(Vec<Vec<u8>>),
    /// A vector of records.
    RecordVector(Vec<Vec<Vec<u8>>>),
}

/// The value `k` places below the top of the stack (the top is `k == 0`).
pub open spec fn nth_from_top(args: Seq<Value>, k: nat) -> Option<Value> {
    if k < args.len() {
        Some(args[args.len() - 1 - k])
    } else {
        None
    }
}

/// Popping the top value moves every other value one place up.
pub proof fn lemma_popped_nth(args: Seq<Value>, k: nat)
    ensures
        nth_from_top(popped(args), k) == nth_from_top(args, k + 1),
{
}

/// The stack after its top value is popped.
pub open spec fn popped(args: Seq<Value>) -> Seq<Value> {
    if args.len() == 0 {
        args
    } else {
        args.drop_last()
    }
}

/// The byte sequence `k` places below the top, or the failure of reading one there.
pub open spec fn bytes_arg(args: Seq<Value>, k: nat) -> Result<Seq<u8>, NativeError> {
    match nth_from_top(args, k) {
        Some(Value::Bytes(b)) => Ok(b@),
        Some(_) => Err(type_error()),
        None => Err(missing_argument()),
    }
}

/// Like `bytes_arg`, but a length other than `n` is a type error.
pub open spec fn fixed_bytes_arg(args: Seq<Value>, k: nat, n: nat) -> Result<Seq<u8>, NativeError> {
    match bytes_arg(args, k) {
        Ok(b) => if b.len() == n {
            Ok(b)
        } else {
            Err(type_error())
        },
        Err(e) => Err(e),
    }
}

pub open spec fn array_result<const N: usize>(r: Result<[u8; N], NativeError>) -> Result<
    Seq<u8>,
    NativeError,
> {
    match r {
        Ok(a) => Ok(a@),
        Err(e) => Err(e),
    }
}

/// Pops the top value, which must be a byte sequence.
pub fn pop_bytes(arguments: &mut Vec<Value>) -> (r: Result<Vec<u8>, NativeError>)
    ensures
        final(arguments)@ == popped(old(arguments)@),
        match r {
            Ok(b) => bytes_arg(old(arguments)@, 0) == Ok::<Seq<u8>, NativeError>(b@),
            Err(e) => bytes_arg(old(arguments)@, 0) == Err::<Seq<u8>, NativeError>(e),
        },
{
    match arguments.pop() {
        Some(Value::Bytes(b)) => Ok(b),
        Some(_) => Err(NativeError::InvariantViolation { status: StatusCode::InternalTypeError }),
        None => Err(NativeError::InvariantViolation { status: StatusCode::MissingArgument }),
    }
}

/// Copies a byte sequence of length 32 into an array; any other length is a type error.
pub fn bytes_to_32(bytes: &Vec<u8>) -> (r: Result<[u8; 32], NativeError>)
    ensures
        bytes@.len() == 32 ==> array_result(r) == Ok::<Seq<u8>, NativeError>(bytes@),
        bytes@.len() != 32 ==> r == Err::<[u8; 32], NativeError>(type_error()),
{
    if bytes.len() != 32 {
        return Err(NativeError::InvariantViolation { status: StatusCode::InternalTypeError });
    }
    let mut a: [u8; 32] = [0u8; 32];
    let mut i: usize = 0;
    while i < 32
        invariant
            bytes@.len() == 32,
            i <= 32,
            forall|j: int| 0 <= j < i ==> a@[j] == bytes@[j],
        decreases 32 - i,
    {
        a[i] = bytes[i];
        i = i + 1;
    }
    assert(a@ =~= bytes@);
    Ok(a)
}

/// Copies a byte sequence of length 64 into an array; any other length is a type error.
pub fn bytes_to_64(bytes: &Vec<u8>) -> (r: Result<[u8; 64], NativeError>)
    ensures
        bytes@.len() == 64 ==> array_result(r) == Ok::<Seq<u8>, NativeError>(bytes@),
        bytes@.len() != 64 ==> r == Err::<[u8; 64], NativeError>(type_error()),
{
    if bytes.len() != 64 {
        return Err(NativeError::InvariantViolation { status: StatusCode::InternalTypeError });
    }
    let mut a: [u8; 64] = [0u8; 64];
    let mut i: usize = 0;
    while i < 64
        invariant
            bytes@.len() == 64,
            i <= 64,
            forall|j: int| 0 <= j < i ==> a@[j] == bytes@[j],
        decreases 64 - i,
    {
        a[i] = bytes[i];
        i = i + 1;
    }
    assert(a@ =~= bytes@);
    Ok(a)
}

/// Copies 32 bytes into a vector.
pub fn array_to_vec(a: &[u8; 32]) -> (r: Vec<u8>)
    ensures
        r@ == a@,
{
    let mut v: Vec<u8> = Vec::new();
    let mut i: usize = 0;
    while i < 32
        invariant
            i <= 32,
            v@ == a@.subrange(0, i as int),
        decreases 32 - i,
    {
        v.push(a[i]);
        i = i + 1;
    }
    assert(v@ =~= a@);
    v
}

/// Pops a 32 byte slice off the argument stack.
pub fn pop_32_byte_slice(arguments: &mut Vec<Value>) -> (r: Result<[u8; 32], NativeError>)
    ensures
        final(arguments)@ == popped(old(arguments)@),
        array_result(r) == fixed_bytes_arg(old(arguments)@, 0, 32),
{
    let bytes = pop_bytes(arguments)?;
    bytes_to_32(&bytes)
}

/// Pops a 64 byte slice off the argument stack.
pub fn pop_64_byte_slice(arguments: &mut Vec<Value>) -> (r: Result<[u8; 64], NativeError>)
    ensures
        final(arguments)@ == popped(old(arguments)@),
        array_result(r) == fixed_bytes_arg(old(arguments)@, 0, 64),
{
    let bytes = pop_bytes(arguments)?;
    bytes_to_64(&bytes)
}

} // verus!

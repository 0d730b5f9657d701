//! How a call fails: a user-visible abort, or a violation of the host VM's own guarantees.

use vstd::prelude::*;

verus! {

/// The internal status carried by an invariant violation.
#[derive(Clone, Copy, Debug, PartialEq, Eq, Structural)]
pub enum StatusCode {
    /// A value on the argument stack has a kind or a length that typed bytecode cannot produce.
    InternalTypeError,
    /// The argument stack holds fewer values than the operation takes.
    MissingArgument,
}

/// The failure of one operation.
#[derive(Clone, Copy, Debug, PartialEq, Eq, Structural)]
pub enum NativeError {
    /// The caller supplied a malformed input; the calling program sees `code`.
    Abort { code: u64 },
    /// The host VM broke its own contract; the whole execution unit stops.
    InvariantViolation { status: StatusCode },
}

/// A 32-byte scalar encoding is not the reduced representative of its field element.
pub const E_NON_CANONICAL_SCALAR: u64 = 1;

/// 32 bytes do not encode a point of the group.
pub const E_INVALID_POINT_ENCODING: u64 = 2;

/// The zero scalar has no inverse.
pub const E_ZERO_SCALAR_INVERSE: u64 = 3;

/// A multi-scalar multiplication got sequences of different lengths.
pub const E_DIFFERENT_NUM_POINTS_AND_SCALARS: u64 = 4;

/// A multi-scalar multiplication got no points at all.
pub const E_ZERO_POINTS: u64 = 5;

pub open spec fn abort(code: u64) -> NativeError {
    NativeError::Abort { code }
}

pub open spec fn type_error() -> NativeError {
    NativeError::InvariantViolation { status: StatusCode::InternalTypeError }
}

pub open spec fn missing_argument() -> NativeError {
    NativeError::InvariantViolation { status: StatusCode::MissingArgument }
}

} // verus!

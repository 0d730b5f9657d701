//! Gas-metered Ristretto255 group and scalar-field operations for a stack-based VM.
//!
//! The host VM calls an operation by identifier through a [`NativeTable`]; the operation
//! pops its arguments off a stack of [`Value`]s, charges a cost fixed before it runs, and
//! returns one value or a [`NativeError`] that says whether the caller or the VM was at fault.

pub mod catalog;
pub mod cost;
pub mod error;
pub mod handlers;
pub mod point;
pub mod registry;
pub mod scalar;
pub mod value;

pub use catalog::{operation_cost, Operation, Outcome, NUM_OPERATIONS};
pub use cost::GasParameters;
pub use error::{
    NativeError, StatusCode, E_DIFFERENT_NUM_POINTS_AND_SCALARS, E_INVALID_POINT_ENCODING,
    E_NON_CANONICAL_SCALAR, E_ZERO_POINTS, E_ZERO_SCALAR_INVERSE,
};
pub use handlers::execute;
pub use registry::{all_operations, make_all, DispatchError, Features, NativeTable};
pub use scalar::{pop_scalar_from_bytes, scalar_from_struct, scalar_from_valid_bytes, Scalar};
pub use value::{pop_32_byte_slice, pop_64_byte_slice, Value};

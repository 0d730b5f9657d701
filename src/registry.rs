//! The dispatch table: operations by stable identifier and by name, gated by features.

use vstd::prelude::*;
use crate::catalog::{NUM_OPERATIONS, Operation, Outcome, op_cost, op_result};
use crate::cost::GasParameters;
use crate::handlers::execute;
use crate::value::Value;

verus! {

impl Operation {
    /// The stable identifier of the operation.
    pub open spec fn index_spec(&self) -> nat {
        match self {
            Operation::PointIsCanonical => 0,
            Operation::PointIdentity => 1,
            Operation::PointDecompress => 2,
            Operation::PointClone => 3,
            Operation::PointCompress => 4,
            Operation::PointMul => 5,
            Operation::PointDoubleMul => 6,
            Operation::PointEquals => 7,
            Operation::PointNeg => 8,
            Operation::PointAdd => 9,
            Operation::PointSub => 10,
            Operation::BasepointMul => 11,
            Operation::BasepointDoubleMul => 12,
            Operation::NewPointFromSha512 => 13,
            Operation::NewPointFromUniformBytes => 14,
            Operation::DoubleScalarMul => 15,
            Operation::MultiScalarMul => 16,
            Operation::ScalarIsCanonical => 17,
            Operation::ScalarInvert => 18,
            Operation::ScalarFromSha512 => 19,
            Operation::ScalarMul => 20,
            Operation::ScalarAdd => 21,
            Operation::ScalarSub => 22,
            Operation::ScalarNeg => 23,
            Operation::ScalarFromU64 => 24,
            Operation::ScalarFromU128 => 25,
            Operation::ScalarReducedFrom32Bytes => 26,
            Operation::ScalarUniformFrom64Bytes => 27,
        }
    }

    /// The stable identifier of the operation.
    pub fn index(&self) -> (r: u64)
        ensures
            r == self.index_spec(),
            r < NUM_OPERATIONS,
    {
        match self {
            Operation::PointIsCanonical => 0,
            Operation::PointIdentity => 1,
            Operation::PointDecompress => 2,
            Operation::PointClone => 3,
            Operation::PointCompress => 4,
            Operation::PointMul => 5,
            Operation::PointDoubleMul => 6,
            Operation::PointEquals => 7,
            Operation::PointNeg => 8,
            Operation::PointAdd => 9,
            Operation::PointSub => 10,
            Operation::BasepointMul => 11,
            Operation::BasepointDoubleMul => 12,
            Operation::NewPointFromSha512 => 13,
            Operation::NewPointFromUniformBytes => 14,
            Operation::DoubleScalarMul => 15,
            Operation::MultiScalarMul => 16,
            Operation::ScalarIsCanonical => 17,
            Operation::ScalarInvert => 18,
            Operation::ScalarFromSha512 => 19,
            Operation::ScalarMul => 20,
            Operation::ScalarAdd => 21,
            Operation::ScalarSub => 22,
            Operation::ScalarNeg => 23,
            Operation::ScalarFromU64 => 24,
            Operation::ScalarFromU128 => 25,
            Operation::ScalarReducedFrom32Bytes => 26,
            Operation::ScalarUniformFrom64Bytes => 27,
        }
    }

    /// The operation with a given identifier.
    pub open spec fn from_index_spec(i: u64) -> Option<Operation> {
        match i {
            0 => Some(Operation::PointIsCanonical),
            1 => Some(Operation::PointIdentity),
            2 => Some(Operation::PointDecompress),
            3 => Some(Operation::PointClone),
            4 => Some(Operation::PointCompress),
            5 => Some(Operation::PointMul),
            6 => Some(Operation::PointDoubleMul),
            7 => Some(Operation::PointEquals),
            8 => Some(Operation::PointNeg),
            9 => Some(Operation::PointAdd),
            10 => Some(Operation::PointSub),
            11 => Some(Operation::BasepointMul),
            12 => Some(Operation::BasepointDoubleMul),
            13 => Some(Operation::NewPointFromSha512),
            14 => Some(Operation::NewPointFromUniformBytes),
            15 => Some(Operation::DoubleScalarMul),
            16 => Some(Operation::MultiScalarMul),
            17 => Some(Operation::ScalarIsCanonical),
            18 => Some(Operation::ScalarInvert),
            19 => Some(Operation::ScalarFromSha512),
            20 => Some(Operation::ScalarMul),
            21 => Some(Operation::ScalarAdd),
            22 => Some(Operation::ScalarSub),
            23 => Some(Operation::ScalarNeg),
            24 => Some(Operation::ScalarFromU64),
            25 => Some(Operation::ScalarFromU128),
            26 => Some(Operation::ScalarReducedFrom32Bytes),
            27 => Some(Operation::ScalarUniformFrom64Bytes),
            _ => None,
        }
    }

    /// The operation with a given identifier, if there is one.
    pub fn from_index(i: u64) -> (r: Option<Operation>)
        ensures
            r == Operation::from_index_spec(i),
    {
        match i {
            0 => Some(Operation::PointIsCanonical),
            1 => Some(Operation::PointIdentity),
            2 => Some(Operation::PointDecompress),
            3 => Some(Operation::PointClone),
            4 => Some(Operation::PointCompress),
            5 => Some(Operation::PointMul),
            6 => Some(Operation::PointDoubleMul),
            7 => Some(Operation::PointEquals),
            8 => Some(Operation::PointNeg),
            9 => Some(Operation::PointAdd),
            10 => Some(Operation::PointSub),
            11 => Some(Operation::BasepointMul),
            12 => Some(Operation::BasepointDoubleMul),
            13 => Some(Operation::NewPointFromSha512),
            14 => Some(Operation::NewPointFromUniformBytes),
            15 => Some(Operation::DoubleScalarMul),
            16 => Some(Operation::MultiScalarMul),
            17 => Some(Operation::ScalarIsCanonical),
            18 => Some(Operation::ScalarInvert),
            19 => Some(Operation::ScalarFromSha512),
            20 => Some(Operation::ScalarMul),
            21 => Some(Operation::ScalarAdd),
            22 => Some(Operation::ScalarSub),
            23 => Some(Operation::ScalarNeg),
            24 => Some(Operation::ScalarFromU64),
            25 => Some(Operation::ScalarFromU128),
            26 => Some(Operation::ScalarReducedFrom32Bytes),
            27 => Some(Operation::ScalarUniformFrom64Bytes),
            _ => None,
        }
    }

    /// The name under which the host VM calls the operation. Two names lead to one handler
    /// for a double scalar multiplication, kept so that both stay callable.
    pub fn name(&self) -> &'static str {
        match self {
            Operation::PointIsCanonical => "point_is_canonical_internal",
            Operation::PointIdentity => "point_identity_internal",
            Operation::PointDecompress => "point_decompress_internal",
            Operation::PointClone => "point_clone_internal",
            Operation::PointCompress => "point_compress_internal",
            Operation::PointMul => "point_mul_internal",
            Operation::PointDoubleMul => "point_double_mul_internal",
            Operation::PointEquals => "point_equals",
            Operation::PointNeg => "point_neg_internal",
            Operation::PointAdd => "point_add_internal",
            Operation::PointSub => "point_sub_internal",
            Operation::BasepointMul => "basepoint_mul_internal",
            Operation::BasepointDoubleMul => "basepoint_double_mul_internal",
            Operation::NewPointFromSha512 => "new_point_from_sha512_internal",
            Operation::NewPointFromUniformBytes => "new_point_from_64_uniform_bytes_internal",
            Operation::DoubleScalarMul => "double_scalar_mul_internal",
            Operation::MultiScalarMul => "multi_scalar_mul_internal",
            Operation::ScalarIsCanonical => "scalar_is_canonical_internal",
            Operation::ScalarInvert => "scalar_invert_internal",
            Operation::ScalarFromSha512 => "scalar_from_sha512_internal",
            Operation::ScalarMul => "scalar_mul_internal",
            Operation::ScalarAdd => "scalar_add_internal",
            Operation::ScalarSub => "scalar_sub_internal",
            Operation::ScalarNeg => "scalar_neg_internal",
            Operation::ScalarFromU64 => "scalar_from_u64_internal",
            Operation::ScalarFromU128 => "scalar_from_u128_internal",
            Operation::ScalarReducedFrom32Bytes => "scalar_reduced_from_32_bytes_internal",
            Operation::ScalarUniformFrom64Bytes => "scalar_uniform_from_64_bytes_internal",
        }
    }
}

/// Identifiers and operations correspond one to one.
pub proof fn lemma_index_round_trip(op: Operation)
    ensures
        Operation::from_index_spec(op.index_spec() as u64) == Some(op),
        op.index_spec() < NUM_OPERATIONS,
{
}

/// Every identifier below `NUM_OPERATIONS` names an operation, and no other does.
pub proof fn lemma_from_index_total(i: u64)
    ensures
        Operation::from_index_spec(i) is Some <==> i < NUM_OPERATIONS,
        Operation::from_index_spec(i) matches Some(op) ==> op.index_spec() == i,
{
}

/// All operations, in identifier order.
pub fn all_operations() -> (r: Vec<Operation>)
    ensures
        r@.len() == NUM_OPERATIONS,
        forall|i: int| 0 <= i < r@.len() ==> (#[trigger] r@[i]).index_spec() == i,
{
    let mut v: Vec<Operation> = Vec::new();
    v.push(Operation::PointIsCanonical);
    v.push(Operation::PointIdentity);
    v.push(Operation::PointDecompress);
    v.push(Operation::PointClone);
    v.push(Operation::PointCompress);
    v.push(Operation::PointMul);
    v.push(Operation::PointDoubleMul);
    v.push(Operation::PointEquals);
    v.push(Operation::PointNeg);
    v.push(Operation::PointAdd);
    v.push(Operation::PointSub);
    v.push(Operation::BasepointMul);
    v.push(Operation::BasepointDoubleMul);
    v.push(Operation::NewPointFromSha512);
    v.push(Operation::NewPointFromUniformBytes);
    v.push(Operation::DoubleScalarMul);
    v.push(Operation::MultiScalarMul);
    v.push(Operation::ScalarIsCanonical);
    v.push(Operation::ScalarInvert);
    v.push(Operation::ScalarFromSha512);
    v.push(Operation::ScalarMul);
    v.push(Operation::ScalarAdd);
    v.push(Operation::ScalarSub);
    v.push(Operation::ScalarNeg);
    v.push(Operation::ScalarFromU64);
    v.push(Operation::ScalarFromU128);
    v.push(Operation::ScalarReducedFrom32Bytes);
    v.push(Operation::ScalarUniformFrom64Bytes);
    v
}

/// Whether `enabled` lets operation `op` run.
pub open spec fn enabled_in(enabled: Seq<bool>, op: Operation) -> bool {
    op.index_spec() < enabled.len() && enabled[op.index_spec() as int]
}

/// Which operations the active protocol configuration enables, by identifier.
#[derive(Clone, Debug)]
pub struct Features {
    pub enabled: Vec<bool>,
}

impl View for Features {
    type V = Seq<bool>;

    open spec fn view(&self) -> Seq<bool> {
        self.enabled@
    }
}

impl Features {
    /// Every operation enabled.
    pub fn all_enabled() -> (r: Features)
        ensures
            r@.len() == NUM_OPERATIONS,
            forall|op: Operation| enabled_in(r@, op),
    {
        let mut enabled: Vec<bool> = Vec::new();
        let mut i: usize = 0;
        while i < NUM_OPERATIONS
            invariant
                i <= NUM_OPERATIONS,
                enabled@.len() == i,
                forall|j: int| 0 <= j < i ==> enabled@[j],
            decreases NUM_OPERATIONS - i,
        {
            enabled.push(true);
            i = i + 1;
        }
        Features { enabled }
    }

    /// Whether operation `op` may run.
    pub fn is_enabled(&self, op: Operation) -> (r: bool)
        ensures
            r == enabled_in(self@, op),
    {
        let i = op.index() as usize;
        i < self.enabled.len() && self.enabled[i]
    }

    /// Enables or disables operation `op`, and no other.
    pub fn set_enabled(&mut self, op: Operation, on: bool)
        requires
            old(self)@.len() == NUM_OPERATIONS,
        ensures
            final(self)@ == old(self)@.update(op.index_spec() as int, on),
            final(self)@.len() == NUM_OPERATIONS,
    {
        let i = op.index() as usize;
        self.enabled.set(i, on);
    }
}

/// Why a call did not reach its operation.
#[derive(Clone, Copy, Debug, PartialEq, Eq, Structural)]
pub enum DispatchError {
    /// No operation has the identifier or name.
    UnknownOperation,
    /// The active configuration disables the operation.
    FeatureDisabled,
}

/// The table through which the host VM calls the operations: the gas parameters and the
/// features, fixed when it is built.
#[derive(Clone, Debug)]
pub struct NativeTable {
    pub gas: GasParameters,
    pub features: Features,
}

/// Builds the table of all operations.
pub fn make_all(gas_params: GasParameters, features: Features) -> (r: NativeTable)
    ensures
        r.gas == gas_params,
        r.features@ == features@,
{
    NativeTable { gas: gas_params, features }
}

impl NativeTable {
    /// Calls the operation with identifier `id`: an unknown identifier and a disabled
    /// operation are refused before any argument is read; otherwise the operation runs and
    /// charges its cost.
    pub fn dispatch(&self, id: u64, args: &mut Vec<Value>) -> (r: Result<Outcome, DispatchError>)
        ensures
            match Operation::from_index_spec(id) {
                None => r == Err::<Outcome, DispatchError>(DispatchError::UnknownOperation)
                    && final(args)@ == old(args)@,
                Some(op) => if !enabled_in(self.features@, op) {
                    r == Err::<Outcome, DispatchError>(DispatchError::FeatureDisabled)
                        && final(args)@ == old(args)@
                } else {
                    r is Ok && r->Ok_0.cost == op_cost(self.gas, op, old(args)@)
                        && op_result(op, old(args)@, r->Ok_0.result)
                },
            },
    {
        let op = match Operation::from_index(id) {
            Some(op) => op,
            None => return Err(DispatchError::UnknownOperation),
        };
        if !self.features.is_enabled(op) {
            return Err(DispatchError::FeatureDisabled);
        }
        Ok(execute(&self.gas, op, args))
    }
}

/// Disabling an operation makes dispatch refuse it whatever the arguments, enabling it again
/// lets it run, and neither changes whether any other operation may run.
pub proof fn lemma_feature_gating(enabled: Seq<bool>, op: Operation, other: Operation, on: bool)
    requires
        enabled.len() == NUM_OPERATIONS,
        other != op,
    ensures
        enabled_in(enabled.update(op.index_spec() as int, on), op) == on,
        enabled_in(enabled.update(op.index_spec() as int, on), other) == enabled_in(enabled, other),
{
    lemma_index_round_trip(op);
    lemma_index_round_trip(other);
}

} // verus!

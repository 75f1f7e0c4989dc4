use vstd::prelude::*;

verus! {

/// Compute target of the session, fixed at construction (candle_core).
#[verifier::external_type_specification]
#[verifier::external_body]
pub struct ExDevice(candle_core::Device);

/// Opaque tensor handle of the tensor runtime (candle_core).
#[verifier::external_type_specification]
#[verifier::external_body]
pub struct ExTensor(candle_core::Tensor);

/// Error type of the tensor runtime (candle_core); the wrappers map it to
/// this crate's own error type.
#[verifier::external_type_specification]
#[verifier::external_body]
pub struct ExCandleError(candle_core::Error);

/// What a tensor holds: its scalar entries in order, each given by its bit
/// pattern. Contracts of the trusted wrappers speak of tensor contents only
/// through this name.
pub uninterp spec fn content_of(t: candle_core::Tensor) -> Seq<u32>;

} // verus!

use candle_core::{Device as CandleDevice, Error as CandleError};
use vstd::prelude::*;

verus! {

// The execution backends of candle. `candle_core::Device` is declared with its
// variants visible (`Cpu`, `Cuda`, `Metal`), so that contracts can say which family a
// backend belongs to; the per-family handles stay opaque.

/// candle_core::CudaDevice, opaque.
#[verifier::external_type_specification]
#[verifier::external_body]
pub struct ExCudaDevice(candle_core::CudaDevice);

/// candle_core::MetalDevice, opaque.
#[verifier::external_type_specification]
#[verifier::external_body]
pub struct ExMetalDevice(candle_core::MetalDevice);

/// candle_core::Device: which variant a value is, is visible.
#[verifier::external_type_specification]
pub struct ExBackend(CandleDevice);

/// candle_core::Error, opaque.
#[verifier::external_type_specification]
#[verifier::external_body]
pub struct ExCandleError(CandleError);

/// Relies on candle_core::Device::new_cuda, which wraps the opened device in the `Cuda`
/// variant or fails (always, in a build without CUDA support).
#[verifier::external_body]
pub(crate) fn open_cuda(ordinal: usize) -> (r: Result<CandleDevice, CandleError>)
    ensures
        r matches Ok(d) ==> d is Cuda,
{
    CandleDevice::new_cuda(ordinal)
}

/// Relies on candle_core::Device::new_metal, which wraps the opened device in the
/// `Metal` variant or fails (always, in a build without Metal support).
#[verifier::external_body]
pub(crate) fn open_metal(ordinal: usize) -> (r: Result<CandleDevice, CandleError>)
    ensures
        r matches Ok(d) ==> d is Metal,
{
    CandleDevice::new_metal(ordinal)
}

} // verus!

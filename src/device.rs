use crate::backend::{open_cuda, open_metal};
use crate::config::Device;
use crate::error::Error;
use vstd::prelude::*;

verus! {

/// Whether a backend is of the family that was requested.
pub open spec fn backend_matches(requested: Device, b: candle_core::Device) -> bool {
    match requested {
        Device::Cpu => b is Cpu,
        Device::Gpu => b is Cuda,
        Device::Metal => b is Metal,
    }
}

impl Device {
    /// Binds the requested device to a backend. The CPU is always available; a GPU or
    /// an accelerator that cannot be opened is reported, never replaced by another device.
    pub fn into_device(&self) -> (r: Result<candle_core::Device, Error>)
        ensures
            *self == Device::Cpu ==> r is Ok,
            *self == Device::Gpu ==> (r is Ok || r == Err::<candle_core::Device, Error>(
                Error::CUDAError,
            )),
            *self == Device::Metal ==> (r is Ok || r == Err::<candle_core::Device, Error>(
                Error::MetalError,
            )),
            r matches Ok(b) ==> backend_matches(*self, b),
    {
        match self {
            Device::Cpu => Ok(candle_core::Device::Cpu),
            Device::Gpu => match open_cuda(0) {
                Ok(d) => Ok(d),
                Err(_) => Err(Error::CUDAError),
            },
            Device::Metal => match open_metal(0) {
                Ok(d) => Ok(d),
                Err(_) => Err(Error::MetalError),
            },
        }
    }
}

} // verus!

//! Which compute device the engine runs on.

use vstd::prelude::*;

verus! {

/// Compute devices the engine can run on.
#[derive(Debug, Clone, Copy, PartialEq, Eq, Structural)]
pub enum ComputeDevice {
    /// CPU computation, always available.
    Cpu,
    /// An NVIDIA GPU through CUDA.
    Cuda,
    /// An Apple GPU through Metal.
    Metal,
}

impl ComputeDevice {
    /// The numeric code of the device on the foreign boundary.
    pub open spec fn code_spec(self) -> i32 {
        match self {
            ComputeDevice::Cpu => 0,
            ComputeDevice::Cuda => 1,
            ComputeDevice::Metal => 2,
        }
    }

    /// The numeric code of the device on the foreign boundary.
    pub fn code(&self) -> (r: i32)
        ensures
            r == self.code_spec(),
    {
        match self {
            ComputeDevice::Cpu => 0,
            ComputeDevice::Cuda => 1,
            ComputeDevice::Metal => 2,
        }
    }
}

/// Relies on candle_core::Device::new_metal: whether a Metal device can be
/// opened on this machine. It fails when candle was built without Metal.
#[verifier::external_body]
fn metal_device_opens() -> (r: bool) {
    candle_core::Device::new_metal(0).is_ok()
}

/// Relies on candle_core::Device::cuda_if_available: whether it hands back a
/// CUDA device rather than falling back to the CPU or failing.
#[verifier::external_body]
fn cuda_device_opens() -> (r: bool) {
    match candle_core::Device::cuda_if_available(0) {
        Ok(candle_core::Device::Cpu) => false,
        Ok(_) => true,
        Err(_) => false,
    }
}

/// The device chosen by priority: Metal first, then CUDA, then the CPU.
pub open spec fn preferred_device(metal: bool, cuda: bool) -> ComputeDevice {
    if metal {
        ComputeDevice::Metal
    } else if cuda {
        ComputeDevice::Cuda
    } else {
        ComputeDevice::Cpu
    }
}

/// Whether `device` can be used, given which GPU backends could be opened.
pub open spec fn device_usable(device: ComputeDevice, metal: bool, cuda: bool) -> bool {
    match device {
        ComputeDevice::Cpu => true,
        ComputeDevice::Cuda => cuda,
        ComputeDevice::Metal => metal,
    }
}

/// Picks the active device from what the GPU probes reported.
pub fn select_device(metal: bool, cuda: bool) -> (r: ComputeDevice)
    ensures
        r == preferred_device(metal, cuda),
        device_usable(r, metal, cuda),
{
    if metal {
        ComputeDevice::Metal
    } else if cuda {
        ComputeDevice::Cuda
    } else {
        ComputeDevice::Cpu
    }
}

/// The device the engine runs on: Metal when a Metal device opens, else CUDA
/// when a CUDA device opens, else the CPU. What opens depends on the machine
/// at the time of the call, so no contract names the result; `select_device`
/// states the choice for given probe results.
pub fn get_active_device_type() -> ComputeDevice {
    let metal = metal_device_opens();
    if metal {
        return select_device(true, false);
    }
    let cuda = cuda_device_opens();
    select_device(false, cuda)
}

/// Whether `device` can be used on this machine. The CPU always can.
pub fn is_device_available(device: ComputeDevice) -> (r: bool)
    ensures
        device == ComputeDevice::Cpu ==> r,
{
    match device {
        ComputeDevice::Cpu => true,
        ComputeDevice::Cuda => cuda_device_opens(),
        ComputeDevice::Metal => metal_device_opens(),
    }
}

} // verus!

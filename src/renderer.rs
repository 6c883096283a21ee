use vstd::prelude::*;

verus! {

/// The GPU abstraction layer's connection to the graphics backends.
#[verifier::external_type_specification]
#[verifier::external_body]
pub struct ExInstance(wgpu::Instance);

/// A logical GPU device.
#[verifier::external_type_specification]
#[verifier::external_body]
pub struct ExDevice(wgpu::Device);

/// The command queue of a device.
#[verifier::external_type_specification]
#[verifier::external_body]
pub struct ExQueue(wgpu::Queue);

/// GPU resource management: the instance, with the device and queue that
/// were negotiated from it.
pub struct Renderer {
    pub instance: wgpu::Instance,
    pub device: wgpu::Device,
    pub queue: wgpu::Queue,
}

impl Renderer {
    /// Holds an instance with the device and queue acquired through it.
    ///
    /// Acquiring them is asynchronous negotiation with the driver, done by
    /// the caller before the event loop starts.
    pub fn new(instance: wgpu::Instance, device: wgpu::Device, queue: wgpu::Queue) -> (r: Self)
        ensures
            r.instance == instance,
            r.device == device,
            r.queue == queue,
    {
        Renderer { instance, device, queue }
    }
}

} // verus!

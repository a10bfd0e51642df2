//! Handles to what lives on the graphics device, and the device state the
//! engine keeps track of.

use vstd::prelude::*;

verus! {

/// Names a buffer that lives on the graphics device.
#[derive(Clone, Copy, Debug, PartialEq, Eq, Structural)]
pub struct BufferHandle {
    pub id: u64,
}

/// Names a texture, with its view and sampler, on the graphics device.
#[derive(Clone, Copy, Debug, PartialEq, Eq, Structural)]
pub struct TextureHandle {
    pub id: u64,
}

/// Names a bind group on the graphics device.
#[derive(Clone, Copy, Debug, PartialEq, Eq, Structural)]
pub struct BindGroupHandle {
    pub id: u64,
}

/// Names a bind group layout on the graphics device.
#[derive(Clone, Copy, Debug, PartialEq, Eq, Structural)]
pub struct BindGroupLayoutHandle {
    pub id: u64,
}

/// Names the graphics device itself.
#[derive(Clone, Copy, Debug, PartialEq, Eq, Structural)]
pub struct DeviceHandle {
    pub id: u64,
}

/// Names the queue through which data is uploaded to the device.
#[derive(Clone, Copy, Debug, PartialEq, Eq, Structural)]
pub struct QueueHandle {
    pub id: u64,
}

/// Width and height of the drawing surface, in pixels.
#[derive(Clone, Copy, Debug, PartialEq, Eq, Structural)]
pub struct SurfaceSize {
    pub width: u32,
    pub height: u32,
}

/// What the engine knows of the graphics device: the handles through which
/// content is uploaded, and the current size of the surface.
#[derive(Clone, Copy, Debug, PartialEq, Eq, Structural)]
pub struct State {
    pub device: DeviceHandle,
    pub queue: QueueHandle,
    pub texture_bind_group_layout: BindGroupLayoutHandle,
    pub size: SurfaceSize,
}

impl State {
    /// The state of a device whose surface has the given size.
    pub fn new(
        device: DeviceHandle,
        queue: QueueHandle,
        texture_bind_group_layout: BindGroupLayoutHandle,
        size: SurfaceSize,
    ) -> (state: State)
        ensures
            state == (State { device, queue, texture_bind_group_layout, size }),
    {
        State { device, queue, texture_bind_group_layout, size }
    }

    /// Records the new size of the surface.
    pub fn resize(&mut self, new_size: SurfaceSize)
        ensures
            *final(self) == (State { size: new_size, ..*old(self) }),
    {
        self.size = new_size;
    }
}

} // verus!

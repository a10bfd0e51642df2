//! The settings of the window, each with a mark that says whether it has
//! been changed.

use crate::types::Sentinel;
use vstd::prelude::*;
use vstd::std_specs::cmp::PartialEqSpecImpl;

verus! {

/// How the window takes up the screen.
#[derive(Clone, Copy, Debug)]
pub enum WindowMode {
    Windowed,
    Fullscreen,
}

impl PartialEq for WindowMode {
    fn eq(&self, other: &Self) -> (equal: bool) {
        match (self, other) {
            (WindowMode::Windowed, WindowMode::Windowed) => true,
            (WindowMode::Fullscreen, WindowMode::Fullscreen) => true,
            _ => false,
        }
    }
}

impl PartialEqSpecImpl for WindowMode {
    open spec fn obeys_eq_spec() -> bool {
        true
    }

    open spec fn eq_spec(&self, other: &Self) -> bool {
        *self == *other
    }
}

/// Width and height of the window, in pixels.
#[derive(Clone, Copy, Debug)]
pub struct Resolution {
    pub width: u32,
    pub height: u32,
}

impl PartialEq for Resolution {
    fn eq(&self, other: &Self) -> (equal: bool) {
        self.width == other.width && self.height == other.height
    }
}

impl PartialEqSpecImpl for Resolution {
    open spec fn obeys_eq_spec() -> bool {
        true
    }

    open spec fn eq_spec(&self, other: &Self) -> bool {
        self.width == other.width && self.height == other.height
    }
}

/// The resolution and the mode of the window.
pub struct GraphicsContext {
    resolution: Sentinel<Resolution>,
    window_mode: Sentinel<WindowMode>,
}

impl GraphicsContext {
    /// Width and height of the window, in pixels.
    pub closed spec fn resolution(&self) -> Resolution {
        self.resolution.value()
    }

    /// Whether the resolution has been changed since the context was made.
    pub closed spec fn resolution_touched(&self) -> bool {
        self.resolution.is_touched()
    }

    /// The mode of the window.
    pub closed spec fn window_mode(&self) -> WindowMode {
        self.window_mode.value()
    }

    /// Whether the mode has been changed since the context was made.
    pub closed spec fn window_mode_touched(&self) -> bool {
        self.window_mode.is_touched()
    }

    /// A context with the given resolution and mode, neither of them changed.
    pub fn new(width: u32, height: u32, mode: WindowMode) -> (context: Self)
        ensures
            context.resolution() == (Resolution { width, height }),
            context.window_mode() == mode,
            !context.resolution_touched(),
            !context.window_mode_touched(),
    {
        GraphicsContext {
            resolution: Sentinel::new(Resolution { width, height }),
            window_mode: Sentinel::new(mode),
        }
    }

    /// Width and height of the window.
    pub fn get_resolution(&self) -> (resolution: Resolution)
        ensures
            resolution == self.resolution(),
    {
        *self.resolution.get()
    }

    /// The mode of the window.
    pub fn get_window_mode(&self) -> (mode: WindowMode)
        ensures
            mode == self.window_mode(),
    {
        *self.window_mode.get()
    }

    /// Whether the resolution has been changed since the context was made.
    pub fn resolution_changed(&self) -> (changed: bool)
        ensures
            changed == self.resolution_touched(),
    {
        self.resolution.touched()
    }

    /// Whether the mode has been changed since the context was made.
    pub fn window_mode_changed(&self) -> (changed: bool)
        ensures
            changed == self.window_mode_touched(),
    {
        self.window_mode.touched()
    }

    /// Sets the resolution of the window. The resolution is marked as
    /// changed if it differs from the one before.
    pub fn set_resolution(&mut self, width: u32, height: u32)
        ensures
            final(self).resolution() == (Resolution { width, height }),
            final(self).resolution_touched() == (old(self).resolution_touched() || old(
                self,
            ).resolution() != (Resolution { width, height })),
            final(self).window_mode() == old(self).window_mode(),
            final(self).window_mode_touched() == old(self).window_mode_touched(),
    {
        self.resolution.set(Resolution { width, height });
    }

    /// Sets the mode of the window. The mode is marked as changed if it
    /// differs from the one before.
    pub fn set_window_mode(&mut self, mode: WindowMode)
        ensures
            final(self).window_mode() == mode,
            final(self).window_mode_touched() == (old(self).window_mode_touched() || old(
                self,
            ).window_mode() != mode),
            final(self).resolution() == old(self).resolution(),
            final(self).resolution_touched() == old(self).resolution_touched(),
    {
        self.window_mode.set(mode);
    }
}

/// The name of the render driver that draws with OpenGL.
pub const OPENGL_DRIVER: &'static str = "opengl";

/// The position of the OpenGL driver among the render drivers, whose names
/// are given in order: the first of that name, as far as positions can be
/// counted in 32 bits.
pub fn find_sdl_gl_driver(driver_names: &Vec<String>) -> (found: Option<u32>)
    ensures
        match found {
            Some(index) => {
                &&& index < driver_names.len()
                &&& driver_names[index as int]@ == OPENGL_DRIVER@
                &&& forall|k: int| 0 <= k < index ==> (#[trigger] driver_names[k])@ != OPENGL_DRIVER@
            },
            None => forall|k: int|
                0 <= k < driver_names.len() && k <= u32::MAX ==> (#[trigger] driver_names[k])@
                    != OPENGL_DRIVER@,
        },
{
    let wanted = String::from_str(OPENGL_DRIVER);
    let mut index: u32 = 0;
    loop
        invariant
            wanted@ == OPENGL_DRIVER@,
            index <= driver_names.len(),
            forall|k: int| 0 <= k < index ==> (#[trigger] driver_names[k])@ != OPENGL_DRIVER@,
        decreases u32::MAX - index,
    {
        if index as usize >= driver_names.len() {
            return None;
        }
        if driver_names[index as usize] == wanted {
            return Some(index);
        }
        if index == u32::MAX {
            return None;
        }
        index += 1;
    }
}

} // verus!

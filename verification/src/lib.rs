//! Runtime core of a small interactive-application engine: the frame loop's
//! decisions, named input axes, and the import of model assets into
//! renderable form.

use vstd::prelude::*;

pub mod content_loader;
pub mod device;
pub mod game;
pub mod game_time;
pub mod graphics_context;
pub mod input;
pub mod model;
pub mod paths;
pub mod renderer;
pub mod types;

verus! {

/// Something that can be made without any input.
pub trait Newable: Sized {
    fn new() -> Self;
}

} // verus!

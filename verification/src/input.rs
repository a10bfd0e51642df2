//! Raw key transitions turned into named, continuously queryable axes.

pub mod input_system;
pub mod keyboard;
pub mod transitions;

//! The per-frame update systems. The host calls them in a fixed order
//! within each frame: movement first, bounce second.

pub mod ball;
pub mod player;

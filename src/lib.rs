//! Sprite-animation playback: a registry of looping frame sequences and a
//! tick-driven machine that walks through the selected one.

pub mod sequence;
pub mod machine;
pub mod laws;

//! Decision core of a browser sprite player: the single-fire guard that turns
//! two racing host callbacks into one load outcome, and the frame stepping of
//! the animation that runs once the image is there.

pub mod completer;
pub mod animation;
pub mod frames;
pub mod loader;
pub mod signal;

//! The decisions of a bridge to a video stabilisation engine.
//!
//! A caller hands the bridge raw numbers and pointers; the engine wants sensible settings in a
//! fixed order. This library decides between the two: which settings, in which order, with which
//! numbers, and what the caller is answered. It never touches the engine. Each of its four
//! exchanges issues one action at a time and is told what came of it:
//!
//! - [`load::LoadVideo`] loads a video and its motion data,
//! - [`level::SetLevel`] chooses how strongly to stabilise,
//! - [`rotation::SetVideoRotation`] turns the picture,
//! - [`frame::ProcessFrame`] stabilises one frame.
//!
//! What an exchange does is stated as a script: the sequence of its actions, as a function of the
//! request and of what came of the actions. An exchange issues its script, action by action, and
//! what it hears later never changes what it did before.

pub mod double;
pub mod fovs;
pub mod frame;
pub mod level;
pub mod load;
pub mod rotation;
pub mod size;
pub mod status;

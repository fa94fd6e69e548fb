//! Paired RGB / semantic-segmentation frame capture.
//!
//! The library holds the verified core of a synthetic-dataset capture
//! pipeline: a label/color registry that hands every object class a unique
//! flat color, a per-camera output registry fed by single-producer channels,
//! a frame assembler that strips device row-padding from raw payloads, and
//! the poll-driven state machine of the per-camera frame copy agent.

pub mod align;
pub mod camera_table;
pub mod channel;
pub mod color;
pub mod components;
pub mod copy_agent;
pub mod destripe;
pub mod encode;
pub mod object_table;

//! Hardware video decode pipeline: NVDEC parser/decoder session state,
//! the decode worker's control plane, and the UI-side playback engine.

pub mod text;
pub mod ffi;
pub mod session;
pub mod engine;
pub mod worker;
pub mod convert;
pub mod protocol;
pub mod helper;
pub mod version;

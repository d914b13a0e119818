//! Verified decision logic of the StreamSync four-view switcher.
pub mod text;
pub mod numbers;
pub mod modes;
pub mod args;
pub mod control;
pub mod framing;
pub mod operator;
pub mod identity;
pub mod pixels;
pub mod quad;
pub mod obs_runtime;
pub mod fps;
pub mod handoff_observation;
pub mod slot_diagnostics;
pub mod decode_timing;
pub mod fixture_decode;
pub mod preview_slots;
pub mod preview_loops;
pub mod loop_summaries;

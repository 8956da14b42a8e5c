//! Verified protocol, format and scheduling logic for PipeWireAO clients.

pub mod discard;
pub mod ids;
pub mod format;
pub mod pod;
pub mod buffer;
pub mod progressive;
pub mod ndarray;
pub mod latest;
pub mod pod_wire;
pub mod text;
pub mod run_control;
pub mod reset_control;
pub mod meta;
pub mod fits;
pub mod properties;
pub mod filter;
pub mod rtc_data_loop;
pub mod image_source;
pub mod parameters;
pub mod param;

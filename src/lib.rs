//! Verified core of a full-duplex voice processing pipeline: stream
//! descriptors, configuration surfaces and the integer state machines that
//! drive echo cancellation bookkeeping.


pub mod aec3_config;
pub mod comfort_noise;
pub mod config;
pub mod echo_remover_metrics;
pub mod ffi_types;
pub mod settings_queue;
pub mod stream_config;
pub mod subband_erle;
pub mod transparent_mode;

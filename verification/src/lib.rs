//! Ingest pipeline for framed sensor telemetry: decoding of the byte stream,
//! the per-sensor live buffer, and the rows of the per-sensor CSV files.

pub mod app;
pub mod cli;
pub mod data_buffer;
pub mod dumping;
pub mod fps_counter;
pub mod frame;
pub mod highlight;
pub mod pipeline;
pub mod serial;
pub mod text;
pub mod utils;

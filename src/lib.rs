//! Capture-orchestration core of a one-shot web page screenshot tool.

pub mod text;
pub mod params;
pub mod naming;
pub mod session;

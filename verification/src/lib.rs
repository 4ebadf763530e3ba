//! Buffered event flags: timestamped records of observed flag changes,
//! collected in a shared buffer that a consumer drains atomically.

pub mod buffer;
pub mod event_flag;
pub mod laws;
pub mod text;

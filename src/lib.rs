//! Real-time audio segmentation: a voice-activity state machine, the consumer
//! loop that accumulates samples between flush points, and the hand-off of
//! samples through a lock-free ring buffer.
pub mod channel;
pub mod error;
pub mod segment;
pub mod transcribe;
pub mod vad;

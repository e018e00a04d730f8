pub mod speech;
pub mod transcription;

//! Verified core of the sttts dictation client: trigger parsing, the
//! double-tap detector, remote-transcription request and stream framing,
//! and the language-evidence rules of the transcription manager.

mod text;

pub mod dictation;
pub mod header;
pub mod remote_stream;
pub mod remote_transcribe;
pub mod stream_session;
pub mod transcription;
pub mod wav;

//! Core binary codecs for audio-file metadata.
//!
//! Four independent decoders, each working over caller-supplied bytes:
//!
//! * [`id3v2`]: the ID3v2 tag header and its synchsafe integer arithmetic;
//! * [`mp3`]: MPEG frame synchronization, frame-header decoding, and the
//!   Xing/Info/VBRI variable-bitrate headers;
//! * [`mp4`]: the recursive atom (box) header reader of MP4-style containers;
//! * [`speex`]: the Speex file wrapper around its Vorbis comments.
//!
//! Every decoder returns a typed error rather than panicking, tolerates
//! truncated or malformed input, and reproduces the bit-exact legacy
//! encodings that the formats demand.

pub mod bytes;
pub mod error;
pub mod id3v2;
pub mod mp3;
pub mod mp4;
pub mod speex;

pub use error::LoftyError;

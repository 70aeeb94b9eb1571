//! Native side of a small foreign-call boundary: Base64 payloads decoded into
//! transfer buffers that are released exactly once, environment values handed
//! out as NUL-free strings, and the platform command that opens a URL.
pub mod codec;
pub mod environment;
pub mod launch;
pub mod transfer;

pub use codec::encode_base64;
pub use environment::env_value_or_empty;
pub use launch::{open_url_command, LaunchCommand, Platform};
pub use transfer::{decode_base64, free_decoded_data, DecodedData};

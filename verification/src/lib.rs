//! Verified HTTP response compression: encoding negotiation, content-type
//! exclusion, path-based cache policy, and an in-memory cache of compressed
//! response bodies, with the byte-level compression done by the
//! `async-compression` encoders behind trusted wrappers.

pub mod cache;
pub mod encoding;
pub mod engine;
pub mod media;
pub mod negotiate;
pub mod policy;
pub mod stage;
pub mod strings;

pub use cache::{CacheEntry, ResponseCache};
pub use encoding::{chosen_codec, CachedEncoding, Encoding};
pub use engine::{compress_body, Level};
pub use media::{default_exclusions, skip_encoding, MediaType};
pub use negotiate::{accepted_algorithms, value_accepts_token};
pub use policy::CachedCompression;
pub use stage::{BodyError, BodyErrorKind, Compress, Compression, ProbeOutcome, StageOutcome};
pub use strings::str_eq;

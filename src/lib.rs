//! Client-side adapter for a key-value store's HTTP/JSON gateway: request
//! construction, binary-safe key/value text, prefix ranges, and the decisions
//! taken on decoded responses and watch frames.

pub mod codec;
pub mod error;
pub mod framing;
pub mod keyrange;
pub mod proto;
pub mod schema_enums;
pub mod session;

//! A strongly typed identifier for the revision of the RTSP protocol that a
//! message conforms to.
//!
//! The [`Version`] type is a closed enumeration: exactly two values exist,
//! obtained through `Version::rtsp_10()` and `Version::rtsp_20()`. It is
//! cheap to copy and hash, supports equality and a total order, and renders
//! to the canonical wire token (`"RTSP/1.0"` or `"RTSP/2.0"`).

pub mod version;

pub use version::Version;

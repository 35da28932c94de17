//! Verified core of a POSIX extended-attribute (xattr) library.
//!
//! Extended attributes are named byte blobs attached to a file. The kernel
//! primitives that read them take fixed-size buffers, so a caller must probe
//! for the required size, allocate, and retry when the attribute changed size
//! between the two calls. This crate holds the verified logic of that
//! protocol: attribute-name validation, the probe-and-fill decision rules,
//! the decoding of the packed NUL-separated name list, and the translation of
//! the kernel's "no such attribute" error into an absent-value result. The
//! actual system calls are issued by an unverified shell around this crate,
//! which feeds their raw results into the functions here.

pub mod error;
pub mod facade;
pub mod list;
pub mod names;
pub mod ops;
pub mod replay;
pub mod step;

pub use error::XattrError;
pub use list::XAttrs;

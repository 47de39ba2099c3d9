//! A gateway over operating-system extended attributes (xattrs).
//!
//! The heart of the library is the error classifier: a failure reported by
//! the operating system is mapped through a fixed table of raw error codes
//! to a small closed set of symbolic tags, with a descriptive-message
//! fallback for everything outside the table. Around it stand the pure
//! halves of the gateway's five operations: the completion functions that
//! turn each operating-system outcome into the caller-facing result, the
//! decode-and-collect pass of the listing, and the platform-support query.
//! The operating-system calls themselves are made by the thin bridge that
//! embeds this library.

pub mod classify;
pub mod errors;
pub mod gateway;
pub mod listing;
pub mod platform;

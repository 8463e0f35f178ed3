//! Copying a byte stream from one endpoint to another, where each endpoint
//! is a local path or a remote URL.
//!
//! The library holds the rules: how an address is read and named, how a
//! destination that is a directory receives the source's name, the order of
//! the steps of one copy, and the loop that moves the bytes and reports
//! progress. Opening files and connections is left to the caller.

pub mod address;
pub mod error;
pub mod orchestrate;
pub mod progress;
pub mod stream;
pub mod transfer;

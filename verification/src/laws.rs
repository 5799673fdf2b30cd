//! What the wire format, the views and the constructors promise, part by part.
//!
//! Each law is a statement about documents and values themselves: which member
//! of a document holds which part of a value, and which documents are read as
//! a value.

pub mod content;
pub mod event;
pub mod hook;
pub mod memory;
pub mod message;
pub mod permission;
pub mod tool;
pub mod wire;

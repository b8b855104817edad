//! Client-side engine for synchronising encrypted environment files: the key
//! hierarchy, the object format, the manifest, and the decisions of push, pull
//! and status. Reading files, talking to the remote service and printing are
//! left to the program around it.

pub mod api;
pub mod auth;
pub mod b64;
pub mod commands;
pub mod config;
pub mod crypto;
pub mod digest;
pub mod error;
pub mod keyed;
pub mod keys;
pub mod manifest;
pub mod merge;
pub mod primitives;
pub mod repo;
pub mod style;
pub mod text;

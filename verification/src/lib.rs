//! Build-plan synthesis for a local imitation of the docs.rs documentation
//! build: a typed model of the `cargo metadata` dependency graph, package
//! selection, target-triple resolution, flag composition and synthesis of
//! the final `cargo rustdoc` invocation.

pub mod args;
pub mod command;
pub mod flags;
pub mod json;
pub mod loader;
pub mod metadata;
pub mod resolver;
pub mod storage;
pub mod strutil;
pub mod targets;

//! Turns a compiled native binary into a single self-contained source file:
//! resolves a build target from workspace metadata, drives an external build
//! and optional compression step, computes a content identifier for the
//! artifact, and substitutes payload, name and original source text into a
//! dropper template in one of two output dialects.

pub mod command;
pub mod driver;
pub mod embed;
pub mod encode;
pub mod lang;
pub mod report;
pub mod resolve;
pub mod template;
pub mod text;
pub mod triple;

pub use lang::Language;

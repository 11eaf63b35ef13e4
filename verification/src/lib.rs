//! Core of a lock-file "compile" pipeline for a package manager: it merges
//! requirement, constraint and override sources into one resolution request,
//! derives the target environment, decides build isolation, classifies
//! resolver failures, and renders the accepted package set into a
//! deterministic, reproducible text artifact.
//!
//! The dependency resolver itself, network clients, interpreter discovery and
//! file I/O are external collaborators: they hand this library plain values
//! and take plain values back.

pub mod command;
pub mod environment;
pub mod errors;
pub mod indexes;
pub mod isolation;
pub mod invoker;
pub mod options;
pub mod pipeline;
pub mod render;
pub mod sources;
pub mod text;

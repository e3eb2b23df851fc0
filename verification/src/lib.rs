//! Batch path renaming driven by a regular expression.
//!
//! A compiled pattern and a replacement template are applied to each
//! candidate path in turn: a path the pattern does not match is skipped, a
//! missing source or an already-occupied destination is a per-path failure,
//! and otherwise the path is renamed (or, in a dry run, merely reported).
//! The library decides each step and formats every report line; the caller
//! performs the filesystem probes and the rename call and feeds the answers
//! back in.

pub mod model;
pub mod pattern;
pub mod rename;
pub mod report;

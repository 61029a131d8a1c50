//! An in-memory snapshot of a hierarchical, self-describing container file
//! (groups, datasets, links, attributes), built for interactive browsing.
//!
//! The format layer that talks to the file on disk is an external
//! collaborator: it reports, for every node it discovers, plain values
//! (names, identifiers, link kinds, shapes, layout tags, attribute pairs).
//! This crate holds the logic that turns such a report into a typed,
//! fully owned entity tree, resolves child-index paths against that tree,
//! and projects it to generic view nodes for display.

pub mod attrs;
pub mod builder;
pub mod load;
pub mod model;
pub mod raw;
pub mod resolve;
pub mod text;
pub mod view;

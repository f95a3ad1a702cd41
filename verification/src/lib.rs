//! Trait-implementation synthesis: given a target type declaration, a trait's
//! associated items and a selection mode, compute a syntactically valid impl
//! fragment and the exact offset at which to splice it into the document.
//!
//! The syntax tree and the semantic resolver are collaborators of the host
//! environment; this crate works on plain-value snapshots of what the engine
//! reads from them (names, generic-parameter texts, attribute texts, token
//! offsets, resolved type identities), and every function here is verified
//! against an exact description of the text it produces.

pub mod generate;
pub mod insert;
pub mod laws;
pub mod locate;
pub mod model;
pub mod select;
pub mod special;
pub mod strutil;
pub mod stub;
pub mod synth;

//! Semantics for Inform 7: the kind system and the knowledge module.
pub mod text;
pub mod search;
pub mod kinds;
pub mod calculus;
pub mod knowledge;
pub mod lattice;

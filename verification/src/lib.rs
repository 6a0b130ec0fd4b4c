//! Verified core of relational joins over entity relationships: which
//! related targets a join yields for one root entity, how the yielded
//! targets are shaped into a result, and how a `Joinable` implementation is
//! derived from the shape of a struct.
pub mod join;
pub mod mapping;
pub mod laws;
pub mod derive;
pub mod derive_laws;

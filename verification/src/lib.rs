//! Type unification over Rib expressions: after inference, every node's
//! inferred type is unified, and the nodes whose type cannot be unified are
//! reported.
pub mod expr;
pub mod semantics;
pub mod unification;
pub mod laws;
pub mod node_laws;

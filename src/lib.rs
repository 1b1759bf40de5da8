//! Peg-out transaction-graph state machine of a BitVM-style bridge: the
//! role-scoped status projections and action preconditions, the MuSig2
//! pre-signing registry with its conflict-checked merge, the graph's
//! transaction linkage and its validation, the graph's identity, and the
//! matching of destination-chain peg-out events.

pub mod actions;
pub mod bytes;
pub mod commitment;
pub mod events;
pub mod graph;
pub mod id;
pub mod linkage;
pub mod musig;
pub mod presign;
pub mod status;
pub mod transactions;

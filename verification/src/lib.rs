//! Reconciliation of a billing provider's subscription state with a local
//! purchase-token record and an external entitlement ledger.
//!
//! A purchase token reaches the service on two paths: a user presents it and
//! asks for access, or the provider reports a lifecycle event for it. Both
//! paths fetch the provider's authoritative detail, decide on a plan of
//! steps, and carry the plan out: the provider is acknowledged before access
//! is granted, and access is granted before the local record is written.
//!
//! The crate holds the decisions of both paths, the token store they are
//! stated over, and the data types of the provider's API. Network and
//! database work is left to the caller: it sends the requests that the
//! helpers here address, hands back what came, and performs the steps of a
//! plan. `reconcile::run_plan` carries a plan out on the in-memory store,
//! with the services' answers given in advance.

pub mod auth;
pub mod consts;
pub mod error;
pub mod model;
pub mod outside;
pub mod reconcile;
pub mod routes;
pub mod store;
pub mod text;
pub mod time;
pub mod types;

//! A minimal persistent key-value status store with a one-time schema
//! migration.
//!
//! The crate models the state that a host-managed contract keeps between
//! invocations: a mapping from caller identity to the latest status string,
//! together with bookkeeping fields reserved for future use. It verifies the
//! state model itself, the one-shot migration from the prior schema
//! generation, and the initialization guard that makes fresh initialization
//! and migration mutually exclusive, at-most-once entry points.
//!
//! The host supplies durable storage, the caller identity of each invocation,
//! and the serialization envelope; those stay outside this crate. Every
//! decision the contract takes between loading and persisting its state is
//! verified here on plain values.

pub mod deploy;
pub mod state;
pub mod store;

pub use deploy::CallError;
pub use deploy::Deployment;
pub use state::PrevStatusMessage;
pub use state::StatusMessage;
pub use store::StrMap;

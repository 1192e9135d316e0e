//! A safety adapter between statically typed handler code and a host
//! environment's table-driven callback registry.
//!
//! The host environment exposes a namespace of virtual entries, each backed by
//! a fixed-layout table of callback slots, and reports failure only through
//! negative integer status codes.  This crate gives handler authors a typed,
//! checked-error surface instead: a capability trait ([`ops::ProcOperations`]),
//! a per-type callback adapter that translates checked results into the host's
//! status-code convention ([`adapter::CallbackAdapter`]), owned registration
//! objects whose lifecycle is idempotent by construction
//! ([`registration::RustProcRegistration`], [`registration::DirectoryHandle`]),
//! and a mutual-exclusion wrapper that is the single sanctioned way to mutate
//! handler state from inside a callback ([`guard::GuardedResource`]).
//!
//! The host's namespace itself is represented by an explicit, verified table
//! ([`host::HostNamespace`]) so that every lifecycle rule — unique names per
//! directory, exactly one removal per created entry, no removal of an entry
//! that was never created — is stated and machine-checked rather than assumed.

pub mod adapter;
pub mod completion;
pub mod error;
pub mod guard;
pub mod host;
pub mod minimal;
pub mod ops;
pub mod proc_basic;
pub mod registration;
pub mod scull;
pub mod seqfile;
pub mod store;

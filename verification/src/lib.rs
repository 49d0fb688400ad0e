//! A verified core for a lattice binding compiler.
//!
//! Given a resolved interface description (namespaces, packages, interfaces and
//! typed function signatures), this library computes the wire-facing artifacts a
//! capability provider needs: per-interface capability definitions with dispatch
//! information, import invocation stubs, and the subject-to-descriptor table a
//! message-addressed transport uses to route inbound calls.  The wire contract
//! (operation names, subject strings, argument order) is stated in the function
//! contracts and proved; rendering the artifacts as source text is left to a
//! thin unverified layer.

pub mod bindgen;
pub mod catalog;
pub mod dispatch;
pub mod imports;
pub mod model;
pub mod policy;
pub mod names;
pub mod table;
pub mod wit;
pub mod wrpc;

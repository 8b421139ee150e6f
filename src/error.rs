//! The errors of the reconcilers.

use vstd::prelude::*;

verus! {

/// Why a reconcile pass failed. Every variant leads to a retry.
#[derive(Debug)]
pub enum Error {
    /// A call to the orchestrator failed; the text is its message.
    Kube(String),
    /// A document could not be written or read; the text is the message.
    SerdeYaml(String),
    /// Commands were published for a cluster that nobody listens to.
    ClusterUnavailable,
    /// An object reference lacks a field that an owner reference needs.
    MissingField,
}

} // verus!

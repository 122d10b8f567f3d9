//! The externally invocable cancellation path: look the download up in the
//! registry, remove its entry, and fire its one-shot signal.

use vstd::prelude::*;

use crate::registry::CancelRegistry;

verus! {

/// Declares tokio's one-shot sender so registries and signatures can hold
/// it; its values stay opaque here.
#[verifier::external_type_specification]
#[verifier::external_body]
#[verifier::reject_recursive_types(T)]
pub struct ExOneshotSender<T>(tokio::sync::oneshot::Sender<T>);

/// Relies on tokio::sync::oneshot::Sender::send: fires the one-shot signal,
/// consuming it. The returned flag only tells whether the receiving half
/// was still listening, which depends on timing; nothing is promised of it.
#[verifier::external_body]
fn fire_signal(signal: tokio::sync::oneshot::Sender<()>) -> (fired: bool) {
    signal.send(()).is_ok()
}

/// Why a cancel request was rejected: the identifier has no active
/// download, because it is stale or its download already resolved.
#[derive(Clone, Copy, Debug, PartialEq, Eq, Structural)]
pub enum CancelError {
    NotFound,
}

impl CancelError {
    /// The rejection, spelled out for the caller.
    pub fn message(&self) -> (r: String)
        ensures
            r@ == "Download not found or already finished"@,
    {
        "Download not found or already finished".to_owned()
    }
}

/// Cancels the download `id`: exactly when an entry is active, the entry
/// is removed and its signal fired. A request for an unknown identifier is
/// rejected and leaves the registry untouched.
pub fn cancel_download(
    registry: &mut CancelRegistry<tokio::sync::oneshot::Sender<()>>,
    id: &str,
) -> (r: Result<(), CancelError>)
    requires
        old(registry).wf(),
    ensures
        final(registry).wf(),
        match r {
            Ok(_) => old(registry)@.dom().contains(id@) && final(registry)@ == old(
                registry,
            )@.remove(id@),
            Err(e) => !old(registry)@.dom().contains(id@) && final(registry)@ == old(registry)@
                && e == CancelError::NotFound,
        },
{
    match registry.cancel(id) {
        Some(signal) => {
            let _fired = fire_signal(signal);
            Ok(())
        },
        None => Err(CancelError::NotFound),
    }
}

} // verus!

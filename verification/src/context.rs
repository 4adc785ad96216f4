//! The toolkit context. It is the toolkit's own: the adapter keeps it and
//! hands it out, and sees nothing inside it.

use vstd::prelude::*;

verus! {

/// `egui::CtxRef`, the handle to the toolkit's persistent state.
#[verifier::external_type_specification]
#[verifier::external_body]
pub struct ExCtxRef(egui::CtxRef);

/// `egui::Context`, the state behind an `egui::CtxRef`.
#[verifier::external_type_specification]
#[verifier::external_body]
pub struct ExContext(egui::Context);

/// `egui::CtxRef::default`: a context that no pass has run on yet.
/// Nothing is claimed of it.
#[verifier::external_body]
pub(crate) fn new_context() -> (ctx: egui::CtxRef) {
    egui::CtxRef::default()
}

/// The `Deref` of `egui::CtxRef`: the context that the handle points to.
/// Nothing is claimed of it.
#[verifier::external_body]
pub(crate) fn context_of(ctx: &egui::CtxRef) -> (context: &egui::Context) {
    &**ctx
}

} // verus!

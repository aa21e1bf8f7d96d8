//! Providing the container: it is looked for once, and created only where
//! it is missing.

use crate::text::same_text;
use vstd::prelude::*;

verus! {

/// Who may read a container without credentials.
#[derive(Clone, Copy, Debug, PartialEq, Eq, Structural)]
pub enum PublicAccess {
    /// Anyone may read an object whose name they know; the container cannot
    /// be listed.
    Blob,
}

/// What to do about the container once it is known whether it exists.
#[derive(Clone, Copy, Debug, PartialEq, Eq, Structural)]
pub enum Provision {
    /// The container is there: nothing to do.
    Proceed,
    /// The container is missing: create it with the given access.
    Create(PublicAccess),
}

/// The step that provides a container: none where it exists, its creation
/// with public read access to objects where it does not.
pub open spec fn provision_for(present: bool) -> Provision {
    if present {
        Provision::Proceed
    } else {
        Provision::Create(PublicAccess::Blob)
    }
}

/// Decides what to do about the container.
pub fn ensure_container_exists(present: bool) -> (step: Provision)
    ensures
        step == provision_for(present),
{
    if present {
        Provision::Proceed
    } else {
        Provision::Create(PublicAccess::Blob)
    }
}

/// Whether a creation that the service refused with the given error code
/// counts as done all the same: it does where the service says that the
/// container exists already.
pub open spec fn settled_by(code: Seq<char>) -> bool {
    code == "ContainerAlreadyExists"@
}

/// Tells whether a refused creation counts as done all the same.
pub fn is_settled_by(code: &str) -> (settled: bool)
    ensures
        settled == settled_by(code@),
{
    same_text(code, "ContainerAlreadyExists")
}

/// Whether the container exists once the step has been carried out.
pub open spec fn exists_after(present: bool, step: Provision) -> bool {
    present || step is Create
}

/// Providing is idempotent: it leaves the container in existence, creates
/// nothing where the container was there already, and so creates nothing
/// when it is repeated.
pub proof fn lemma_provisioning_idempotent(present: bool)
    ensures
        exists_after(present, provision_for(present)),
        present ==> provision_for(present) == Provision::Proceed,
        provision_for(exists_after(present, provision_for(present))) == Provision::Proceed,
{
}

} // verus!

//! Laws that relate the operations of the guard.
use vstd::prelude::*;

use crate::class::{root_tag, ClassTag};
use crate::engine::EngineModel;
use crate::handle::Handle;

verus! {

/// After `a.swap_raw(b)`, `a` classifies as `b`'s object did and `b` as `a`'s
/// did, and neither declared class changes.
pub proof fn lemma_swap_exchanges_runtime_types(
    m: EngineModel,
    a: Handle,
    b: Handle,
    a2: Handle,
    b2: Handle,
)
    requires
        Handle::swapped_pair(a, b, a2, b2),
    ensures
        a2.runtime_type(m) == b.runtime_type(m),
        b2.runtime_type(m) == a.runtime_type(m),
        a2.declared_type() == a.declared_type(),
        b2.declared_type() == b.declared_type(),
{
}

/// Swapping back restores both handles.
pub proof fn lemma_swap_back_restores(a: Handle, b: Handle, a2: Handle, b2: Handle, a3: Handle, b3: Handle)
    requires
        Handle::swapped_pair(a, b, a2, b2),
        Handle::swapped_pair(a2, b2, a3, b3),
    ensures
        a3.declared_type() == a.declared_type() && a3.instance_id() == a.instance_id(),
        b3.declared_type() == b.declared_type() && b3.instance_id() == b.instance_id(),
{
}

/// A handle whose runtime class neither is nor descends from its declared class
/// can be neither cloned, nor bound, nor passed to the engine, nor used for a
/// typed method that the root does not define. Classifying it stays allowed:
/// `classify` asks only that the handle be usable.
pub proof fn lemma_divergent_handle_is_guarded(
    m: EngineModel,
    a: Handle,
    owner: ClassTag,
    param: ClassTag,
)
    requires
        a.usable(m),
        a.declared_type() != a.runtime_type(m),
        !a.consistent(m),
    ensures
        !a.may_duplicate(m),
        !a.may_bind(m),
        owner != root_tag() ==> !a.may_call(m, owner),
        !a.may_pass(m, param),
        a.usable(m),
{
}

/// A handle declared as the root can always be released, whatever its object.
pub proof fn lemma_root_handle_releases(m: EngineModel, a: Handle)
    requires
        a.declared_type() == root_tag(),
    ensures
        a.may_release(m),
{
}

/// A handle that can be released through the typed path is consistent.
pub proof fn lemma_releasable_is_consistent(m: EngineModel, a: Handle)
    requires
        a.usable(m),
        a.may_release(m),
    ensures
        a.consistent(m),
{
    if a.declared_type() == root_tag() {
        crate::class::lemma_subclass_of_root(m.classes, a.runtime_type(m));
    }
}

} // verus!

//! Typed handles and the guard that checks each typed access.
//!
//! A handle is consistent when the runtime class of its object is its declared
//! class or descends from it, and divergent otherwise. Only `swap_raw` can make
//! a handle divergent.
use vstd::prelude::*;

use crate::class::{lemma_subclass_of_trans, root_tag, subclass_of, valid_class, ClassTag, Hierarchy};
use crate::engine::{Engine, EngineModel, InstanceId, Slot};

verus! {

/// The one fault of the guard: a typed access through a handle whose declared
/// class does not agree with the runtime class of its object.
#[derive(Clone, Copy, Debug, PartialEq, Eq, Structural)]
pub struct TypeMismatch {
    /// The handle's declared class.
    pub declared: ClassTag,
    /// The runtime class of the object behind the handle.
    pub actual: ClassTag,
}

/// A reference to an engine object, under a declared class.
#[derive(Debug)]
pub struct Handle {
    declared: ClassTag,
    raw: InstanceId,
}

impl Handle {
    /// The class the handle was declared with.
    pub closed spec fn spec_declared_type(&self) -> ClassTag {
        self.declared
    }

    /// The object the handle refers to.
    pub closed spec fn spec_instance_id(&self) -> InstanceId {
        self.raw
    }

    /// The runtime class of the object behind the handle.
    pub open spec fn runtime_type(self, m: EngineModel) -> ClassTag {
        m.class_of(self.instance_id())
    }

    /// The handle belongs to a well-formed engine `m` and its object is alive.
    pub open spec fn usable(self, m: EngineModel) -> bool {
        &&& m.wf()
        &&& valid_class(m.classes, self.declared_type())
        &&& m.alive(self.instance_id())
    }

    /// The runtime class is the declared class or descends from it.
    pub open spec fn consistent(self, m: EngineModel) -> bool {
        subclass_of(m.classes, self.runtime_type(m), self.declared_type())
    }

    /// The fault that a refused access through this handle reports.
    pub open spec fn mismatch(self, m: EngineModel) -> TypeMismatch {
        TypeMismatch { declared: self.declared_type(), actual: self.runtime_type(m) }
    }

    /// Cloning is allowed.
    pub open spec fn may_duplicate(self, m: EngineModel) -> bool {
        self.consistent(m)
    }

    /// Release through the typed path is allowed: declared as the root, or as
    /// exactly the runtime class. Releasing through the root takes for granted
    /// that deallocation needs nothing specific to the runtime class.
    pub open spec fn may_release(self, m: EngineModel) -> bool {
        self.declared_type() == root_tag() || self.declared_type() == self.runtime_type(m)
    }

    /// The typed user-data binding may be reached.
    pub open spec fn may_bind(self, m: EngineModel) -> bool {
        m.classes[self.declared_type().index as int].has_payload && self.consistent(m)
    }

    /// A typed method defined on class `owner` may be called.
    pub open spec fn may_call(self, m: EngineModel, owner: ClassTag) -> bool {
        subclass_of(m.classes, self.declared_type(), owner) && (owner == root_tag()
            || self.consistent(m))
    }

    /// The handle may be passed where the engine expects a `param`.
    pub open spec fn may_pass(self, m: EngineModel, param: ClassTag) -> bool {
        subclass_of(m.classes, self.declared_type(), param) && self.consistent(m)
    }

    /// An upcast to `target` is allowed.
    pub open spec fn may_upcast(self, m: EngineModel, target: ClassTag) -> bool {
        subclass_of(m.classes, self.declared_type(), target) && self.consistent(m)
    }

    /// A downcast to `target` is allowed.
    pub open spec fn may_downcast(self, m: EngineModel, target: ClassTag) -> bool {
        subclass_of(m.classes, self.runtime_type(m), target)
    }

    /// `a2` and `b2` are `a` and `b` with their objects exchanged and their
    /// declared classes kept.
    pub open spec fn swapped_pair(a: Handle, b: Handle, a2: Handle, b2: Handle) -> bool {
        &&& a2.declared_type() == a.declared_type()
        &&& b2.declared_type() == b.declared_type()
        &&& a2.instance_id() == b.instance_id()
        &&& b2.instance_id() == a.instance_id()
    }

    /// Allocates an object of class `class` and returns a handle declared as `class`.
    pub fn construct(engine: &mut Engine, class: ClassTag) -> (r: Handle)
        requires
            old(engine)@.wf(),
            valid_class(old(engine)@.classes, class),
            old(engine)@.objects.len() < usize::MAX,
        ensures
            final(engine)@.classes == old(engine)@.classes,
            final(engine)@.objects == old(engine)@.objects.push(
                Slot { class, alive: true, payload: 0 },
            ),
            r.declared_type() == class,
            r.instance_id().spec_index() == old(engine)@.objects.len(),
            r.usable(final(engine)@),
            r.runtime_type(final(engine)@) == class,
            r.consistent(final(engine)@),
    {
        let raw = engine.allocate(class);
        Handle { declared: class, raw }
    }

    /// The class the handle was declared with.
    #[verifier::when_used_as_spec(spec_declared_type)]
    pub fn declared_type(&self) -> (r: ClassTag)
        ensures
            r == self.declared_type(),
    {
        self.declared
    }

    /// The identifier of the object the handle refers to.
    #[verifier::when_used_as_spec(spec_instance_id)]
    pub fn instance_id(&self) -> (r: InstanceId)
        ensures
            r == self.instance_id(),
    {
        self.raw
    }

    /// Exchanges the objects that `self` and `other` refer to; each keeps its
    /// declared class. Nothing is checked.
    pub fn swap_raw(&mut self, other: &mut Handle)
        ensures
            Handle::swapped_pair(*old(self), *old(other), *final(self), *final(other)),
    {
        let tmp = self.raw;
        self.raw = other.raw;
        other.raw = tmp;
    }

    /// The runtime class of the object. Always allowed.
    pub fn classify(&self, engine: &Engine) -> (r: ClassTag)
        requires
            self.usable(engine@),
        ensures
            r == self.runtime_type(engine@),
    {
        engine.actual_type_of(self.raw)
    }

    /// Whether the runtime class is the declared class or descends from it.
    pub fn is_consistent(&self, engine: &Engine) -> (r: bool)
        requires
            self.usable(engine@),
        ensures
            r == self.consistent(engine@),
    {
        let actual = engine.actual_type_of(self.raw);
        engine.hierarchy().is_subclass(actual, self.declared)
    }

    fn mismatch_of(&self, engine: &Engine) -> (r: TypeMismatch)
        requires
            self.usable(engine@),
        ensures
            r == self.mismatch(engine@),
    {
        TypeMismatch { declared: self.declared, actual: engine.actual_type_of(self.raw) }
    }

    /// A second handle onto the same object, under the same declared class.
    /// Refused while divergent.
    pub fn duplicate_reference(&self, engine: &Engine) -> (r: Result<Handle, TypeMismatch>)
        requires
            self.usable(engine@),
        ensures
            r is Ok <==> self.may_duplicate(engine@),
            r matches Ok(h) ==> h.declared_type() == self.declared_type() && h.instance_id()
                == self.instance_id() && h.consistent(engine@),
            r matches Err(e) ==> e == self.mismatch(engine@),
    {
        if self.is_consistent(engine) {
            Ok(Handle { declared: self.declared, raw: self.raw })
        } else {
            Err(self.mismatch_of(engine))
        }
    }

    /// Deallocates the object through the typed path: allowed where the handle
    /// is declared as the root or as exactly the runtime class.
    pub fn release(&self, engine: &mut Engine) -> (r: Result<(), TypeMismatch>)
        requires
            self.usable(old(engine)@),
        ensures
            final(engine)@.wf(),
            r is Ok <==> self.may_release(old(engine)@),
            r is Ok ==> old(engine)@.released(self.instance_id(), final(engine)@),
            r matches Err(e) ==> e == self.mismatch(old(engine)@) && final(engine)@ == old(
                engine,
            )@,
    {
        let actual = engine.actual_type_of(self.raw);
        if self.declared == Hierarchy::root() || self.declared == actual {
            engine.deallocate(self.raw);
            Ok(())
        } else {
            Err(TypeMismatch { declared: self.declared, actual })
        }
    }

    /// Deallocates the object through dynamic dispatch, which the guard does not check.
    pub fn release_dynamic(&self, engine: &mut Engine)
        requires
            self.usable(old(engine)@),
        ensures
            final(engine)@.wf(),
            old(engine)@.released(self.instance_id(), final(engine)@),
    {
        engine.deallocate(self.raw);
    }

    /// The user data of the object, read through the declared class's binding.
    pub fn obtain_typed_binding(&self, engine: &Engine) -> (r: Result<u64, TypeMismatch>)
        requires
            self.usable(engine@),
        ensures
            r is Ok <==> self.may_bind(engine@),
            r matches Ok(v) ==> v == engine@.slot(self.instance_id()).payload,
            r matches Err(e) ==> e == self.mismatch(engine@),
    {
        if engine.hierarchy().has_payload(self.declared) && self.is_consistent(engine) {
            Ok(engine.payload_of(self.raw))
        } else {
            Err(self.mismatch_of(engine))
        }
    }

    /// Stores `payload` as the user data of the object, through the declared
    /// class's mutable binding.
    pub fn write_typed_binding(&self, engine: &mut Engine, payload: u64) -> (r: Result<
        (),
        TypeMismatch,
    >)
        requires
            self.usable(old(engine)@),
        ensures
            final(engine)@.wf(),
            r is Ok <==> self.may_bind(old(engine)@),
            r is Ok ==> old(engine)@.stored(self.instance_id(), payload, final(engine)@),
            r matches Err(e) ==> e == self.mismatch(old(engine)@) && final(engine)@ == old(
                engine,
            )@,
    {
        if engine.hierarchy().has_payload(self.declared) && self.is_consistent(engine) {
            engine.store_payload(self.raw, payload);
            Ok(())
        } else {
            Err(self.mismatch_of(engine))
        }
    }

    /// Checks a call of a typed method defined on class `owner`, and returns the
    /// object to dispatch it on. A method of the root is allowed even while divergent.
    pub fn call_typed_method(&self, engine: &Engine, owner: ClassTag) -> (r: Result<
        InstanceId,
        TypeMismatch,
    >)
        requires
            self.usable(engine@),
        ensures
            r is Ok <==> self.may_call(engine@, owner),
            r matches Ok(id) ==> id == self.instance_id(),
            r matches Err(e) ==> e == self.mismatch(engine@),
    {
        let visible = engine.hierarchy().is_subclass(self.declared, owner);
        if visible && (owner == Hierarchy::root() || self.is_consistent(engine)) {
            Ok(self.raw)
        } else {
            Err(self.mismatch_of(engine))
        }
    }

    /// The object to dispatch a dynamically named call on. The dynamic path
    /// bypasses the guard.
    pub fn call_dynamic(&self, engine: &Engine) -> (r: InstanceId)
        requires
            self.usable(engine@),
        ensures
            r == self.instance_id(),
    {
        self.raw
    }

    /// Checks the handle where the engine expects an argument of class `param`,
    /// and returns the object to hand over.
    pub fn pass_to_external_api(&self, engine: &Engine, param: ClassTag) -> (r: Result<
        InstanceId,
        TypeMismatch,
    >)
        requires
            self.usable(engine@),
        ensures
            r is Ok <==> self.may_pass(engine@, param),
            r matches Ok(id) ==> id == self.instance_id(),
            r matches Err(e) ==> e == self.mismatch(engine@),
    {
        if engine.hierarchy().is_subclass(self.declared, param) && self.is_consistent(engine) {
            Ok(self.raw)
        } else {
            Err(self.mismatch_of(engine))
        }
    }

    /// A handle onto the same object declared as the ancestor `target`. Refused
    /// where `target` is no ancestor of the declared class, or while divergent.
    pub fn upcast(&self, engine: &Engine, target: ClassTag) -> (r: Result<Handle, TypeMismatch>)
        requires
            self.usable(engine@),
        ensures
            r is Ok <==> self.may_upcast(engine@, target),
            r matches Ok(h) ==> h.declared_type() == target && h.instance_id()
                == self.instance_id() && h.runtime_type(engine@) == self.runtime_type(engine@)
                && h.consistent(engine@),
            r matches Err(e) ==> e == self.mismatch(engine@),
    {
        if engine.hierarchy().is_subclass(self.declared, target) && self.is_consistent(engine) {
            proof {
                lemma_subclass_of_trans(
                    engine@.classes,
                    self.runtime_type(engine@),
                    self.declared,
                    target,
                );
            }
            Ok(Handle { declared: target, raw: self.raw })
        } else {
            Err(self.mismatch_of(engine))
        }
    }

    /// A handle onto the same object declared as `target`. Allowed exactly where
    /// the runtime class is `target` or descends from it.
    pub fn downcast(&self, engine: &Engine, target: ClassTag) -> (r: Result<
        Handle,
        TypeMismatch,
    >)
        requires
            self.usable(engine@),
        ensures
            r is Ok <==> self.may_downcast(engine@, target),
            r matches Ok(h) ==> h.declared_type() == target && h.instance_id()
                == self.instance_id() && h.runtime_type(engine@) == self.runtime_type(engine@)
                && h.consistent(engine@),
            r matches Err(e) ==> e == self.mismatch(engine@),
    {
        let actual = engine.actual_type_of(self.raw);
        if engine.hierarchy().is_subclass(actual, target) {
            Ok(Handle { declared: target, raw: self.raw })
        } else {
            Err(self.mismatch_of(engine))
        }
    }
}

} // verus!

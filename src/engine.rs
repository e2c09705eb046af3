//! The host engine's side: an allocator of objects, each with a runtime class
//! fixed at allocation, a liveness flag and a user-data slot.
use vstd::prelude::*;

use crate::class::{valid_class, well_formed, ClassInfo, ClassTag, Hierarchy};

verus! {

/// The stable identifier of an engine object.
#[derive(Clone, Copy, Debug, PartialEq, Eq, Structural)]
pub struct InstanceId {
    index: usize,
}

impl InstanceId {
    /// The position of the object in the engine's table.
    pub closed spec fn spec_index(self) -> nat {
        self.index as nat
    }

    /// The position of the object in the engine's table.
    pub fn index(&self) -> (r: usize)
        ensures
            r == self.spec_index(),
    {
        self.index
    }
}

/// What the engine records of one object.
#[derive(Clone, Copy, Debug, PartialEq, Eq, Structural)]
pub struct Slot {
    /// The runtime class, fixed when the object is allocated.
    pub class: ClassTag,
    /// False once the object has been deallocated.
    pub alive: bool,
    /// The user data stored for the object.
    pub payload: u64,
}

/// The mathematical state of an engine.
pub struct EngineModel {
    pub classes: Seq<ClassInfo>,
    pub objects: Seq<Slot>,
}

impl EngineModel {
    /// The hierarchy is well formed and every object's class belongs to it.
    pub open spec fn wf(self) -> bool {
        &&& well_formed(self.classes)
        &&& forall|i: int|
            0 <= i < self.objects.len() ==> valid_class(self.classes, #[trigger] self.objects[i].class)
    }

    /// `id` names an object of this engine, alive or not.
    pub open spec fn knows(self, id: InstanceId) -> bool {
        id.spec_index() < self.objects.len()
    }

    /// The record of the object `id`.
    pub open spec fn slot(self, id: InstanceId) -> Slot {
        self.objects[id.spec_index() as int]
    }

    /// The runtime class of the object `id`.
    pub open spec fn class_of(self, id: InstanceId) -> ClassTag {
        self.slot(id).class
    }

    /// The object `id` has not been deallocated.
    pub open spec fn alive(self, id: InstanceId) -> bool {
        self.knows(id) && self.slot(id).alive
    }

    /// `next` is `self` with the object `id` deallocated.
    pub open spec fn released(self, id: InstanceId, next: EngineModel) -> bool {
        &&& next.classes == self.classes
        &&& next.objects == self.objects.update(
            id.spec_index() as int,
            Slot { alive: false, ..self.slot(id) },
        )
    }

    /// `next` is `self` with `payload` stored for the object `id`.
    pub open spec fn stored(self, id: InstanceId, payload: u64, next: EngineModel) -> bool {
        &&& next.classes == self.classes
        &&& next.objects == self.objects.update(
            id.spec_index() as int,
            Slot { payload, ..self.slot(id) },
        )
    }
}

/// An engine: its class hierarchy and the table of every object it allocated.
/// Deallocated objects keep their record, so that an identifier never names a
/// second object.
pub struct Engine {
    hierarchy: Hierarchy,
    objects: Vec<Slot>,
}

impl View for Engine {
    type V = EngineModel;

    closed spec fn view(&self) -> EngineModel {
        EngineModel { classes: self.hierarchy@, objects: self.objects@ }
    }
}

impl Engine {
    /// An engine over `hierarchy`, with no objects yet.
    pub fn new(hierarchy: Hierarchy) -> (r: Engine)
        requires
            well_formed(hierarchy@),
        ensures
            r@.wf(),
            r@.classes == hierarchy@,
            r@.objects == Seq::<Slot>::empty(),
    {
        Engine { hierarchy, objects: Vec::new() }
    }

    /// The class hierarchy.
    pub fn hierarchy(&self) -> (r: &Hierarchy)
        ensures
            r@ == self@.classes,
    {
        &self.hierarchy
    }

    /// The number of objects ever allocated.
    pub fn len(&self) -> (r: usize)
        ensures
            r == self@.objects.len(),
    {
        self.objects.len()
    }

    /// Allocates an object of runtime class `class`, with user data 0.
    pub fn allocate(&mut self, class: ClassTag) -> (r: InstanceId)
        requires
            old(self)@.wf(),
            valid_class(old(self)@.classes, class),
            old(self)@.objects.len() < usize::MAX,
        ensures
            final(self)@.wf(),
            r.spec_index() == old(self)@.objects.len(),
            final(self)@.classes == old(self)@.classes,
            final(self)@.objects == old(self)@.objects.push(
                Slot { class, alive: true, payload: 0 },
            ),
    {
        let id = InstanceId { index: self.objects.len() };
        self.objects.push(Slot { class, alive: true, payload: 0 });
        proof {
            let s = self@;
            assert forall|i: int| 0 <= i < s.objects.len() implies valid_class(
                s.classes,
                #[trigger] s.objects[i].class,
            ) by {
                if i < old(self)@.objects.len() {
                    assert(s.objects[i] == old(self)@.objects[i]);
                }
            }
        }
        id
    }

    /// Whether `id` names an object of this engine.
    pub fn knows(&self, id: InstanceId) -> (r: bool)
        ensures
            r == self@.knows(id),
    {
        id.index < self.objects.len()
    }

    /// Whether the object `id` is still allocated.
    pub fn is_alive(&self, id: InstanceId) -> (r: bool)
        ensures
            r == self@.alive(id),
    {
        id.index < self.objects.len() && self.objects[id.index].alive
    }

    /// The runtime class of the object `id`.
    pub fn actual_type_of(&self, id: InstanceId) -> (r: ClassTag)
        requires
            self@.knows(id),
        ensures
            r == self@.class_of(id),
    {
        self.objects[id.index].class
    }

    /// The user data stored for the object `id`.
    pub fn payload_of(&self, id: InstanceId) -> (r: u64)
        requires
            self@.knows(id),
        ensures
            r == self@.slot(id).payload,
    {
        self.objects[id.index].payload
    }

    /// Deallocates the object `id`. Its record stays, marked dead.
    pub fn deallocate(&mut self, id: InstanceId)
        requires
            old(self)@.wf(),
            old(self)@.knows(id),
        ensures
            final(self)@.wf(),
            old(self)@.released(id, final(self)@),
    {
        let old_slot = self.objects[id.index];
        self.objects.set(id.index, Slot { alive: false, ..old_slot });
        proof {
            let s = self@;
            assert forall|i: int| 0 <= i < s.objects.len() implies valid_class(
                s.classes,
                #[trigger] s.objects[i].class,
            ) by {
                assert(s.objects[i].class == old(self)@.objects[i].class);
            }
        }
    }

    /// Stores `payload` as the user data of the object `id`.
    pub fn store_payload(&mut self, id: InstanceId, payload: u64)
        requires
            old(self)@.wf(),
            old(self)@.knows(id),
        ensures
            final(self)@.wf(),
            old(self)@.stored(id, payload, final(self)@),
    {
        let old_slot = self.objects[id.index];
        self.objects.set(id.index, Slot { payload, ..old_slot });
        proof {
            let s = self@;
            assert forall|i: int| 0 <= i < s.objects.len() implies valid_class(
                s.classes,
                #[trigger] s.objects[i].class,
            ) by {
                assert(s.objects[i].class == old(self)@.objects[i].class);
            }
        }
    }
}

} // verus!

//! A single-inheritance class hierarchy: one root, and one parent for every
//! other class.
use vstd::prelude::*;

verus! {

/// The tag of a class: its index in the hierarchy's table.
#[derive(Clone, Copy, Debug, PartialEq, Eq, Structural)]
pub struct ClassTag {
    pub index: usize,
}

/// What the hierarchy records of one class.
#[derive(Clone, Copy, Debug, PartialEq, Eq, Structural)]
pub struct ClassInfo {
    /// The direct parent; `None` only for the root.
    pub parent: Option<ClassTag>,
    /// Whether objects of this class carry user data reachable through a typed binding.
    pub has_payload: bool,
}

/// The tag of the root class, which every class descends from.
pub open spec fn root_tag() -> ClassTag {
    ClassTag { index: 0 }
}

/// `c` names a class of the table.
pub open spec fn valid_class(classes: Seq<ClassInfo>, c: ClassTag) -> bool {
    c.index < classes.len()
}

/// The table describes one tree: the root stands first and has no parent, and
/// every other class has a parent that stands before it.
pub open spec fn well_formed(classes: Seq<ClassInfo>) -> bool {
    &&& classes.len() >= 1
    &&& classes[0].parent is None
    &&& forall|i: int|
        #![trigger classes[i]]
        0 < i < classes.len() ==> match classes[i].parent {
            Some(p) => p.index < i,
            None => false,
        }
}

/// `c` is `d` or descends from it.
pub open spec fn subclass_of(classes: Seq<ClassInfo>, c: ClassTag, d: ClassTag) -> bool
    decreases c.index,
{
    if c == d {
        true
    } else if c.index == 0 || c.index >= classes.len() {
        false
    } else {
        match classes[c.index as int].parent {
            Some(p) => if p.index < c.index {
                subclass_of(classes, p, d)
            } else {
                false
            },
            None => false,
        }
    }
}

/// Every class of a well-formed table descends from the root.
pub proof fn lemma_subclass_of_root(classes: Seq<ClassInfo>, c: ClassTag)
    requires
        well_formed(classes),
        valid_class(classes, c),
    ensures
        subclass_of(classes, c, root_tag()),
    decreases c.index,
{
    if c.index != 0 {
        let p = classes[c.index as int].parent->Some_0;
        lemma_subclass_of_root(classes, p);
    }
}

/// Descent is transitive.
pub proof fn lemma_subclass_of_trans(classes: Seq<ClassInfo>, a: ClassTag, b: ClassTag, c: ClassTag)
    requires
        subclass_of(classes, a, b),
        subclass_of(classes, b, c),
    ensures
        subclass_of(classes, a, c),
    decreases a.index,
{
    if a != b {
        let p = classes[a.index as int].parent->Some_0;
        lemma_subclass_of_trans(classes, p, b, c);
    }
}

/// The class table of an engine.
pub struct Hierarchy {
    classes: Vec<ClassInfo>,
}

impl View for Hierarchy {
    type V = Seq<ClassInfo>;

    closed spec fn view(&self) -> Seq<ClassInfo> {
        self.classes@
    }
}

impl Hierarchy {
    /// A hierarchy that holds the root class alone.
    pub fn new() -> (r: Hierarchy)
        ensures
            well_formed(r@),
            r@ == seq![ClassInfo { parent: None, has_payload: false }],
    {
        let mut classes: Vec<ClassInfo> = Vec::new();
        classes.push(ClassInfo { parent: None, has_payload: false });
        Hierarchy { classes }
    }

    /// The tag of the root class.
    pub fn root() -> (r: ClassTag)
        ensures
            r == root_tag(),
    {
        ClassTag { index: 0 }
    }

    /// The number of classes.
    pub fn len(&self) -> (r: usize)
        ensures
            r == self@.len(),
    {
        self.classes.len()
    }

    /// Whether `c` names a class of this hierarchy.
    pub fn contains(&self, c: ClassTag) -> (r: bool)
        ensures
            r == valid_class(self@, c),
    {
        c.index < self.classes.len()
    }

    /// Adds a class below `parent` and returns its tag, or `None` where `parent` is no
    /// class of this hierarchy or the table is full.
    pub fn add_class(&mut self, parent: ClassTag, has_payload: bool) -> (r: Option<ClassTag>)
        requires
            well_formed(old(self)@),
        ensures
            well_formed(final(self)@),
            r is Some <==> valid_class(old(self)@, parent) && old(self)@.len() < usize::MAX,
            r is Some ==> r->Some_0.index == old(self)@.len() && final(self)@ == old(self)@.push(
                ClassInfo { parent: Some(parent), has_payload },
            ),
            r is None ==> final(self)@ == old(self)@,
    {
        let n = self.classes.len();
        if parent.index >= n || n == usize::MAX {
            return None;
        }
        self.classes.push(ClassInfo { parent: Some(parent), has_payload });
        proof {
            let s = self.classes@;
            assert forall|i: int| 0 < i < s.len() implies match #[trigger] s[i].parent {
                Some(p) => p.index < i,
                None => false,
            } by {
                if i < n {
                    assert(s[i] == old(self)@[i]);
                }
            }
        }
        Some(ClassTag { index: n })
    }

    /// The parent of `c`; `None` for the root.
    pub fn parent(&self, c: ClassTag) -> (r: Option<ClassTag>)
        requires
            valid_class(self@, c),
        ensures
            r == self@[c.index as int].parent,
    {
        self.classes[c.index].parent
    }

    /// Whether objects of class `c` carry user data.
    pub fn has_payload(&self, c: ClassTag) -> (r: bool)
        requires
            valid_class(self@, c),
        ensures
            r == self@[c.index as int].has_payload,
    {
        self.classes[c.index].has_payload
    }

    /// Whether `c` is `d` or descends from it, found by walking up from `c`.
    pub fn is_subclass(&self, c: ClassTag, d: ClassTag) -> (r: bool)
        requires
            well_formed(self@),
            valid_class(self@, c),
        ensures
            r == subclass_of(self@, c, d),
    {
        let mut cur = c;
        while cur != d
            invariant
                well_formed(self@),
                valid_class(self@, cur),
                subclass_of(self@, cur, d) == subclass_of(self@, c, d),
            decreases cur.index,
        {
            match self.classes[cur.index].parent {
                Some(p) => {
                    assert(self@[cur.index as int].parent == Some(p));
                    cur = p;
                },
                None => {
                    return false;
                },
            }
        }
        true
    }
}

} // verus!

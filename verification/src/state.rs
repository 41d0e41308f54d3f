//! The mutable store of named physical-state elements.
//!
//! A [`StateStore`] is an arena of elements addressed by stable indices.
//! Each element carries a value and a tag saying whether the element is
//! governed by the physics march (`physical`) or is decision bookkeeping.
//! The store supports a full independent copy for speculative branches and a
//! partial reset that copies only the physical subset back from a source.

use vstd::prelude::*;

verus! {

/// One element of the state store: a value and its physical/bookkeeping tag.
#[derive(Clone, Copy, PartialEq, Eq, Structural, Debug)]
pub struct StateElement {
    /// The element's current value, in the library's fixed-point units.
    pub value: i64,
    /// True when the element is governed by the physics march.
    pub physical: bool,
}

/// Two element sequences have the same shape when they are equally long and
/// agree element-wise on the physical tag.
pub open spec fn same_shape(a: Seq<StateElement>, b: Seq<StateElement>) -> bool {
    &&& a.len() == b.len()
    &&& forall|i: int| 0 <= i < a.len() ==> a[i].physical == b[i].physical
}

/// The result of resetting `target`'s physical elements from `source`:
/// physical elements take the source's value, bookkeeping elements keep the
/// target's.
pub open spec fn reset_physical_spec(
    target: Seq<StateElement>,
    source: Seq<StateElement>,
) -> Seq<StateElement> {
    Seq::new(
        target.len(),
        |i: int| if target[i].physical {
            StateElement { value: source[i].value, physical: true }
        } else {
            target[i]
        },
    )
}

/// The mutable container of all state elements describing the building's
/// current condition.
pub struct StateStore {
    elements: Vec<StateElement>,
}

impl View for StateStore {
    type V = Seq<StateElement>;

    closed spec fn view(&self) -> Seq<StateElement> {
        self.elements@
    }
}

impl StateStore {
    /// An empty store.
    pub fn new() -> (r: StateStore)
        ensures
            r@ == Seq::<StateElement>::empty(),
    {
        StateStore { elements: Vec::new() }
    }

    /// Number of elements in the store.
    pub fn len(&self) -> (r: usize)
        ensures
            r == self@.len(),
    {
        self.elements.len()
    }

    /// Appends a new element and returns its stable index.
    pub fn push_element(&mut self, value: i64, physical: bool) -> (idx: usize)
        ensures
            final(self)@ == old(self)@.push(StateElement { value, physical }),
            idx == old(self)@.len(),
    {
        let idx = self.elements.len();
        self.elements.push(StateElement { value, physical });
        idx
    }

    /// The value of the element at `idx`.
    pub fn get_value(&self, idx: usize) -> (r: i64)
        requires
            idx < self@.len(),
        ensures
            r == self@[idx as int].value,
    {
        self.elements[idx].value
    }

    /// Whether the element at `idx` is physical.
    pub fn is_physical(&self, idx: usize) -> (r: bool)
        requires
            idx < self@.len(),
        ensures
            r == self@[idx as int].physical,
    {
        self.elements[idx].physical
    }

    /// Overwrites the value at `idx`; the element's tag is left as it was.
    pub fn set_value(&mut self, idx: usize, value: i64)
        requires
            idx < old(self)@.len(),
        ensures
            final(self)@ == old(self)@.update(
                idx as int,
                StateElement { value, physical: old(self)@[idx as int].physical },
            ),
            final(self)@.len() == old(self)@.len(),
            final(self)@[idx as int].value == value,
            forall|j: int| 0 <= j < old(self)@.len() && j != idx ==> final(self)@[j] == old(self)@[j],
            same_shape(final(self)@, old(self)@),
    {
        let physical = self.elements[idx].physical;
        self.elements.set(idx, StateElement { value, physical });
        proof {
            assert(same_shape(self@, old(self)@));
        }
    }

    /// A full, independent copy of the store. The copy shares no mutable
    /// substructure with the original: after cloning, writes to either store
    /// are invisible to the other.
    pub fn deep_clone(&self) -> (r: StateStore)
        ensures
            r@ == self@,
    {
        let mut copied: Vec<StateElement> = Vec::new();
        let mut i: usize = 0;
        while i < self.elements.len()
            invariant
                i <= self.elements.len(),
                copied@ == self@.take(i as int),
            decreases self.elements.len() - i,
        {
            copied.push(self.elements[i]);
            proof {
                assert(self@.take(i as int).push(self@[i as int]) =~= self@.take(i + 1));
            }
            i = i + 1;
        }
        proof {
            assert(self@.take(self@.len() as int) =~= self@);
        }
        StateStore { elements: copied }
    }

    /// A snapshot of the elements as a plain vector, equal to the store's
    /// current contents.
    pub fn snapshot_elements(&self) -> (r: Vec<StateElement>)
        ensures
            r@ == self@,
    {
        let copy = self.deep_clone();
        copy.elements
    }

    /// Copies the physical subset of `source` into `self`, preserving every
    /// bookkeeping element of `self` unchanged.
    pub fn reset_physical_from(&mut self, source: &StateStore)
        requires
            same_shape(old(self)@, source@),
        ensures
            final(self)@ == reset_physical_spec(old(self)@, source@),
            final(self)@.len() == old(self)@.len(),
            forall|i: int| 0 <= i < old(self)@.len() && old(self)@[i].physical
                ==> final(self)@[i].value == source@[i].value,
            forall|i: int| 0 <= i < old(self)@.len() && !old(self)@[i].physical
                ==> final(self)@[i] == old(self)@[i],
            same_shape(final(self)@, old(self)@),
    {
        let ghost orig = self@;
        let mut i: usize = 0;
        while i < self.elements.len()
            invariant
                i <= orig.len(),
                self@.len() == orig.len(),
                orig.len() == source@.len(),
                same_shape(orig, source@),
                forall|j: int| 0 <= j < i ==> self@[j] == reset_physical_spec(orig, source@)[j],
                forall|j: int| i <= j < orig.len() ==> self@[j] == orig[j],
            decreases orig.len() - i,
        {
            if self.elements[i].physical {
                let v = source.elements[i].value;
                let tag = self.elements[i].physical;
                self.elements.set(i, StateElement { value: v, physical: tag });
            }
            i = i + 1;
        }
        proof {
            assert(self@ =~= reset_physical_spec(orig, source@));
        }
    }
}

/// Branch independence at the level of views: a branch copy starts equal to
/// the original, and overwriting any element of the copy yields contents that
/// differ from the original only at the written index — the original's
/// contents are not involved in the update at all, and vice versa.
pub proof fn lemma_clone_independence(s: Seq<StateElement>, i: int, value: i64)
    requires
        0 <= i < s.len(),
    ensures
        s.update(i, StateElement { value, physical: s[i].physical }).len() == s.len(),
        s.update(i, StateElement { value, physical: s[i].physical })[i].value == value,
        forall|j: int| 0 <= j < s.len() && j != i
            ==> s.update(i, StateElement { value, physical: s[i].physical })[j] == s[j],
{
}

} // verus!

//! Entities: bags of components, one per component kind.

use crate::hoo_object::RcAny;
use std::collections::HashMap;
use vstd::prelude::*;

verus! {

broadcast use vstd::std_specs::hash::group_hash_axioms;

/// An entity holds at most one component of each kind, by the kind's number.
pub struct HEntity {
    pub components: HashMap<u32, RcAny>,
}

impl View for HEntity {
    type V = Map<u32, RcAny>;

    open spec fn view(&self) -> Map<u32, RcAny> {
        self.components@
    }
}

/// Whether an entity with `components` has a component of every kind in
/// `group`.
pub open spec fn has_all(components: Map<u32, RcAny>, group: Seq<u32>) -> bool {
    forall|i: int| 0 <= i < group.len() ==> components.contains_key(#[trigger] group[i])
}

impl HEntity {
    /// An entity without components.
    pub fn new() -> (entity: Self)
        ensures
            entity@ == Map::<u32, RcAny>::empty(),
    {
        HEntity { components: HashMap::new() }
    }

    /// Gives the entity `component` as its component of kind `component_id`,
    /// in place of the one it had, if any.
    pub fn add_component(&mut self, component_id: u32, component: RcAny)
        ensures
            final(self)@ == old(self)@.insert(component_id, component),
    {
        self.components.insert(component_id, component);
    }

    /// The components that a system asks for with `group`, in the order of
    /// `group`; nothing if the entity lacks one of them.
    pub fn interested_components(&self, group: &[u32]) -> (found: Option<Vec<RcAny>>)
        ensures
            found is Some <==> has_all(self@, group@),
            found matches Some(components) ==> {
                &&& components@.len() == group@.len()
                &&& forall|i: int|
                    0 <= i < group@.len() ==> #[trigger] components@[i] == self@[group@[i]]
            },
    {
        let mut components: Vec<RcAny> = Vec::new();
        let mut i: usize = 0;
        while i < group.len()
            invariant
                0 <= i <= group@.len(),
                components@.len() == i,
                forall|j: int| 0 <= j < i ==> self@.contains_key(#[trigger] group@[j]),
                forall|j: int| 0 <= j < i ==> #[trigger] components@[j] == self@[group@[j]],
            decreases group@.len() - i,
        {
            match self.components.get(&group[i]) {
                Some(component) => {
                    components.push(component.clone());
                },
                None => {
                    assert(!self@.contains_key(group@[i as int]));
                    return None;
                },
            }
            i += 1;
        }
        Some(components)
    }
}

} // verus!

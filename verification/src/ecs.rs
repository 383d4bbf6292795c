//! A keyed entity/component store with a closed component set.
//!
//! Entities are created on first lookup and carry any number of
//! components out of a fixed, compile-time-known set; components are
//! addressed by their kind. There is no combined entity-and-component
//! query: compose [`System::query_entity`] with
//! [`Entity::get_component`], and mind that an entity may satisfy a
//! predicate yet lack the component.

use vstd::prelude::*;
use crate::constraints::Constraints;
use crate::constraints::ScreenProperty;
use crate::engine::ParentComponent;
use crate::engine::SceneComponent;
use crate::engine::ZIndexComponent;

verus! {

/// One component out of the closed set.
#[derive(Clone, Debug)]
pub enum Component {
    Constraints(Constraints),
    ZIndex(ZIndexComponent),
    Parent(ParentComponent),
    Scene(SceneComponent),
}

/// Addresses one component variant.
#[derive(Clone, Copy, Debug, PartialEq, Eq, Structural)]
pub enum ComponentKind {
    Constraints,
    ZIndex,
    Parent,
    Scene,
}

pub open spec fn kind_of(c: Component) -> ComponentKind {
    match c {
        Component::Constraints(_) => ComponentKind::Constraints,
        Component::ZIndex(_) => ComponentKind::ZIndex,
        Component::Parent(_) => ComponentKind::Parent,
        Component::Scene(_) => ComponentKind::Scene,
    }
}

/// The first component of a kind in a sequence, if any.
pub open spec fn find_comp(s: Seq<Component>, kind: ComponentKind) -> Option<Component>
    decreases s.len(),
{
    if s.len() == 0 {
        None
    } else if kind_of(s[0]) == kind {
        Some(s[0])
    } else {
        find_comp(s.drop_first(), kind)
    }
}

/// The subsequence of components of one kind, in insertion order.
pub open spec fn comps_of(s: Seq<Component>, kind: ComponentKind) -> Seq<Component>
    decreases s.len(),
{
    if s.len() == 0 {
        Seq::empty()
    } else {
        let rest = comps_of(s.drop_last(), kind);
        if kind_of(s.last()) == kind {
            rest.push(s.last())
        } else {
            rest
        }
    }
}

/// An entity: an id and its components, in insertion order.
#[derive(Clone, Debug)]
pub struct Entity {
    pub id: u64,
    pub components: Vec<Component>,
}

impl Entity {
    pub fn new(id: u64) -> (r: Entity)
        ensures
            r.id == id,
            r.components@.len() == 0,
    {
        Entity { id, components: Vec::new() }
    }

    pub fn id(&self) -> (r: u64)
        ensures
            r == self.id,
    {
        self.id
    }

    pub fn add_component(&mut self, component: Component)
        ensures
            final(self).id == old(self).id,
            final(self).components@ == old(self).components@.push(component),
    {
        self.components.push(component);
    }

    /// The first component of the given kind.
    pub fn get_component(&self, kind: ComponentKind) -> (r: Option<&Component>)
        ensures
            match r {
                Some(c) => find_comp(self.components@, kind) == Some(*c),
                None => find_comp(self.components@, kind) is None,
            },
    {
        let n = self.components.len();
        let mut i: usize = 0;
        proof {
            assert(self.components@.skip(0) =~= self.components@);
        }
        while i < n
            invariant
                n == self.components@.len(),
                i <= n,
                find_comp(self.components@, kind) == find_comp(
                    self.components@.skip(i as int),
                    kind,
                ),
            decreases n - i,
        {
            let c = &self.components[i];
            let matched = match c {
                Component::Constraints(_) => kind == ComponentKind::Constraints,
                Component::ZIndex(_) => kind == ComponentKind::ZIndex,
                Component::Parent(_) => kind == ComponentKind::Parent,
                Component::Scene(_) => kind == ComponentKind::Scene,
            };
            proof {
                assert(self.components@.skip(i as int)[0] == self.components@[i as int]);
                assert(self.components@.skip(i as int).drop_first() == self.components@.skip(
                    i as int + 1,
                ));
            }
            if matched {
                return Some(c);
            }
            i = i + 1;
        }
        proof {
            assert(self.components@.skip(n as int).len() == 0);
        }
        None
    }

    /// Exactly the components of the given kind, in insertion order.
    pub fn get_components(&self, kind: ComponentKind) -> (r: Vec<&Component>)
        ensures
            r@.len() == comps_of(self.components@, kind).len(),
            forall|k: int|
                0 <= k < r@.len() ==> *#[trigger] r@[k] == comps_of(self.components@, kind)[k],
    {
        let n = self.components.len();
        let mut out: Vec<&Component> = Vec::new();
        let mut i: usize = 0;
        while i < n
            invariant
                n == self.components@.len(),
                i <= n,
                out@.len() == comps_of(self.components@.take(i as int), kind).len(),
                forall|k: int|
                    0 <= k < out@.len() ==> *#[trigger] out@[k] == comps_of(
                        self.components@.take(i as int),
                        kind,
                    )[k],
            decreases n - i,
        {
            let c = &self.components[i];
            let matched = match c {
                Component::Constraints(_) => kind == ComponentKind::Constraints,
                Component::ZIndex(_) => kind == ComponentKind::ZIndex,
                Component::Parent(_) => kind == ComponentKind::Parent,
                Component::Scene(_) => kind == ComponentKind::Scene,
            };
            proof {
                assert(self.components@.take(i as int + 1).drop_last() =~= self.components@.take(
                    i as int,
                ));
                assert(self.components@.take(i as int + 1).last() == self.components@[i as int]);
            }
            if matched {
                out.push(c);
            }
            i = i + 1;
        }
        proof {
            assert(self.components@.take(n as int) =~= self.components@);
        }
        out
    }
}

/// The index of the first entity with an id, if any.
pub open spec fn find_entity(s: Seq<Entity>, id: u64) -> Option<int>
    decreases s.len(),
{
    if s.len() == 0 {
        None
    } else if s[0].id == id {
        Some(0)
    } else {
        match find_entity(s.drop_first(), id) {
            Some(i) => Some(i + 1),
            None => None,
        }
    }
}

/// The store: entities in creation order, plus the screen attribute.
pub struct System {
    pub entities: Vec<Entity>,
    pub screen: Option<ScreenProperty>,
}

impl System {
    pub fn new() -> (r: System)
        ensures
            r.entities@.len() == 0,
            r.spec_attribute() is None,
    {
        System { entities: Vec::new(), screen: None }
    }

    pub open spec fn spec_attribute(&self) -> Option<ScreenProperty> {
        self.screen
    }

    /// Installs the screen attribute.
    pub fn add_attribute(&mut self, value: ScreenProperty)
        ensures
            final(self).entities == old(self).entities,
            final(self).spec_attribute() == Some(value),
    {
        self.screen = Some(value);
    }

    /// The screen attribute, if installed.
    pub fn get_attribute(&self) -> (r: Option<&ScreenProperty>)
        ensures
            match r {
                Some(v) => self.spec_attribute() == Some(*v),
                None => self.spec_attribute() is None,
            },
    {
        self.screen.as_ref()
    }

    /// The index of the first entity satisfying the predicate.
    pub fn query_entity<F: Fn(&Entity) -> bool>(&self, predicate: F) -> (r: Option<usize>)
        requires
            forall|i: int|
                0 <= i < self.entities@.len() ==> predicate.requires((&self.entities@[i],)),
        ensures
            match r {
                Some(idx) => {
                    &&& idx < self.entities@.len()
                    &&& predicate.ensures((&self.entities@[idx as int],), true)
                    &&& forall|j: int|
                        0 <= j < idx ==> predicate.ensures((&self.entities@[j],), false)
                },
                None => forall|j: int|
                    0 <= j < self.entities@.len() ==> predicate.ensures(
                        (&self.entities@[j],),
                        false,
                    ),
            },
    {
        let n = self.entities.len();
        let mut i: usize = 0;
        while i < n
            invariant
                n == self.entities@.len(),
                i <= n,
                forall|k: int|
                    0 <= k < n ==> predicate.requires((&self.entities@[k],)),
                forall|j: int| 0 <= j < i ==> predicate.ensures((&self.entities@[j],), false),
            decreases n - i,
        {
            if predicate(&self.entities[i]) {
                return Some(i);
            }
            i = i + 1;
        }
        None
    }

    /// The indices of every entity satisfying the predicate, in order.
    pub fn query_entities<F: Fn(&Entity) -> bool>(&self, predicate: F) -> (r: Vec<usize>)
        requires
            forall|i: int|
                0 <= i < self.entities@.len() ==> predicate.requires((&self.entities@[i],)),
        ensures
            forall|k: int|
                0 <= k < r@.len() ==> #[trigger] r@[k] < self.entities@.len() && predicate.ensures(
                    (&self.entities@[r@[k] as int],),
                    true,
                ),
            forall|k1: int, k2: int| 0 <= k1 < k2 < r@.len() ==> r@[k1] < r@[k2],
            forall|j: int|
                0 <= j < self.entities@.len() ==> (predicate.ensures(
                    (&self.entities@[j],),
                    false,
                ) || exists|k: int| 0 <= k < r@.len() && #[trigger] r@[k] == j),
    {
        let n = self.entities.len();
        let mut out: Vec<usize> = Vec::new();
        let mut i: usize = 0;
        while i < n
            invariant
                n == self.entities@.len(),
                i <= n,
                forall|k: int|
                    0 <= k < n ==> predicate.requires((&self.entities@[k],)),
                forall|k: int|
                    0 <= k < out@.len() ==> #[trigger] out@[k] < i && predicate.ensures(
                        (&self.entities@[out@[k] as int],),
                        true,
                    ),
                forall|k1: int, k2: int| 0 <= k1 < k2 < out@.len() ==> out@[k1] < out@[k2],
                forall|j: int|
                    0 <= j < i ==> (predicate.ensures((&self.entities@[j],), false) || exists|k: int|
                        0 <= k < out@.len() && #[trigger] out@[k] == j),
            decreases n - i,
        {
            let ghost out_before = out@;
            let matched = predicate(&self.entities[i]);
            if matched {
                out.push(i);
            }
            proof {
                assert forall|j: int|
                    0 <= j < i + 1 implies (predicate.ensures((&self.entities@[j],), false)
                        || exists|k: int| 0 <= k < out@.len() && #[trigger] out@[k] == j) by {
                    if j < i {
                        if !predicate.ensures((&self.entities@[j],), false) {
                            let k = choose|k: int|
                                0 <= k < out_before.len() && #[trigger] out_before[k] == j;
                            assert(out@[k] == j);
                        }
                    } else {
                        if matched {
                            assert(out@[out@.len() - 1] == i);
                        }
                    }
                }
            }
            i = i + 1;
        }
        out
    }

    /// Finds the entity with the given id, creating it on a miss;
    /// returns its index.
    pub fn get_entity(&mut self, id: u64) -> (r: usize)
        ensures
            final(self).spec_attribute() == old(self).spec_attribute(),
            r < final(self).entities@.len(),
            final(self).entities@[r as int].id == id,
            match find_entity(old(self).entities@, id) {
                Some(i) => r == i && final(self).entities == old(self).entities,
                None => {
                    &&& r == old(self).entities@.len()
                    &&& final(self).entities@.len() == old(self).entities@.len() + 1
                    &&& forall|j: int|
                        0 <= j < old(self).entities@.len() ==> final(self).entities@[j] == old(
                            self,
                        ).entities@[j]
                    &&& final(self).entities@[r as int].components@.len() == 0
                },
            },
    {
        let n = self.entities.len();
        let mut i: usize = 0;
        proof {
            assert(self.entities@.skip(0) =~= self.entities@);
        }
        while i < n
            invariant
                n == self.entities@.len(),
                i <= n,
                find_entity(self.entities@, id) == match find_entity(
                    self.entities@.skip(i as int),
                    id,
                ) {
                    Some(k) => Some(k + i),
                    None => None,
                },
                forall|j: int| 0 <= j < i ==> (#[trigger] self.entities@[j]).id != id,
            decreases n - i,
        {
            proof {
                assert(self.entities@.skip(i as int)[0] == self.entities@[i as int]);
                assert(self.entities@.skip(i as int).drop_first() == self.entities@.skip(
                    i as int + 1,
                ));
            }
            if self.entities[i].id() == id {
                return i;
            }
            i = i + 1;
        }
        proof {
            assert(self.entities@.skip(n as int).len() == 0);
        }
        self.entities.push(Entity::new(id));
        n
    }
}

} // verus!

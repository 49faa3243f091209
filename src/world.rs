use vstd::prelude::*;
use crate::animation::Animation;
use crate::components::{Colider, Dimension, EntityState, Jump, Player, Position, Velocity};
use crate::limits::within;

verus! {

/// The attribute records of one entity; each is present or absent.
#[derive(Clone, Copy, Debug)]
pub struct Entity {
    pub player: Option<Player>,
    pub state: Option<EntityState>,
    pub position: Option<Position>,
    pub dimension: Option<Dimension>,
    pub velocity: Option<Velocity>,
    pub animation: Option<Animation>,
    pub colider: Option<Colider>,
    pub jump: Option<Jump>,
}

impl Entity {
    /// Every present record is in its valid range: the animation frame lies
    /// within its kind, coordinates and speeds within the bounds, and the
    /// render position within the bound of the collider.
    pub open spec fn wf(self) -> bool {
        &&& match self.animation {
            Some(a) => a.wf(),
            None => true,
        }
        &&& match self.colider {
            Some(c) => c.bounded(),
            None => true,
        }
        &&& match self.velocity {
            Some(v) => v.bounded(),
            None => true,
        }
        &&& match self.jump {
            Some(j) => j.bounded(),
            None => true,
        }
        &&& match (self.colider, self.position) {
            (Some(c), Some(p)) => within(p.x - c.x, 1) && within(p.y - c.y, 1),
            _ => true,
        }
    }

    /// An entity with no records.
    pub fn new() -> (r: Entity)
        ensures
            r.wf(),
            r.player is None && r.state is None && r.position is None && r.dimension is None,
            r.velocity is None && r.animation is None && r.colider is None && r.jump is None,
    {
        Entity {
            player: None,
            state: None,
            position: None,
            dimension: None,
            velocity: None,
            animation: None,
            colider: None,
            jump: None,
        }
    }
}

/// The entity store: entity ids are indices, and each id owns one record of
/// optional attributes.
pub struct World {
    entities: Vec<Entity>,
}

impl View for World {
    type V = Seq<Entity>;

    closed spec fn view(&self) -> Seq<Entity> {
        self.entities@
    }
}

impl World {
    pub open spec fn wf(&self) -> bool {
        forall|i: int| 0 <= i < self@.len() ==> (#[trigger] self@[i]).wf()
    }

    /// An empty store.
    pub fn new() -> (r: World)
        ensures
            r.wf(),
            r@ == Seq::<Entity>::empty(),
    {
        World { entities: Vec::new() }
    }

    /// Number of entities.
    pub fn len(&self) -> (r: usize)
        ensures
            r == self@.len(),
    {
        self.entities.len()
    }

    /// Adds an entity and returns its id.
    pub fn create_entity(&mut self, e: Entity) -> (id: usize)
        requires
            old(self).wf(),
            e.wf(),
        ensures
            final(self).wf(),
            final(self)@ == old(self)@.push(e),
            id == old(self)@.len(),
    {
        let id = self.entities.len();
        self.entities.push(e);
        assert forall|i: int| 0 <= i < self@.len() implies (#[trigger] self@[i]).wf() by {
            if i < id {
                assert(self@[i] == old(self)@[i]);
            }
        }
        id
    }

    /// The records of entity `id`.
    pub fn entity(&self, id: usize) -> (r: Entity)
        requires
            id < self@.len(),
        ensures
            r == self@[id as int],
    {
        self.entities[id]
    }

    /// Replaces the records of entity `id`.
    pub fn set_entity(&mut self, id: usize, e: Entity)
        requires
            old(self).wf(),
            id < old(self)@.len(),
            e.wf(),
        ensures
            final(self).wf(),
            final(self)@ == old(self)@.update(id as int, e),
    {
        self.entities.set(id, e);
        assert forall|i: int| 0 <= i < self@.len() implies (#[trigger] self@[i]).wf() by {
            if i != id {
                assert(self@[i] == old(self)@[i]);
            }
        }
    }
}

} // verus!

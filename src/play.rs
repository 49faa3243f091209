use vstd::prelude::*;
use crate::animation::{selected_kind, AnimationsKind};
use crate::components::{EntityState, Position};
use crate::input::{Key, KeySet};
use crate::level_manager::{LevelManager, LevelManagerView};
use crate::physics::{lemma_positioned_bounded, positioned, update_entity_position};
use crate::config::init_world;
use crate::limits::within;
use crate::sprite::Sprite;
use crate::systems::AnimationTick;
use crate::world::{Entity, World};

verus! {

/// The intent flags read from the held keys: left and right arrows, space to
/// jump, Q to attack. The other flags are kept.
pub open spec fn read_keys(st: EntityState, keys: Set<Key>) -> EntityState {
    EntityState {
        left: keys.contains(Key::Left),
        right: keys.contains(Key::Right),
        jump: keys.contains(Key::Space),
        attacking: keys.contains(Key::Q),
        ..st
    }
}

/// The entity after its animation ticked.
pub open spec fn ticked_entity(e: Entity) -> Entity {
    match e.animation {
        Some(a) => Entity { animation: Some(a.ticked()), ..e },
        None => e,
    }
}

/// The entity after a player's intent was read from the keys.
pub open spec fn keyed_entity(e: Entity, keys: Set<Key>) -> Entity {
    match (e.player, e.state) {
        (Some(_), Some(st)) => Entity { state: Some(read_keys(st, keys)), ..e },
        _ => e,
    }
}

/// The entity after a player's frame of motion; the render position, where
/// there is one, moves by the same amount as the collider.
pub open spec fn positioned_entity(m: LevelManagerView, e: Entity) -> Entity {
    match (e.player, e.state, e.colider, e.velocity, e.jump) {
        (Some(_), Some(st), Some(col), Some(vel), Some(jmp)) => {
            let (st2, col2, jmp2) = positioned(m, st, col, vel, jmp);
            Entity {
                state: Some(st2),
                colider: Some(col2),
                jump: Some(jmp2),
                position: match e.position {
                    Some(p) => Some(Position { x: (p.x + (col2.x - col.x)) as i64, y: (p.y + (col2.y - col.y)) as i64 }),
                    None => None,
                },
                ..e
            }
        },
        _ => e,
    }
}

/// The entity after a player's animation kind was chosen.
pub open spec fn animated_entity(e: Entity) -> Entity {
    match (e.player, e.animation, e.state, e.jump) {
        (Some(_), Some(a), Some(st), Some(jmp)) => Entity { animation: Some(a.with_kind(selected_kind(st, jmp))), ..e },
        _ => e,
    }
}

/// One simulation step of one entity: animation tick, key snapshot, motion,
/// then the choice of animation kind.
pub open spec fn frame_step(m: LevelManagerView, keys: Set<Key>, e: Entity) -> Entity {
    animated_entity(positioned_entity(m, keyed_entity(ticked_entity(e), keys)))
}

/// A simulation step keeps every record valid; in particular the animation
/// frame index stays below the frame count of the current kind.
pub proof fn lemma_frame_step_keeps_frame_in_range(m: LevelManagerView, keys: Set<Key>, e: Entity)
    requires
        m.valid(),
        e.wf(),
    ensures
        frame_step(m, keys, e).wf(),
        match frame_step(m, keys, e).animation {
            Some(a) => a.animations_index < a.animations_kind.frame_count(),
            None => true,
        },
{
    let e1 = keyed_entity(ticked_entity(e), keys);
    assert(e1.wf());
    match (e1.player, e1.state, e1.colider, e1.velocity, e1.jump) {
        (Some(_), Some(st), Some(col), Some(vel), Some(jmp)) => {
            lemma_positioned_bounded(m, st, col, vel, jmp);
        },
        _ => {},
    }
    let e2 = positioned_entity(m, e1);
    assert(e2.wf());
}

/// With no key held, an idle player resting on the floor whose animation counter does not
/// reach its cadence this tick keeps its collider, its render position, its
/// animation kind and its frame.
pub proof fn lemma_idle_step_is_noop(m: LevelManagerView, e: Entity)
    requires
        m.valid(),
        e.wf(),
        e.player is Some,
        e.state is Some,
        e.colider is Some,
        e.velocity is Some,
        e.jump is Some,
        e.animation is Some,
        !e.state->Some_0.in_air,
        m.on_floor(
            e.colider->Some_0.x as int,
            e.colider->Some_0.y as int,
            e.colider->Some_0.width as int,
            e.colider->Some_0.height as int,
        ),
        e.animation->Some_0.animations_kind == AnimationsKind::Idle,
        e.animation->Some_0.animations_tick + 1 < e.animation->Some_0.animations_speed,
    ensures
        frame_step(m, Set::empty(), e).colider == e.colider,
        frame_step(m, Set::empty(), e).position == e.position,
        frame_step(m, Set::empty(), e).animation->Some_0.animations_kind == AnimationsKind::Idle,
        frame_step(m, Set::empty(), e).animation->Some_0.animations_index == e.animation->Some_0.animations_index,
{
}

/// The sprite that draws an entity with a collider, a size and an animation:
/// at the collider shifted back by the render offset, textured by the current
/// frame in an atlas `columns` frames wide.
pub open spec fn entity_sprite(e: Entity, x_offset: int, y_offset: int, columns: int) -> Option<Sprite> {
    match (e.colider, e.dimension, e.animation) {
        (Some(c), Some(d), Some(a)) => Some(
            Sprite {
                x: (c.x - x_offset) as i64,
                y: (c.y - y_offset) as i64,
                width: d.width,
                height: d.height,
                texture: (a.animations_kind.row() * columns + a.animations_index) as usize,
            },
        ),
        _ => None,
    }
}

/// The sprites of the drawable entities among `es`, in entity order.
pub open spec fn sprites_of(es: Seq<Entity>, x_offset: int, y_offset: int, columns: int) -> Seq<Sprite>
    decreases es.len(),
{
    if es.len() == 0 {
        Seq::empty()
    } else {
        let rest = sprites_of(es.drop_last(), x_offset, y_offset, columns);
        match entity_sprite(es.last(), x_offset, y_offset, columns) {
            Some(sp) => rest.push(sp),
            None => rest,
        }
    }
}

/// The playing mode: the entity store and the level it moves in.
pub struct Play {
    ecs: World,
    level_manager: LevelManager,
}

impl Play {
    pub open spec fn wf(&self) -> bool {
        self.ecs().wf() && self.level_manager().wf()
    }

    pub closed spec fn ecs(&self) -> World {
        self.ecs
    }

    pub closed spec fn level_manager(&self) -> LevelManager {
        self.level_manager
    }

    /// Play in the level of `level_manager`, starting with the player alone.
    pub fn new(level_manager: LevelManager) -> (r: Play)
        requires
            level_manager.wf(),
        ensures
            r.wf(),
            r.ecs()@ == seq![crate::config::initial_player()],
            r.level_manager()@ == level_manager@,
    {
        Play { ecs: init_world(), level_manager }
    }

    /// Play over the entities of `ecs` in the level of `level_manager`.
    pub fn with_world(ecs: World, level_manager: LevelManager) -> (r: Play)
        requires
            ecs.wf(),
            level_manager.wf(),
        ensures
            r.wf(),
            r.ecs()@ == ecs@,
            r.level_manager()@ == level_manager@,
    {
        Play { ecs, level_manager }
    }

    /// What to draw for the entities: each entity with a collider, a size and
    /// an animation, drawn `x_offset` and `y_offset` world units left of and
    /// above its collider, from an atlas `columns` frames wide.
    pub fn draw_list(&self, x_offset: i64, y_offset: i64, columns: usize) -> (r: Vec<Sprite>)
        requires
            self.wf(),
            within(x_offset as int, 1),
            within(y_offset as int, 1),
            9 * columns + 6 <= usize::MAX,
        ensures
            r@ == sprites_of(self.ecs()@, x_offset as int, y_offset as int, columns as int),
    {
        let n = self.ecs.len();
        let mut r: Vec<Sprite> = Vec::new();
        let mut i: usize = 0;
        while i < n
            invariant
                self.wf(),
                n == self.ecs@.len(),
                i <= n,
                within(x_offset as int, 1),
                within(y_offset as int, 1),
                9 * columns + 6 <= usize::MAX,
                r@ == sprites_of(self.ecs@.take(i as int), x_offset as int, y_offset as int, columns as int),
            decreases n - i,
        {
            let e = self.ecs.entity(i);
            assert(e.wf());
            assert(self.ecs@.take(i + 1).drop_last() =~= self.ecs@.take(i as int));
            match (e.colider, e.dimension, e.animation) {
                (Some(c), Some(d), Some(a)) => {
                    assert(a.animations_kind.row() * columns + a.animations_index <= 9 * columns + 6) by (nonlinear_arith)
                        requires
                            a.animations_kind.row() <= 8,
                            a.animations_index < 6,
                    ;
                    r.push(Sprite {
                        x: c.x - x_offset,
                        y: c.y - y_offset,
                        width: d.width,
                        height: d.height,
                        texture: a.texture_index(columns),
                    });
                },
                _ => {},
            }
            i = i + 1;
        }
        assert(self.ecs@.take(n as int) =~= self.ecs@);
        r
    }

    /// The entity store.
    pub fn world(&self) -> (r: &World)
        ensures
            r@ == self.ecs()@,
    {
        &self.ecs
    }

    /// The level.
    pub fn level(&self) -> (r: &LevelManager)
        ensures
            r@ == self.level_manager()@,
    {
        &self.level_manager
    }

    /// The simulation step: advances every entity by one frame with the keys
    /// that are held.
    pub fn update(&mut self, keys: &KeySet)
        requires
            old(self).wf(),
        ensures
            final(self).wf(),
            final(self).level_manager()@ == old(self).level_manager()@,
            final(self).ecs()@.len() == old(self).ecs()@.len(),
            forall|i: int| 0 <= i < old(self).ecs()@.len() ==>
                final(self).ecs()@[i] == frame_step(old(self).level_manager()@, keys@, #[trigger] old(self).ecs()@[i]),
    {
        self.run_systems();
        self.handle_keys_events(keys);
        self.update_position();
        self.set_animation();
    }

    /// Ticks the animation of every entity that has one.
    fn run_systems(&mut self)
        requires
            old(self).wf(),
        ensures
            final(self).wf(),
            final(self).level_manager() == old(self).level_manager(),
            final(self).ecs()@.len() == old(self).ecs()@.len(),
            forall|i: int| 0 <= i < old(self).ecs()@.len() ==>
                final(self).ecs()@[i] == ticked_entity(#[trigger] old(self).ecs()@[i]),
    {
        let mut ani_tick = AnimationTick;
        ani_tick.run(&mut self.ecs);
    }

    /// Reads the intent of every player entity from the held keys.
    fn handle_keys_events(&mut self, keys: &KeySet)
        requires
            old(self).wf(),
        ensures
            final(self).wf(),
            final(self).level_manager() == old(self).level_manager(),
            final(self).ecs()@.len() == old(self).ecs()@.len(),
            forall|i: int| 0 <= i < old(self).ecs()@.len() ==>
                final(self).ecs()@[i] == keyed_entity(#[trigger] old(self).ecs()@[i], keys@),
    {
        let left = keys.contains(Key::Left);
        let right = keys.contains(Key::Right);
        let jump = keys.contains(Key::Space);
        let attacking = keys.contains(Key::Q);
        let n = self.ecs.len();
        let mut i: usize = 0;
        while i < n
            invariant
                self.wf(),
                n == self.ecs@.len(),
                n == old(self).ecs@.len(),
                i <= n,
                self.level_manager == old(self).level_manager,
                left == keys@.contains(Key::Left),
                right == keys@.contains(Key::Right),
                jump == keys@.contains(Key::Space),
                attacking == keys@.contains(Key::Q),
                forall|j: int| 0 <= j < i ==> self.ecs@[j] == keyed_entity(#[trigger] old(self).ecs@[j], keys@),
                forall|j: int| i <= j < n ==> self.ecs@[j] == #[trigger] old(self).ecs@[j],
            decreases n - i,
        {
            let mut e = self.ecs.entity(i);
            if e.player.is_some() {
                if let Some(mut st) = e.state {
                    st.left = left;
                    st.right = right;
                    st.jump = jump;
                    st.attacking = attacking;
                    e.state = Some(st);
                }
            }
            self.ecs.set_entity(i, e);
            i = i + 1;
        }
    }

    /// Moves every player entity by one frame against the level.
    fn update_position(&mut self)
        requires
            old(self).wf(),
        ensures
            final(self).wf(),
            final(self).level_manager() == old(self).level_manager(),
            final(self).ecs()@.len() == old(self).ecs()@.len(),
            forall|i: int| 0 <= i < old(self).ecs()@.len() ==>
                final(self).ecs()@[i] == positioned_entity(old(self).level_manager()@, #[trigger] old(self).ecs()@[i]),
    {
        let n = self.ecs.len();
        let mut i: usize = 0;
        while i < n
            invariant
                self.wf(),
                n == self.ecs@.len(),
                n == old(self).ecs@.len(),
                i <= n,
                self.level_manager == old(self).level_manager,
                forall|j: int| 0 <= j < i ==>
                    self.ecs@[j] == positioned_entity(self.level_manager@, #[trigger] old(self).ecs@[j]),
                forall|j: int| i <= j < n ==> self.ecs@[j] == #[trigger] old(self).ecs@[j],
            decreases n - i,
        {
            let mut e = self.ecs.entity(i);
            assert(e.wf());
            match (e.player, e.state, e.colider, e.velocity, e.jump) {
                (Some(_), Some(mut st), Some(mut col), Some(vel), Some(mut jmp)) => {
                    let old_col = col;
                    update_entity_position(&self.level_manager, &mut st, &mut col, &vel, &mut jmp);
                    e.state = Some(st);
                    e.colider = Some(col);
                    e.jump = Some(jmp);
                    if let Some(p) = e.position {
                        e.position = Some(Position { x: p.x + (col.x - old_col.x), y: p.y + (col.y - old_col.y) });
                    }
                },
                _ => {},
            }
            self.ecs.set_entity(i, e);
            i = i + 1;
        }
    }

    /// Chooses the animation kind of every player entity.
    fn set_animation(&mut self)
        requires
            old(self).wf(),
        ensures
            final(self).wf(),
            final(self).level_manager() == old(self).level_manager(),
            final(self).ecs()@.len() == old(self).ecs()@.len(),
            forall|i: int| 0 <= i < old(self).ecs()@.len() ==>
                final(self).ecs()@[i] == animated_entity(#[trigger] old(self).ecs()@[i]),
    {
        let n = self.ecs.len();
        let mut i: usize = 0;
        while i < n
            invariant
                self.wf(),
                n == self.ecs@.len(),
                n == old(self).ecs@.len(),
                i <= n,
                self.level_manager == old(self).level_manager,
                forall|j: int| 0 <= j < i ==> self.ecs@[j] == animated_entity(#[trigger] old(self).ecs@[j]),
                forall|j: int| i <= j < n ==> self.ecs@[j] == #[trigger] old(self).ecs@[j],
            decreases n - i,
        {
            let mut e = self.ecs.entity(i);
            assert(e.wf());
            match (e.player, e.animation, e.state, e.jump) {
                (Some(_), Some(mut ani), Some(st), Some(jmp)) => {
                    ani.set_animation(&st, &jmp);
                    e.animation = Some(ani);
                },
                _ => {},
            }
            self.ecs.set_entity(i, e);
            i = i + 1;
        }
    }
}

} // verus!

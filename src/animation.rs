use vstd::prelude::*;
use crate::atlas::get_index;
use crate::components::{EntityState, Jump};

verus! {

/// The movement or action category that selects a row of the sprite atlas.
#[derive(Clone, Copy, Debug, PartialEq, Eq, Structural)]
pub enum AnimationsKind {
    Running,
    Idle,
    Jumping,
    Falling,
    Ground,
    Hitting,
    Attacking,
    AttackingJump1,
    AttackingJump2,
}

impl AnimationsKind {
    /// The atlas row of this kind.
    pub open spec fn row(self) -> nat {
        match self {
            AnimationsKind::Idle => 0,
            AnimationsKind::Running => 1,
            AnimationsKind::Jumping => 2,
            AnimationsKind::Falling => 3,
            AnimationsKind::Ground => 4,
            AnimationsKind::Hitting => 5,
            AnimationsKind::Attacking => 6,
            AnimationsKind::AttackingJump1 => 7,
            AnimationsKind::AttackingJump2 => 8,
        }
    }

    /// The number of frames of this kind.
    pub open spec fn frame_count(self) -> nat {
        match self {
            AnimationsKind::Idle => 5,
            AnimationsKind::Running => 6,
            AnimationsKind::Jumping => 3,
            AnimationsKind::Falling => 1,
            AnimationsKind::Ground => 2,
            AnimationsKind::Hitting => 4,
            AnimationsKind::Attacking => 3,
            AnimationsKind::AttackingJump1 => 3,
            AnimationsKind::AttackingJump2 => 3,
        }
    }

    /// The atlas row and the frame count of this kind.
    pub fn get_index_and_count(&self) -> (r: (usize, usize))
        ensures
            r.0 == self.row(),
            r.1 == self.frame_count(),
            r.1 >= 1,
    {
        match self {
            AnimationsKind::Idle => (0, 5),
            AnimationsKind::Running => (1, 6),
            AnimationsKind::Jumping => (2, 3),
            AnimationsKind::Falling => (3, 1),
            AnimationsKind::Ground => (4, 2),
            AnimationsKind::Hitting => (5, 4),
            AnimationsKind::Attacking => (6, 3),
            AnimationsKind::AttackingJump1 => (7, 3),
            AnimationsKind::AttackingJump2 => (8, 3),
        }
    }
}

/// Animation state of one entity: the current kind, the frame shown, and the
/// tick counter that paces frames at `animations_speed` ticks per frame.
#[derive(Clone, Copy, Debug)]
pub struct Animation {
    pub animations_kind: AnimationsKind,
    pub animations_tick: i32,
    pub animations_index: usize,
    pub animations_speed: i32,
}

impl Animation {
    /// The frame index lies inside the current kind's frames, and the tick
    /// counter lies below the cadence (or is zero).
    pub open spec fn wf(self) -> bool {
        &&& self.animations_index < self.animations_kind.frame_count()
        &&& 0 <= self.animations_tick
        &&& (self.animations_tick < self.animations_speed || self.animations_tick == 0)
    }

    /// The state after one tick: the counter advances, and on reaching the
    /// cadence it restarts and the frame moves on, wrapping at the frame count.
    pub open spec fn ticked(self) -> Animation {
        if self.animations_tick + 1 >= self.animations_speed {
            Animation {
                animations_tick: 0,
                animations_index: if self.animations_index + 1 >= self.animations_kind.frame_count() {
                    0
                } else {
                    (self.animations_index + 1) as usize
                },
                ..self
            }
        } else {
            Animation { animations_tick: (self.animations_tick + 1) as i32, ..self }
        }
    }

    /// An animation of `kind` at its first frame, paced at `speed` ticks per frame.
    pub fn new(kind: AnimationsKind, speed: i32) -> (r: Animation)
        ensures
            r.wf(),
            r.animations_kind == kind,
            r.animations_tick == 0,
            r.animations_index == 0,
            r.animations_speed == speed,
    {
        Animation { animations_kind: kind, animations_tick: 0, animations_index: 0, animations_speed: speed }
    }

    /// Advances the animation by one tick.
    pub fn update_animations_tick(&mut self)
        requires
            old(self).wf(),
        ensures
            *final(self) == old(self).ticked(),
            final(self).wf(),
    {
        self.animations_tick = self.animations_tick + 1;
        if self.animations_tick >= self.animations_speed {
            self.animations_tick = 0;
            self.animations_index = self.animations_index + 1;
            let (_, count) = self.animations_kind.get_index_and_count();
            if self.animations_index >= count {
                self.animations_index = 0;
            }
        }
    }
}

/// The kind that the intent and physics state call for: attacking overrides
/// everything; an airborne entity is jumping while it rises and falling
/// otherwise; a grounded one is running when it moves and idle when not.
pub open spec fn selected_kind(st: EntityState, jmp: Jump) -> AnimationsKind {
    if st.attacking {
        AnimationsKind::Attacking
    } else if st.in_air {
        if jmp.air_speed < 0 {
            AnimationsKind::Jumping
        } else {
            AnimationsKind::Falling
        }
    } else if st.moving {
        AnimationsKind::Running
    } else {
        AnimationsKind::Idle
    }
}

/// Picks the animation kind for the given intent and physics state.
pub fn select_kind(st: &EntityState, jmp: &Jump) -> (r: AnimationsKind)
    ensures
        r == selected_kind(*st, *jmp),
{
    let mut kind = if st.moving {
        AnimationsKind::Running
    } else {
        AnimationsKind::Idle
    };
    if st.in_air {
        if jmp.air_speed < 0 {
            kind = AnimationsKind::Jumping;
        } else {
            kind = AnimationsKind::Falling;
        }
    }
    if st.attacking {
        kind = AnimationsKind::Attacking;
    }
    kind
}

impl Animation {
    /// The animation switched to `kind`: unchanged if that is the current
    /// kind, otherwise restarted at its first frame with a cleared counter.
    pub open spec fn with_kind(self, kind: AnimationsKind) -> Animation {
        if kind == self.animations_kind {
            self
        } else {
            Animation { animations_kind: kind, animations_tick: 0, animations_index: 0, ..self }
        }
    }

    /// Clears the tick counter and goes back to the first frame.
    pub fn reset_animation_tick(&mut self)
        ensures
            *final(self) == (Animation { animations_tick: 0, animations_index: 0, ..*old(self) }),
    {
        self.animations_tick = 0;
        self.animations_index = 0;
    }

    /// Switches to `kind`, restarting the cycle if the kind changes.
    pub fn set_kind(&mut self, kind: AnimationsKind)
        requires
            old(self).wf(),
        ensures
            *final(self) == old(self).with_kind(kind),
            final(self).wf(),
    {
        let start_animation = self.animations_kind;
        self.animations_kind = kind;
        if start_animation != self.animations_kind {
            self.reset_animation_tick();
        }
    }

    /// Switches to the kind that the state calls for, restarting the cycle
    /// whenever the kind changes.
    pub fn set_animation(&mut self, st: &EntityState, jmp: &Jump)
        requires
            old(self).wf(),
        ensures
            *final(self) == old(self).with_kind(selected_kind(*st, *jmp)),
            final(self).wf(),
    {
        self.set_kind(select_kind(st, jmp));
    }

    /// Index of the current frame in an atlas laid out `columns` frames per
    /// row, one row per kind.
    pub fn texture_index(&self, columns: usize) -> (r: usize)
        requires
            self.animations_kind.row() * columns + self.animations_index <= usize::MAX,
        ensures
            r == self.animations_kind.row() * columns + self.animations_index,
    {
        let (row, _) = self.animations_kind.get_index_and_count();
        get_index(self.animations_index, row, columns)
    }
}

} // verus!

use vstd::prelude::*;
use crate::animation::{Animation, AnimationsKind};
use crate::components::{Position, Velocity};
use crate::input::{Key, KeySet};

verus! {

/// What a key asks of a freely moving player.
#[derive(Clone, Copy, Debug, PartialEq, Eq, Structural)]
pub enum Actions {
    MoveLeft,
    MoveRight,
    MoveUp,
    MoveDown,
    Idle,
    Attacking,
}

/// The actions that the held keys ask for, in the order they are applied:
/// idle when nothing is held, then up, down, left, right and attack.
pub open spec fn key_actions(keys: Set<Key>) -> Seq<Actions> {
    (if keys == Set::<Key>::empty() { seq![Actions::Idle] } else { Seq::empty() })
        + (if keys.contains(Key::Up) { seq![Actions::MoveUp] } else { Seq::empty() })
        + (if keys.contains(Key::Down) { seq![Actions::MoveDown] } else { Seq::empty() })
        + (if keys.contains(Key::Left) { seq![Actions::MoveLeft] } else { Seq::empty() })
        + (if keys.contains(Key::Right) { seq![Actions::MoveRight] } else { Seq::empty() })
        + (if keys.contains(Key::Q) { seq![Actions::Attacking] } else { Seq::empty() })
}

/// The position after `action`: a move shifts it by the speed along its axis.
pub open spec fn moved_by(pos: Position, vel: Velocity, action: Actions) -> Position {
    match action {
        Actions::MoveUp => Position { y: (pos.y - vel.velocity) as i64, ..pos },
        Actions::MoveDown => Position { y: (pos.y + vel.velocity) as i64, ..pos },
        Actions::MoveLeft => Position { x: (pos.x - vel.velocity) as i64, ..pos },
        Actions::MoveRight => Position { x: (pos.x + vel.velocity) as i64, ..pos },
        _ => pos,
    }
}

/// The animation kind that `action` shows.
pub open spec fn action_kind(action: Actions) -> AnimationsKind {
    match action {
        Actions::Idle => AnimationsKind::Idle,
        Actions::Attacking => AnimationsKind::Attacking,
        _ => AnimationsKind::Running,
    }
}

/// The actions that the held keys ask for.
pub fn handle_keys_events(keys: &KeySet) -> (r: Vec<Actions>)
    ensures
        r@ == key_actions(keys@),
{
    let mut r: Vec<Actions> = Vec::new();
    if keys.is_empty() {
        r.push(Actions::Idle);
    }
    if keys.contains(Key::Up) {
        r.push(Actions::MoveUp);
    }
    if keys.contains(Key::Down) {
        r.push(Actions::MoveDown);
    }
    if keys.contains(Key::Left) {
        r.push(Actions::MoveLeft);
    }
    if keys.contains(Key::Right) {
        r.push(Actions::MoveRight);
    }
    if keys.contains(Key::Q) {
        r.push(Actions::Attacking);
    }
    assert(r@ =~= key_actions(keys@));
    r
}

/// Applies `action` to a freely moving player: moves go one speed step along
/// their axis and show running, attacking and idling only change the
/// animation, which restarts whenever its kind changes.
pub fn move_player(pos: &mut Position, vel: &Velocity, ani: &mut Animation, action: Actions)
    requires
        old(ani).wf(),
        i64::MIN <= old(pos).x - vel.velocity <= i64::MAX,
        i64::MIN <= old(pos).x + vel.velocity <= i64::MAX,
        i64::MIN <= old(pos).y - vel.velocity <= i64::MAX,
        i64::MIN <= old(pos).y + vel.velocity <= i64::MAX,
    ensures
        *final(pos) == moved_by(*old(pos), *vel, action),
        *final(ani) == old(ani).with_kind(action_kind(action)),
        final(ani).wf(),
{
    match action {
        Actions::Idle => {
            ani.set_kind(AnimationsKind::Idle);
        },
        Actions::MoveUp => {
            ani.set_kind(AnimationsKind::Running);
            pos.y = pos.y - vel.velocity;
        },
        Actions::MoveDown => {
            ani.set_kind(AnimationsKind::Running);
            pos.y = pos.y + vel.velocity;
        },
        Actions::MoveLeft => {
            ani.set_kind(AnimationsKind::Running);
            pos.x = pos.x - vel.velocity;
        },
        Actions::MoveRight => {
            ani.set_kind(AnimationsKind::Running);
            pos.x = pos.x + vel.velocity;
        },
        Actions::Attacking => {
            ani.set_kind(AnimationsKind::Attacking);
        },
    }
}

} // verus!

use vstd::prelude::*;
use crate::components::{Colider, EntityState, Jump, Velocity};
use crate::level_manager::{LevelManager, LevelManagerView};
use crate::limits::within;

verus! {

/// The state and vertical motion after a jump intent: a grounded entity takes
/// off with the jump impulse; an airborne one is left as it was.
pub open spec fn jumped(st: EntityState, jmp: Jump) -> (EntityState, Jump) {
    if st.in_air {
        (st, jmp)
    } else {
        (EntityState { in_air: true, ..st }, Jump { air_speed: jmp.jump_speed, ..jmp })
    }
}

/// The state and vertical motion on landing: grounded, at rest.
pub open spec fn landed(st: EntityState, jmp: Jump) -> (EntityState, Jump) {
    (EntityState { in_air: false, ..st }, Jump { air_speed: 0, ..jmp })
}

/// The horizontal displacement that the intent asks for.
pub open spec fn x_speed_of(st: EntityState, vel: Velocity) -> int {
    (if st.right { vel.velocity as int } else { 0 }) - (if st.left { vel.velocity as int } else { 0 })
}

/// The collider after a horizontal move by `dx`: moved if the moved box is
/// free, unchanged otherwise.
pub open spec fn moved_x(m: LevelManagerView, col: Colider, dx: int) -> Colider {
    if m.free_rect(col.x + dx, col.y as int, col.width as int, col.height as int) {
        Colider { x: (col.x + dx) as i64, ..col }
    } else {
        col
    }
}

/// One frame of motion for an entity: the jump intent, the fall that starts
/// when ground is missing (whatever keys are held), the vertical move by the current air speed with
/// its outcome (accelerate, land, or start falling from a blocked rise), and
/// the horizontal move. `moving` records whether left or right was intended.
pub open spec fn positioned(m: LevelManagerView, st: EntityState, col: Colider, vel: Velocity, jmp: Jump) -> (EntityState, Colider, Jump) {
    let st0 = EntityState { moving: st.left || st.right, ..st };
    let (st1, jmp1) = if st.jump { jumped(st0, jmp) } else { (st0, jmp) };
    if !st1.left && !st1.right && !st1.in_air
        && m.on_floor(col.x as int, col.y as int, col.width as int, col.height as int) {
        (st1, col, jmp1)
    } else {
        let dx = x_speed_of(st1, vel);
        let airborne = st1.in_air || !m.on_floor(col.x as int, col.y as int, col.width as int, col.height as int);
        let st2 = EntityState { in_air: airborne, ..st1 };
        if !airborne {
            (st2, moved_x(m, col, dx), jmp1)
        } else if m.free_rect(col.x as int, col.y + jmp1.air_speed, col.width as int, col.height as int) {
            let col3 = Colider { y: (col.y + jmp1.air_speed) as i64, ..col };
            (st2, moved_x(m, col3, dx), Jump { air_speed: (jmp1.air_speed + jmp1.gravity) as i64, ..jmp1 })
        } else if jmp1.air_speed > 0 {
            let (st4, jmp4) = landed(st2, jmp1);
            (st4, moved_x(m, col, dx), jmp4)
        } else {
            (st2, moved_x(m, col, dx), Jump { air_speed: jmp1.fall_speed, ..jmp1 })
        }
    }
}

/// A committed move keeps the collider on the playfield, hence in bounds.
proof fn lemma_free_rect_in_bounds(m: LevelManagerView, x: int, y: int, w: int, h: int)
    requires
        m.valid(),
        m.free_rect(x, y, w, h),
    ensures
        0 <= x < m.game_width(),
        0 <= y < m.game_height(),
        within(x, 1),
        within(y, 1),
{
}

/// One frame of motion keeps the collider and the vertical motion in bounds.
pub proof fn lemma_positioned_bounded(m: LevelManagerView, st: EntityState, col: Colider, vel: Velocity, jmp: Jump)
    requires
        m.valid(),
        col.bounded(),
        vel.bounded(),
        jmp.bounded(),
    ensures
        positioned(m, st, col, vel, jmp).1.bounded(),
        positioned(m, st, col, vel, jmp).2.bounded(),
{
    let st0 = EntityState { moving: st.left || st.right, ..st };
    let (st1, jmp1) = if st.jump { jumped(st0, jmp) } else { (st0, jmp) };
    let dx = x_speed_of(st1, vel);
    if m.free_rect(col.x + dx, col.y as int, col.width as int, col.height as int) {
        lemma_free_rect_in_bounds(m, col.x + dx, col.y as int, col.width as int, col.height as int);
    }
    if m.free_rect(col.x as int, col.y + jmp1.air_speed, col.width as int, col.height as int) {
        lemma_free_rect_in_bounds(m, col.x as int, col.y + jmp1.air_speed, col.width as int, col.height as int);
        let col3 = Colider { y: (col.y + jmp1.air_speed) as i64, ..col };
        if m.free_rect(col3.x + dx, col3.y as int, col3.width as int, col3.height as int) {
            lemma_free_rect_in_bounds(m, col3.x + dx, col3.y as int, col3.width as int, col3.height as int);
        }
    }
}

/// Starts a jump if the entity stands on the ground.
pub fn jump(st: &mut EntityState, jmp: &mut Jump)
    ensures
        (*final(st), *final(jmp)) == jumped(*old(st), *old(jmp)),
{
    if st.in_air {
        return;
    }
    st.in_air = true;
    jmp.air_speed = jmp.jump_speed;
}

/// Puts the entity back on the ground, at rest.
pub fn reset_in_air(st: &mut EntityState, jmp: &mut Jump)
    ensures
        (*final(st), *final(jmp)) == landed(*old(st), *old(jmp)),
{
    st.in_air = false;
    jmp.air_speed = 0;
}

/// Moves the collider horizontally by `x_speed` if the moved box is free.
pub fn update_x_position(lvl_manager: &LevelManager, col: &mut Colider, x_speed: i64)
    requires
        lvl_manager.wf(),
        old(col).bounded(),
        within(x_speed as int, 1),
    ensures
        *final(col) == moved_x(lvl_manager@, *old(col), x_speed as int),
        !lvl_manager@.free_rect(old(col).x + x_speed, old(col).y as int, old(col).width as int, old(col).height as int)
            ==> *final(col) == *old(col),
        final(col).bounded(),
{
    if lvl_manager.can_move_here(col.x + x_speed, col.y, col.width, col.height) {
        proof {
            lemma_free_rect_in_bounds(lvl_manager@, col.x + x_speed, col.y as int, col.width as int, col.height as int);
        }
        col.x = col.x + x_speed;
    }
}

/// Advances the motion of one entity by one frame against the level.
pub fn update_entity_position(
    level_manager: &LevelManager,
    st: &mut EntityState,
    col: &mut Colider,
    vel: &Velocity,
    jmp: &mut Jump,
)
    requires
        level_manager.wf(),
        old(col).bounded(),
        vel.bounded(),
        old(jmp).bounded(),
    ensures
        (*final(st), *final(col), *final(jmp)) == positioned(level_manager@, *old(st), *old(col), *vel, *old(jmp)),
        final(col).bounded(),
        final(jmp).bounded(),
{
    let ghost col0 = *col;
    st.moving = st.left || st.right;

    if st.jump {
        jump(st, jmp);
    }

    if !st.left && !st.right && !st.in_air && level_manager.is_on_floor(col.x, col.y, col.width, col.height) {
        return;
    }

    let mut x_speed: i64 = 0;

    if st.left {
        x_speed = x_speed - vel.velocity;
    }
    if st.right {
        x_speed = x_speed + vel.velocity;
    }
    assert(x_speed == x_speed_of(*st, *vel));

    if !st.in_air {
        if !level_manager.is_on_floor(col.x, col.y, col.width, col.height) {
            st.in_air = true;
        }
    }

    if st.in_air {
        if level_manager.can_move_here(col.x, col.y + jmp.air_speed, col.width, col.height) {
            proof {
                lemma_free_rect_in_bounds(level_manager@, col.x as int, col.y + jmp.air_speed, col.width as int, col.height as int);
            }
            col.y = col.y + jmp.air_speed;
            jmp.air_speed = jmp.air_speed + jmp.gravity;
            update_x_position(level_manager, col, x_speed);
        } else {
            if jmp.air_speed > 0 {
                reset_in_air(st, jmp);
            } else {
                jmp.air_speed = jmp.fall_speed;
            }
            update_x_position(level_manager, col, x_speed);
        }
    } else {
        update_x_position(level_manager, col, x_speed);
    }
}

} // verus!

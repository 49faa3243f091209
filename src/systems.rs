use vstd::prelude::*;
use crate::play::ticked_entity;
use crate::world::World;

verus! {

/// The system that advances the animation of every entity that has one.
#[derive(Clone, Copy, Debug, PartialEq, Eq, Structural)]
pub struct AnimationTick;

impl AnimationTick {
    /// Ticks the animation of every entity of `anims` that has one.
    pub fn run(&mut self, anims: &mut World)
        requires
            old(anims).wf(),
        ensures
            final(anims).wf(),
            final(anims)@.len() == old(anims)@.len(),
            forall|i: int| 0 <= i < old(anims)@.len() ==>
                final(anims)@[i] == ticked_entity(#[trigger] old(anims)@[i]),
    {
        let n = anims.len();
        let mut i: usize = 0;
        while i < n
            invariant
                anims.wf(),
                n == anims@.len(),
                n == old(anims)@.len(),
                i <= n,
                forall|j: int| 0 <= j < i ==> anims@[j] == ticked_entity(#[trigger] old(anims)@[j]),
                forall|j: int| i <= j < n ==> anims@[j] == #[trigger] old(anims)@[j],
            decreases n - i,
        {
            let mut e = anims.entity(i);
            assert(e.wf());
            if let Some(mut ani) = e.animation {
                ani.update_animations_tick();
                e.animation = Some(ani);
            }
            anims.set_entity(i, e);
            i = i + 1;
        }
    }
}

} // verus!

//! The animations of one player, and the step that runs them all.

use vstd::prelude::*;
use crate::animation::{Animation, AnimationView, BoundValue};
use crate::graph::{
    apply_pose, lemma_apply_pose_frame, live, pose_targets, same_node, same_shape, same_vacancies,
    Graph, Slot,
};
use crate::pool::Handle;

verus! {

/// The animations after each one that is switched on has run `dt` further.
pub open spec fn ticked_all(anims: Seq<AnimationView>, dt: int) -> Seq<AnimationView> {
    Seq::new(
        anims.len(),
        |i: int|
            if anims[i].enabled {
                anims[i].ticked(dt)
            } else {
                anims[i]
            },
    )
}

/// The storage after the poses of the animations that are switched on were
/// written, animation by animation.
pub open spec fn apply_poses(slots: Seq<Slot>, anims: Seq<AnimationView>) -> Seq<Slot>
    decreases anims.len(),
{
    if anims.len() == 0 {
        slots
    } else {
        let prev = apply_poses(slots, anims.drop_last());
        if anims.last().enabled {
            apply_pose(prev, anims.last().pose)
        } else {
            prev
        }
    }
}

/// Whether some track of an animation that is switched on names `h` as its
/// target.
pub open spec fn drives(anims: Seq<AnimationView>, h: Handle) -> bool {
    exists|a: int, k: int|
        0 <= a < anims.len() && (#[trigger] anims[a]).enabled && 0 <= k < anims[a].tracks.len() && (
        #[trigger] anims[a].tracks[k]).target == h
}

/// Whether the pose of every animation that is switched on holds one value
/// for each track, meant for that track's target.
pub open spec fn poses_follow_tracks(anims: Seq<AnimationView>) -> bool {
    forall|a: int|
        0 <= a < anims.len() && (#[trigger] anims[a]).enabled ==> {
            &&& anims[a].pose.len() == anims[a].tracks.len()
            &&& forall|k: int|
                0 <= k < anims[a].pose.len() ==> (#[trigger] anims[a].pose[k]).target
                    == anims[a].tracks[k].target
        }
}

/// After a step the poses follow the tracks, and the tracks are those from
/// before the step.
pub proof fn lemma_ticked_all_follows(anims: Seq<AnimationView>, dt: int)
    ensures
        poses_follow_tracks(ticked_all(anims, dt)),
        forall|h: Handle| drives(ticked_all(anims, dt), h) == #[trigger] drives(anims, h),
{
    let after = ticked_all(anims, dt);
    assert forall|h: Handle| drives(after, h) == #[trigger] drives(anims, h) by {
        if drives(after, h) {
            let (a, k) = choose|a: int, k: int|
                0 <= a < after.len() && (#[trigger] after[a]).enabled && 0 <= k
                    < after[a].tracks.len() && (#[trigger] after[a].tracks[k]).target == h;
            assert(anims[a].enabled && anims[a].tracks[k].target == h);
        }
        if drives(anims, h) {
            let (a, k) = choose|a: int, k: int|
                0 <= a < anims.len() && (#[trigger] anims[a]).enabled && 0 <= k
                    < anims[a].tracks.len() && (#[trigger] anims[a].tracks[k]).target == h;
            assert(after[a].enabled && after[a].tracks[k].target == h);
        }
    }
}

/// Writing the poses of a container changes only nodes that some track of an
/// animation that is switched on targets. No place of the storage is filled
/// or emptied, and a track whose target names no node changes nothing.
pub proof fn lemma_apply_poses_frame(slots: Seq<Slot>, anims: Seq<AnimationView>)
    requires
        poses_follow_tracks(anims),
    ensures
        same_shape(slots, apply_poses(slots, anims)),
        same_vacancies(slots, apply_poses(slots, anims)),
        forall|h: Handle| !drives(anims, h) ==> #[trigger] same_node(slots, apply_poses(slots, anims), h),
    decreases anims.len(),
{
    if anims.len() > 0 {
        let rest = anims.drop_last();
        let last = anims.last();
        let prev = apply_poses(slots, rest);
        let out = apply_poses(slots, anims);
        assert(poses_follow_tracks(rest)) by {
            assert forall|a: int| 0 <= a < rest.len() && (#[trigger] rest[a]).enabled implies {
                &&& rest[a].pose.len() == rest[a].tracks.len()
                &&& forall|k: int|
                    0 <= k < rest[a].pose.len() ==> (#[trigger] rest[a].pose[k]).target
                        == rest[a].tracks[k].target
            } by {
                assert(rest[a] == anims[a]);
            }
        }
        lemma_apply_poses_frame(slots, rest);
        if last.enabled {
            lemma_apply_pose_frame(prev, last.pose);
        }
        assert forall|h: Handle| !drives(anims, h) implies #[trigger] same_node(slots, out, h) by {
            if live(slots, h) {
                if drives(rest, h) {
                    let (a, k) = choose|a: int, k: int|
                        0 <= a < rest.len() && (#[trigger] rest[a]).enabled && 0 <= k
                            < rest[a].tracks.len() && (#[trigger] rest[a].tracks[k]).target == h;
                    assert(anims[a].enabled && anims[a].tracks[k].target == h);
                }
                assert(same_node(slots, prev, h));
                if last.enabled {
                    if pose_targets(last.pose, h) {
                        let k = choose|k: int|
                            0 <= k < last.pose.len() && (#[trigger] last.pose[k]).target == h;
                        let a = anims.len() - 1;
                        assert(anims[a].enabled && anims[a].tracks[k].target == h);
                    }
                    assert(same_node(prev, out, h));
                    assert(prev[h.index as int].generation == slots[h.index as int].generation);
                }
            }
        }
    }
}

/// Where no track of an animation that is switched on targets a node that
/// is there, writing the poses changes nothing at all: targets that were
/// removed, or never stood for a node, are passed over. The storage is one
/// that a handle can index.
pub proof fn lemma_apply_poses_dangling(slots: Seq<Slot>, anims: Seq<AnimationView>)
    requires
        slots.len() <= usize::MAX,
        poses_follow_tracks(anims),
        forall|h: Handle| drives(anims, h) ==> !#[trigger] live(slots, h),
    ensures
        apply_poses(slots, anims) == slots,
{
    let out = apply_poses(slots, anims);
    lemma_apply_poses_frame(slots, anims);
    assert forall|i: int| 0 <= i < slots.len() implies out[i] == slots[i] by {
        if slots[i].node is Some {
            let h = Handle { index: i as usize, generation: slots[i].generation };
            assert(live(slots, h));
            assert(same_node(slots, out, h));
        }
    }
    assert(out =~= slots);
}

/// The animations that one player owns, in the order in which they were
/// added. A container without animations stands for "none".
#[derive(Clone, Debug)]
pub struct AnimationContainer {
    animations: Vec<Animation>,
}

impl View for AnimationContainer {
    type V = Seq<AnimationView>;

    closed spec fn view(&self) -> Seq<AnimationView> {
        Seq::new(self.animations@.len(), |i: int| self.animations@[i]@)
    }
}

impl AnimationContainer {
    /// A container without animations.
    pub fn new() -> (r: AnimationContainer)
        ensures
            r@ == Seq::<AnimationView>::empty(),
    {
        let r = AnimationContainer { animations: Vec::new() };
        assert(r@ =~= Seq::empty());
        r
    }

    /// Adds an animation behind those that the container has and returns its
    /// index.
    pub fn add(&mut self, animation: Animation) -> (index: usize)
        ensures
            index == old(self)@.len(),
            final(self)@ == old(self)@.push(animation@),
    {
        let index: usize = self.animations.len();
        self.animations.push(animation);
        assert(self@ =~= old(self)@.push(animation@));
        index
    }

    /// The number of animations.
    pub fn len(&self) -> (r: usize)
        ensures
            r == self@.len(),
    {
        self.animations.len()
    }

    /// The animation at `index`, if there is one.
    pub fn get(&self, index: usize) -> (r: Option<&Animation>)
        ensures
            index < self@.len() ==> r is Some && r->0@ == self@[index as int],
            index >= self@.len() ==> r is None,
    {
        if index < self.animations.len() {
            Some(&self.animations[index])
        } else {
            None
        }
    }

    /// Runs every animation that is switched on `dt` further and, where
    /// `apply` is set, writes the pose of each onto the nodes that its tracks
    /// target. Without `apply` the storage is left alone; with it, only
    /// targeted nodes change, and a target that names no node is passed over.
    pub fn update_animations(&mut self, nodes: &mut Graph, apply: bool, dt: i64)
        ensures
            final(self)@ == ticked_all(old(self)@, dt as int),
            final(nodes)@ == (if apply {
                apply_poses(old(nodes)@, final(self)@)
            } else {
                old(nodes)@
            }),
            same_shape(old(nodes)@, final(nodes)@),
            same_vacancies(old(nodes)@, final(nodes)@),
            forall|h: Handle|
                !drives(old(self)@, h) ==> #[trigger] same_node(old(nodes)@, final(nodes)@, h),
    {
        let n: usize = self.animations.len();
        let mut i: usize = 0;
        while i < n
            invariant
                n == self.animations@.len(),
                n == old(self)@.len(),
                0 <= i <= n,
                forall|k: int| 0 <= k < i ==> self@[k] == ticked_all(old(self)@, dt as int)[k],
                forall|k: int| i <= k < n ==> self@[k] == old(self)@[k],
                nodes@ == (if apply {
                    apply_poses(old(nodes)@, self@.take(i as int))
                } else {
                    old(nodes)@
                }),
            decreases n - i,
        {
            let ghost before = self@;
            let mut animation = Animation::new();
            self.animations.set_and_swap(i, &mut animation);
            if animation.is_enabled() {
                animation.tick(dt);
                if apply {
                    animation.apply_pose(nodes);
                }
            }
            self.animations.set_and_swap(i, &mut animation);
            proof {
                assert forall|k: int| 0 <= k < i + 1 implies self@[k] == ticked_all(
                    old(self)@,
                    dt as int,
                )[k] by {
                    if k < i {
                        assert(self@[k] == before[k]);
                    }
                }
                assert(self@.take(i as int) =~= before.take(i as int));
                assert(self@.take(i + 1).drop_last() =~= self@.take(i as int));
            }
            i += 1;
        }
        proof {
            assert(self@.take(n as int) =~= self@);
            assert(self@ =~= ticked_all(old(self)@, dt as int));
            lemma_ticked_all_follows(old(self)@, dt as int);
            if apply {
                lemma_apply_poses_frame(old(nodes)@, self@);
            }
        }
    }
}

} // verus!

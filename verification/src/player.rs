//! The animation player: a node that owns animations, runs them once per
//! frame, and writes their poses onto the graph unless told to leave that
//! to somebody else.

use vstd::prelude::*;
use crate::animation::AnimationView;
use crate::base::{Base, BaseBuilder, ResourceManager};
use crate::container::{
    apply_poses, drives, lemma_apply_poses_dangling, lemma_apply_poses_frame,
    lemma_ticked_all_follows, ticked_all, AnimationContainer,
};
use crate::graph::{
    live, next_handle, same_node, same_shape, same_vacancies, with_node, Graph, Slot,
};
use crate::math::AxisAlignedBoundingBox;
use crate::node::{Node, UpdateContext, Uuid};
use crate::pool::Handle;
use crate::variable::InheritableVariable;

verus! {

/// What an animation player is, as a plain value. `modified` is the mark of
/// the slot that holds the animations: set where they were put there on
/// purpose, untouched by playback.
pub struct PlayerView {
    pub base: Base,
    pub animations: Seq<AnimationView>,
    pub modified: bool,
    pub auto_apply: bool,
}

impl PlayerView {
    /// The player after the step of one frame: its animations have run `dt`
    /// further, and nothing else about it has changed.
    pub open spec fn after_update(self, dt: int) -> PlayerView {
        PlayerView { animations: ticked_all(self.animations, dt), ..self }
    }

    /// The storage after the step of one frame of this player.
    pub open spec fn nodes_after_update(self, slots: Seq<Slot>, dt: int) -> Seq<Slot> {
        if self.auto_apply {
            apply_poses(slots, ticked_all(self.animations, dt))
        } else {
            slots
        }
    }

    /// The player after one step for each entry of `dts`, first to last.
    pub open spec fn after_updates(self, dts: Seq<int>) -> PlayerView
        decreases dts.len(),
    {
        if dts.len() == 0 {
            self
        } else {
            self.after_updates(dts.drop_last()).after_update(dts.last())
        }
    }

    /// The storage after one step of this player for each entry of `dts`.
    pub open spec fn nodes_after_updates(self, slots: Seq<Slot>, dts: Seq<int>) -> Seq<Slot>
        decreases dts.len(),
    {
        if dts.len() == 0 {
            slots
        } else {
            self.after_updates(dts.drop_last()).nodes_after_update(
                self.nodes_after_updates(slots, dts.drop_last()),
                dts.last(),
            )
        }
    }

    /// The player after its animations were replaced.
    pub open spec fn after_set_animations(self, animations: Seq<AnimationView>) -> PlayerView {
        PlayerView { animations, modified: true, ..self }
    }

    /// However many frames pass, the mark on the animations is what it was:
    /// playback is no edit. The flag, the shared node part, the number of
    /// animations and the targets of their tracks stay as well.
    pub proof fn lemma_updates_are_silent(self, dts: Seq<int>)
        ensures
            self.after_updates(dts).modified == self.modified,
            self.after_updates(dts).auto_apply == self.auto_apply,
            self.after_updates(dts).base == self.base,
            self.after_updates(dts).animations.len() == self.animations.len(),
            forall|h: Handle|
                drives(self.after_updates(dts).animations, h) == #[trigger] drives(
                    self.animations,
                    h,
                ),
        decreases dts.len(),
    {
        if dts.len() > 0 {
            let prev = self.after_updates(dts.drop_last());
            self.lemma_updates_are_silent(dts.drop_last());
            lemma_ticked_all_follows(prev.animations, dts.last());
            assert forall|h: Handle|
                drives(self.after_updates(dts).animations, h) == #[trigger] drives(
                    self.animations,
                    h,
                ) by {
                assert(drives(ticked_all(prev.animations, dts.last()), h) == drives(
                    prev.animations,
                    h,
                ));
                assert(drives(prev.animations, h) == drives(self.animations, h));
            }
        }
    }

    /// Replacing the animations sets the mark, and the frames that follow
    /// leave it set.
    pub proof fn lemma_set_animations_marks(self, animations: Seq<AnimationView>, dts: Seq<int>)
        ensures
            self.after_set_animations(animations).modified,
            self.after_set_animations(animations).after_updates(dts).modified,
    {
        self.after_set_animations(animations).lemma_updates_are_silent(dts);
    }

    /// A player whose tracks target no node that is there leaves the storage
    /// as it is, whether or not it applies its poses: targets that were
    /// removed, or never stood for a node, are passed over. The storage is
    /// one that a handle can index.
    pub proof fn lemma_update_dangling(self, slots: Seq<Slot>, dt: int)
        requires
            slots.len() <= usize::MAX,
            forall|h: Handle| drives(self.animations, h) ==> !#[trigger] live(slots, h),
        ensures
            self.nodes_after_update(slots, dt) == slots,
    {
        let now = ticked_all(self.animations, dt);
        lemma_ticked_all_follows(self.animations, dt);
        assert forall|h: Handle| drives(now, h) implies !#[trigger] live(slots, h) by {
            assert(drives(now, h) == drives(self.animations, h));
        }
        lemma_apply_poses_dangling(slots, now);
    }

    /// A player that does not apply its poses leaves the storage as it is,
    /// however many frames pass.
    pub proof fn lemma_updates_without_auto_apply(self, slots: Seq<Slot>, dts: Seq<int>)
        requires
            !self.auto_apply,
        ensures
            self.nodes_after_updates(slots, dts) == slots,
        decreases dts.len(),
    {
        if dts.len() > 0 {
            self.lemma_updates_without_auto_apply(slots, dts.drop_last());
            self.lemma_updates_are_silent(dts.drop_last());
        }
    }

    /// However many frames pass, a player changes only nodes that some track
    /// of one of its animations that are switched on targets. No place of
    /// the storage is filled or emptied on the way.
    pub proof fn lemma_updates_frame(self, slots: Seq<Slot>, dts: Seq<int>)
        ensures
            same_shape(slots, self.nodes_after_updates(slots, dts)),
            same_vacancies(slots, self.nodes_after_updates(slots, dts)),
            forall|h: Handle|
                !drives(self.animations, h) ==> #[trigger] same_node(
                    slots,
                    self.nodes_after_updates(slots, dts),
                    h,
                ),
        decreases dts.len(),
    {
        if dts.len() > 0 {
            let rest = dts.drop_last();
            let prev = self.after_updates(rest);
            let mid = self.nodes_after_updates(slots, rest);
            let out = self.nodes_after_updates(slots, dts);
            self.lemma_updates_frame(slots, rest);
            self.lemma_updates_are_silent(rest);
            let now = ticked_all(prev.animations, dts.last());
            lemma_ticked_all_follows(prev.animations, dts.last());
            if prev.auto_apply {
                lemma_apply_poses_frame(mid, now);
            }
            assert forall|h: Handle| !drives(self.animations, h) implies #[trigger] same_node(
                slots,
                out,
                h,
            ) by {
                if live(slots, h) {
                    assert(same_node(slots, mid, h));
                    assert(drives(prev.animations, h) == drives(self.animations, h));
                    assert(drives(now, h) == drives(prev.animations, h));
                    assert(same_node(mid, out, h));
                }
            }
        }
    }
}

/// A node that plays animations. Each frame it advances every animation it
/// owns; with `auto_apply` set it also writes the resulting poses onto the
/// nodes that the animations target.
#[derive(Clone, Debug)]
pub struct AnimationPlayer {
    base: Base,
    animations: InheritableVariable<AnimationContainer>,
    auto_apply: bool,
}

impl View for AnimationPlayer {
    type V = PlayerView;

    closed spec fn view(&self) -> PlayerView {
        PlayerView {
            base: self.base,
            animations: self.animations.value()@,
            modified: self.animations.modified(),
            auto_apply: self.auto_apply,
        }
    }
}

impl AnimationPlayer {
    /// The number of this kind of node.
    pub open spec fn spec_type_uuid() -> Uuid {
        Uuid(0x44d1_c94e_354f_4f9a_b918_9d31_c28a_a16a)
    }

    /// The player with its shared node part replaced.
    pub closed spec fn spec_with_base(self, base: Base) -> AnimationPlayer {
        AnimationPlayer { base, ..self }
    }

    /// Replacing the shared node part changes nothing else.
    pub proof fn lemma_with_base(self, base: Base)
        ensures
            self.spec_with_base(base)@ == (PlayerView { base, ..self@ }),
            self.spec_with_base(self@.base) == self,
    {
    }

    /// The number of this kind of node.
    pub fn type_uuid() -> (r: Uuid)
        ensures
            r == Self::spec_type_uuid(),
    {
        Uuid(0x44d1_c94e_354f_4f9a_b918_9d31_c28a_a16a)
    }

    /// Says whether poses are written onto the graph as part of `update`.
    /// Switch it off where something else, such as a machine that blends
    /// animations, reads the poses and applies them itself.
    pub fn set_auto_apply(&mut self, auto_apply: bool)
        ensures
            final(self)@ == (PlayerView { auto_apply, ..old(self)@ }),
    {
        self.auto_apply = auto_apply;
    }

    /// Whether poses are written onto the graph as part of `update`.
    pub fn is_auto_apply(&self) -> (r: bool)
        ensures
            r == self@.auto_apply,
    {
        self.auto_apply
    }

    /// The slot that holds the animations, for reading.
    pub fn animations(&self) -> (r: &InheritableVariable<AnimationContainer>)
        ensures
            r.value()@ == self@.animations,
            r.modified() == self@.modified,
    {
        &self.animations
    }

    /// The slot that holds the animations, for writing. What is done to the
    /// slot through this is done to the player; a write that marks the slot
    /// counts as an edit, so playback must not go this way.
    pub fn animations_mut(&mut self) -> (r: &mut InheritableVariable<AnimationContainer>)
        ensures
            r.value()@ == old(self)@.animations,
            r.modified() == old(self)@.modified,
            final(self)@ == (PlayerView {
                animations: final(r).value()@,
                modified: final(r).modified(),
                ..old(self)@
            }),
    {
        &mut self.animations
    }

    /// Replaces the animations and marks the slot: this is an edit.
    pub fn set_animations(&mut self, animations: AnimationContainer)
        ensures
            final(self)@ == old(self)@.after_set_animations(animations@),
            final(self)@.modified,
    {
        let _ = self.animations.set_value_and_mark_modified(animations);
    }

    /// The shared node part, for reading.
    pub fn base(&self) -> (r: &Base)
        ensures
            *r == self@.base,
    {
        &self.base
    }

    /// The shared node part, for writing.
    pub fn base_mut(&mut self) -> (r: &mut Base)
        ensures
            *r == old(self)@.base,
            *final(self) == old(self).spec_with_base(*final(r)),
    {
        &mut self.base
    }

    /// The box of the node in its own frame: that of the shared part, since a
    /// player fills no space of its own.
    pub fn local_bounding_box(&self) -> (r: AxisAlignedBoundingBox)
        ensures
            r == self@.base.local_bounds,
    {
        self.base.local_bounding_box()
    }

    /// The box of the node in the world's frame: that of the shared part.
    pub fn world_bounding_box(&self) -> (r: AxisAlignedBoundingBox)
        ensures
            r == self@.base.world_bounds,
    {
        self.base.world_bounding_box()
    }

    /// Looks up the node's resources again, which is left to the shared
    /// part. The player stays as it is, however often this is called.
    pub fn restore_resources(&mut self, resource_manager: ResourceManager)
        ensures
            *final(self) == *old(self),
    {
        self.base.restore_resources(resource_manager);
    }

    /// The number of this kind of node.
    pub fn id(&self) -> (r: Uuid)
        ensures
            r == Self::spec_type_uuid(),
    {
        Self::type_uuid()
    }

    /// The step of one frame. Every animation that is switched on runs
    /// `context.dt` further, through the silent way into the slot, so the
    /// slot's mark is what it was. With `auto_apply` set the poses are then
    /// written onto `context.nodes`; without it the nodes are left alone.
    /// Only nodes that a track targets can change, and a target that names
    /// no node is passed over. The context keeps its `dt` and still refers
    /// to the same storage.
    pub fn update(&mut self, context: &mut UpdateContext)
        ensures
            final(self)@ == old(self)@.after_update(old(context).dt as int),
            final(self)@.modified == old(self)@.modified,
            final(context).dt == old(context).dt,
            *final(final(context).nodes) == *final(old(context).nodes),
            final(context).nodes@ == old(self)@.nodes_after_update(
                old(context).nodes@,
                old(context).dt as int,
            ),
            !old(self)@.auto_apply ==> final(context).nodes@ == old(context).nodes@,
            same_shape(old(context).nodes@, final(context).nodes@),
            same_vacancies(old(context).nodes@, final(context).nodes@),
            forall|h: Handle|
                !drives(old(self)@.animations, h) ==> #[trigger] same_node(
                    old(context).nodes@,
                    final(context).nodes@,
                    h,
                ),
    {
        self.animations.get_value_mut_silent().update_animations(
            context.nodes,
            self.auto_apply,
            context.dt,
        );
    }
}

impl std::ops::Deref for AnimationPlayer {
    type Target = Base;

    /// A player can be read as its shared node part.
    fn deref(&self) -> (r: &Base)
        ensures
            *r == self@.base,
    {
        &self.base
    }
}

impl std::ops::DerefMut for AnimationPlayer {
    /// A player can be written as its shared node part.
    fn deref_mut(&mut self) -> (r: &mut Base)
        ensures
            *r == old(self)@.base,
            *final(self) == old(self).spec_with_base(*final(r)),
    {
        &mut self.base
    }
}

impl Default for AnimationPlayer {
    fn default() -> (r: AnimationPlayer)
        ensures
            r@ == (PlayerView {
                base: Base::spec_default(),
                animations: Seq::empty(),
                modified: true,
                auto_apply: true,
            }),
    {
        AnimationPlayer {
            base: Base::default(),
            animations: InheritableVariable::new_modified(AnimationContainer::new()),
            auto_apply: true,
        }
    }
}

/// What a builder has collected, as a plain value.
pub struct BuilderView {
    pub base_builder: BaseBuilder,
    pub animations: Seq<AnimationView>,
    pub auto_apply: bool,
}

impl BuilderView {
    /// What a builder starts with.
    pub open spec fn fresh(base_builder: BaseBuilder) -> BuilderView {
        BuilderView { base_builder, animations: Seq::empty(), auto_apply: true }
    }

    /// The collection after the animations were set.
    pub open spec fn with_animations(self, animations: Seq<AnimationView>) -> BuilderView {
        BuilderView { animations, ..self }
    }

    /// The collection after the flag was set.
    pub open spec fn with_auto_apply(self, auto_apply: bool) -> BuilderView {
        BuilderView { auto_apply, ..self }
    }

    /// The player that is built from the collection. Its animations were
    /// supplied by the caller, so their slot is marked.
    pub open spec fn built(self) -> PlayerView {
        PlayerView {
            base: self.base_builder.spec_build_base(),
            animations: self.animations,
            modified: true,
            auto_apply: self.auto_apply,
        }
    }

    /// Setting the flag twice to the same value gives the builder, and so
    /// the player, that setting it once gives.
    pub proof fn lemma_with_auto_apply_twice(self, auto_apply: bool)
        ensures
            self.with_auto_apply(auto_apply).with_auto_apply(auto_apply) == self.with_auto_apply(
                auto_apply,
            ),
            self.with_auto_apply(auto_apply).with_auto_apply(auto_apply).built()
                == self.with_auto_apply(auto_apply).built(),
    {
    }

    /// Each setter overwrites what an earlier call of it stored, and the two
    /// setters do not disturb each other, whatever their order.
    pub proof fn lemma_setters_overwrite(
        self,
        a: Seq<AnimationView>,
        b: Seq<AnimationView>,
        x: bool,
        y: bool,
    )
        ensures
            self.with_auto_apply(x).with_auto_apply(y) == self.with_auto_apply(y),
            self.with_animations(a).with_animations(b) == self.with_animations(b),
            self.with_animations(a).with_auto_apply(x) == self.with_auto_apply(x).with_animations(a),
    {
    }
}

/// Collects what an [`AnimationPlayer`] is to be made of.
#[derive(Debug)]
pub struct AnimationPlayerBuilder {
    base_builder: BaseBuilder,
    animations: AnimationContainer,
    auto_apply: bool,
}

impl View for AnimationPlayerBuilder {
    type V = BuilderView;

    closed spec fn view(&self) -> BuilderView {
        BuilderView {
            base_builder: self.base_builder,
            animations: self.animations@,
            auto_apply: self.auto_apply,
        }
    }
}

impl AnimationPlayerBuilder {
    /// Starts with no animations and with `auto_apply` set.
    pub fn new(base_builder: BaseBuilder) -> (r: AnimationPlayerBuilder)
        ensures
            r@ == BuilderView::fresh(base_builder),
    {
        AnimationPlayerBuilder {
            base_builder,
            animations: AnimationContainer::new(),
            auto_apply: true,
        }
    }

    /// Sets the animations, in place of those set before.
    pub fn with_animations(self, animations: AnimationContainer) -> (r: AnimationPlayerBuilder)
        ensures
            r@ == self@.with_animations(animations@),
    {
        AnimationPlayerBuilder {
            base_builder: self.base_builder,
            animations,
            auto_apply: self.auto_apply,
        }
    }

    /// Sets whether the player writes poses onto the graph by itself.
    pub fn with_auto_apply(self, auto_apply: bool) -> (r: AnimationPlayerBuilder)
        ensures
            r@ == self@.with_auto_apply(auto_apply),
    {
        AnimationPlayerBuilder {
            base_builder: self.base_builder,
            animations: self.animations,
            auto_apply,
        }
    }

    /// Makes the player and wraps it as a node. Nothing else is touched.
    pub fn build_node(self) -> (r: Node)
        ensures
            r is AnimationPlayer,
            r->AnimationPlayer_0@ == self@.built(),
    {
        Node::new(
            AnimationPlayer {
                base: self.base_builder.build_base(),
                animations: InheritableVariable::new_modified(self.animations),
                auto_apply: self.auto_apply,
            },
        )
    }

    /// Makes the player, stores it in the graph and returns the handle that
    /// names it.
    pub fn build(self, graph: &mut Graph) -> (h: Handle)
        ensures
            h == next_handle(old(graph)@),
            !live(old(graph)@, h),
            live(final(graph)@, h),
            final(graph)@[h.index as int].node->0 is AnimationPlayer,
            final(graph)@[h.index as int].node->0->AnimationPlayer_0@ == self@.built(),
            exists|node: Node| final(graph)@ == with_node(old(graph)@, node),
    {
        let node: Node = self.build_node();
        graph.add_node(node)
    }
}

} // verus!

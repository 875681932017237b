//! The kinds of node that a graph holds.

use vstd::prelude::*;
use crate::base::{Base, ResourceManager};
use crate::graph::{same_shape, same_vacancies, Graph, Slot};
use crate::math::{Axis, AxisAlignedBoundingBox};
use crate::player::AnimationPlayer;

verus! {

/// The fixed number by which a kind of node is told from its siblings.
#[derive(Clone, Copy, Debug, PartialEq, Eq, Structural)]
pub struct Uuid(pub u128);

/// What the step of one frame is given: the time that has passed since the
/// last frame, in ticks, and the storage with the nodes that animations may
/// target. The node being stepped is not in the storage meanwhile.
pub struct UpdateContext<'a> {
    pub dt: i64,
    pub nodes: &'a mut Graph,
}

/// A node of the graph: one of a closed set of kinds, each around a
/// [`Base`].
#[derive(Clone, Debug)]
pub enum Node {
    /// A node that only stands somewhere.
    Pivot(Base),
    /// A node that plays animations.
    AnimationPlayer(AnimationPlayer),
}

impl Node {
    /// The number of the kind `Pivot`.
    pub open spec fn spec_pivot_id() -> Uuid {
        Uuid(0xdc9f_1c1e_8a5b_4a0f_9d7c_3e50_61b2_47a8)
    }

    /// The part that the node shares with all kinds.
    pub open spec fn spec_base(self) -> Base {
        match self {
            Node::Pivot(b) => b,
            Node::AnimationPlayer(p) => p@.base,
        }
    }

    /// The node with its shared part replaced.
    pub open spec fn spec_with_base(self, base: Base) -> Node {
        match self {
            Node::Pivot(_) => Node::Pivot(base),
            Node::AnimationPlayer(p) => Node::AnimationPlayer(p.spec_with_base(base)),
        }
    }

    /// The node with one coordinate of its position replaced.
    pub open spec fn spec_moved(self, axis: Axis, value: i32) -> Node {
        self.spec_with_base(
            Base {
                local_position: self.spec_base().local_position.spec_with(axis, value),
                ..self.spec_base()
            },
        )
    }

    /// The number of the node's kind.
    pub open spec fn spec_id(self) -> Uuid {
        match self {
            Node::Pivot(_) => Self::spec_pivot_id(),
            Node::AnimationPlayer(_) => AnimationPlayer::spec_type_uuid(),
        }
    }

    /// Whether `after` is what the step of one frame over `dt` makes of this
    /// node: a player with its animations run further, any other kind as it
    /// was.
    pub open spec fn stepped_to(self, after: Node, dt: int) -> bool {
        match self {
            Node::Pivot(_) => after == self,
            Node::AnimationPlayer(p) => after is AnimationPlayer && after->AnimationPlayer_0@
                == p@.after_update(dt),
        }
    }

    /// The storage after the step of one frame of this node.
    pub open spec fn nodes_after_update(self, slots: Seq<Slot>, dt: int) -> Seq<Slot> {
        match self {
            Node::Pivot(_) => slots,
            Node::AnimationPlayer(p) => p@.nodes_after_update(slots, dt),
        }
    }

    /// Wraps an animation player as a node.
    pub fn new(player: AnimationPlayer) -> (r: Node)
        ensures
            r == Node::AnimationPlayer(player),
    {
        Node::AnimationPlayer(player)
    }

    /// The part that the node shares with all kinds.
    pub fn base(&self) -> (r: &Base)
        ensures
            *r == self.spec_base(),
    {
        match self {
            Node::Pivot(b) => b,
            Node::AnimationPlayer(p) => p.base(),
        }
    }

    /// Replaces one coordinate of the node's position.
    pub fn set_position_component(&mut self, axis: Axis, value: i32)
        ensures
            *final(self) == old(self).spec_moved(axis, value),
            final(self).spec_base() == (Base {
                local_position: old(self).spec_base().local_position.spec_with(axis, value),
                ..old(self).spec_base()
            }),
    {
        proof {
            if *self is AnimationPlayer {
                let p = self->AnimationPlayer_0;
                p.lemma_with_base(
                    Base {
                        local_position: p@.base.local_position.spec_with(axis, value),
                        ..p@.base
                    },
                );
            }
        }
        match self {
            Node::Pivot(b) => {
                b.local_position = b.local_position.with(axis, value);
            },
            Node::AnimationPlayer(p) => {
                let b = p.base_mut();
                b.local_position = b.local_position.with(axis, value);
            },
        }
    }

    /// The number of the node's kind, known without looking into the node.
    pub fn id(&self) -> (r: Uuid)
        ensures
            r == self.spec_id(),
    {
        match self {
            Node::Pivot(_) => Uuid(0xdc9f_1c1e_8a5b_4a0f_9d7c_3e50_61b2_47a8),
            Node::AnimationPlayer(p) => p.id(),
        }
    }

    /// The box of the node in its own frame.
    pub fn local_bounding_box(&self) -> (r: AxisAlignedBoundingBox)
        ensures
            r == self.spec_base().local_bounds,
    {
        match self {
            Node::Pivot(b) => b.local_bounding_box(),
            Node::AnimationPlayer(p) => p.local_bounding_box(),
        }
    }

    /// The box of the node in the world's frame.
    pub fn world_bounding_box(&self) -> (r: AxisAlignedBoundingBox)
        ensures
            r == self.spec_base().world_bounds,
    {
        match self {
            Node::Pivot(b) => b.world_bounding_box(),
            Node::AnimationPlayer(p) => p.world_bounding_box(),
        }
    }

    /// The step of one frame, as the node's kind defines it. A pivot has
    /// nothing to do; a player runs its animations.
    pub fn update(&mut self, context: &mut UpdateContext)
        ensures
            old(self).stepped_to(*final(self), old(context).dt as int),
            final(context).dt == old(context).dt,
            *final(final(context).nodes) == *final(old(context).nodes),
            final(context).nodes@ == old(self).nodes_after_update(
                old(context).nodes@,
                old(context).dt as int,
            ),
            same_shape(old(context).nodes@, final(context).nodes@),
            same_vacancies(old(context).nodes@, final(context).nodes@),
    {
        match self {
            Node::Pivot(_) => {},
            Node::AnimationPlayer(p) => {
                p.update(context);
            },
        }
    }

    /// Looks up the node's resources again. No kind here holds any, so the
    /// node stays as it is.
    pub fn restore_resources(&mut self, resource_manager: ResourceManager)
        ensures
            *final(self) == *old(self),
    {
        match self {
            Node::Pivot(b) => b.restore_resources(resource_manager),
            Node::AnimationPlayer(p) => p.restore_resources(resource_manager),
        }
    }
}

} // verus!

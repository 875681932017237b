//! The graph's storage: nodes in numbered places, found again by handle.

use vstd::prelude::*;
use crate::animation::BoundValue;
use crate::node::{Node, UpdateContext};
use crate::pool::Handle;

verus! {

/// One place of the storage. The generation counts how often the place has
/// been filled; a handle names the place only while the counts agree.
#[derive(Clone, Debug)]
pub struct Slot {
    pub generation: u32,
    pub node: Option<Node>,
}

/// Whether `h` names a node: its place exists, is filled, and has the
/// handle's generation.
pub open spec fn live(slots: Seq<Slot>, h: Handle) -> bool {
    &&& h.index < slots.len()
    &&& slots[h.index as int].generation == h.generation
    &&& slots[h.index as int].node is Some
}

/// The storage after one value was written: the node that the value's
/// target names has the coordinate replaced. Where the target names no
/// node, nothing changes.
pub open spec fn write_component(slots: Seq<Slot>, v: BoundValue) -> Seq<Slot> {
    if live(slots, v.target) {
        slots.update(
            v.target.index as int,
            Slot {
                generation: v.target.generation,
                node: Some(slots[v.target.index as int].node->0.spec_moved(v.axis, v.value)),
            },
        )
    } else {
        slots
    }
}

/// The storage after the values of a pose were written, first to last.
pub open spec fn apply_pose(slots: Seq<Slot>, pose: Seq<BoundValue>) -> Seq<Slot>
    decreases pose.len(),
{
    if pose.len() == 0 {
        slots
    } else {
        write_component(apply_pose(slots, pose.drop_last()), pose.last())
    }
}

/// Whether some value of the pose is meant for the node that `h` names.
pub open spec fn pose_targets(pose: Seq<BoundValue>, h: Handle) -> bool {
    exists|k: int| 0 <= k < pose.len() && (#[trigger] pose[k]).target == h
}

/// Whether two storages have the same places, filled and empty alike, with
/// the same generations: every handle names a node in both or in neither.
pub open spec fn same_shape(a: Seq<Slot>, b: Seq<Slot>) -> bool {
    &&& a.len() == b.len()
    &&& forall|i: int|
        0 <= i < a.len() ==> (#[trigger] a[i]).generation == b[i].generation && (a[i].node is Some)
            == (b[i].node is Some)
}

/// Whether the node that `h` names, if any, is the same in both storages.
pub open spec fn same_node(a: Seq<Slot>, b: Seq<Slot>, h: Handle) -> bool {
    live(a, h) ==> b[h.index as int] == a[h.index as int]
}

/// Whether every empty place of `a` is the same in `b`.
pub open spec fn same_vacancies(a: Seq<Slot>, b: Seq<Slot>) -> bool {
    forall|i: int| 0 <= i < a.len() && (#[trigger] a[i]).node is None ==> b[i] == a[i]
}

/// Writing a pose changes only nodes that some value of it targets. No
/// place is filled or emptied, no generation changes, and a value whose
/// target names no node changes nothing.
pub proof fn lemma_apply_pose_frame(slots: Seq<Slot>, pose: Seq<BoundValue>)
    ensures
        same_shape(slots, apply_pose(slots, pose)),
        same_vacancies(slots, apply_pose(slots, pose)),
        forall|h: Handle| !pose_targets(pose, h) ==> #[trigger] same_node(slots, apply_pose(slots, pose), h),
    decreases pose.len(),
{
    if pose.len() > 0 {
        let rest = pose.drop_last();
        let last = pose.last();
        let prev = apply_pose(slots, rest);
        let out = apply_pose(slots, pose);
        lemma_apply_pose_frame(slots, rest);
        assert(out == write_component(prev, last));
        assert forall|h: Handle| !pose_targets(pose, h) implies #[trigger] same_node(
            slots,
            out,
            h,
        ) by {
            if live(slots, h) {
                if pose_targets(rest, h) {
                    let k = choose|k: int| 0 <= k < rest.len() && (#[trigger] rest[k]).target == h;
                    assert(pose[k].target == h);
                }
                assert(same_node(slots, prev, h));
                assert(pose[pose.len() - 1].target != h);
                assert(slots[h.index as int].generation == prev[h.index as int].generation);
            }
        }
    }
}

/// The first place from `i` on that is empty and can still be given a new
/// generation; the number of places where there is none.
pub open spec fn first_free(slots: Seq<Slot>, i: int) -> int
    decreases slots.len() - i,
{
    if i >= slots.len() {
        i
    } else if slots[i].node is None && slots[i].generation < u32::MAX {
        i
    } else {
        first_free(slots, i + 1)
    }
}

/// The handle under which the next node will be stored.
pub open spec fn next_handle(slots: Seq<Slot>) -> Handle {
    let i = first_free(slots, 0);
    if i < slots.len() {
        Handle { index: i as usize, generation: (slots[i].generation + 1) as u32 }
    } else {
        Handle { index: slots.len() as usize, generation: 1 }
    }
}

/// The storage after `node` was stored under the next handle.
pub open spec fn with_node(slots: Seq<Slot>, node: Node) -> Seq<Slot> {
    let h = next_handle(slots);
    let slot = Slot { generation: h.generation, node: Some(node) };
    if h.index < slots.len() {
        slots.update(h.index as int, slot)
    } else {
        slots.push(slot)
    }
}

/// The storage after the node that `h` names, if any, was taken out.
pub open spec fn without_node(slots: Seq<Slot>, h: Handle) -> Seq<Slot> {
    if live(slots, h) {
        slots.update(h.index as int, Slot { generation: h.generation, node: None })
    } else {
        slots
    }
}

/// What `first_free` finds: a place from `i` on, or the end.
pub proof fn lemma_first_free(slots: Seq<Slot>, i: int)
    requires
        0 <= i <= slots.len(),
    ensures
        i <= first_free(slots, i) <= slots.len(),
        first_free(slots, i) < slots.len() ==> slots[first_free(slots, i)].node is None
            && slots[first_free(slots, i)].generation < u32::MAX,
    decreases slots.len() - i,
{
    if i < slots.len() && !(slots[i].node is None && slots[i].generation < u32::MAX) {
        lemma_first_free(slots, i + 1);
    }
}

/// The next handle names no node yet, and no node that was ever stored in
/// its place: a handle that has gone stale stays stale. Storing a node
/// leaves every other handle as it was.
pub proof fn lemma_next_handle_fresh(slots: Seq<Slot>, node: Node)
    requires
        slots.len() <= usize::MAX,
    ensures
        !live(slots, next_handle(slots)),
        live(with_node(slots, node), next_handle(slots)),
        with_node(slots, node)[next_handle(slots).index as int].node == Some(node),
        next_handle(slots).index < slots.len() ==> next_handle(slots).generation
            > slots[next_handle(slots).index as int].generation,
        forall|h: Handle|
            h != next_handle(slots) ==> live(with_node(slots, node), h) == #[trigger] live(slots, h),
        forall|h: Handle| #[trigger]
            live(slots, h) ==> with_node(slots, node)[h.index as int] == slots[h.index as int],
{
    lemma_first_free(slots, 0);
}

/// Whether `after` is what the step of one frame for the node at place `i`
/// makes of the storage `before`: the node is stepped as its kind defines,
/// with every other node within its reach and itself out of it. A place
/// that is empty or does not exist leaves the storage as it is.
pub open spec fn place_stepped(before: Seq<Slot>, after: Seq<Slot>, i: int, dt: int) -> bool {
    if 0 <= i < before.len() && before[i].node is Some {
        let h = Handle { index: i as usize, generation: before[i].generation };
        let node = before[i].node->0;
        &&& live(after, h)
        &&& node.stepped_to(after[i].node->0, dt)
        &&& without_node(after, h) == node.nodes_after_update(without_node(before, h), dt)
    } else {
        after == before
    }
}

/// Whether `states` records a frame place by place: the storage at each
/// position but the first comes from the one before it by the step of the
/// node at the place with the earlier position's number.
pub open spec fn frame_trace(states: Seq<Seq<Slot>>, dt: int) -> bool {
    forall|i: int|
        0 <= i < states.len() - 1 ==> place_stepped(#[trigger] states[i], states[i + 1], i, dt)
}

/// All the nodes of a scene.
#[derive(Clone, Debug)]
pub struct Graph {
    slots: Vec<Slot>,
}

impl View for Graph {
    type V = Seq<Slot>;

    closed spec fn view(&self) -> Seq<Slot> {
        self.slots@
    }
}

impl Graph {
    /// A graph without nodes.
    pub fn new() -> (r: Graph)
        ensures
            r@ == Seq::<Slot>::empty(),
    {
        Graph { slots: Vec::new() }
    }

    /// The number of places, filled or empty.
    pub fn capacity(&self) -> (r: usize)
        ensures
            r == self@.len(),
    {
        self.slots.len()
    }

    /// Whether `h` names a node of this graph.
    pub fn is_valid_handle(&self, h: Handle) -> (r: bool)
        ensures
            r == live(self@, h),
    {
        h.index < self.slots.len() && self.slots[h.index].generation == h.generation
            && self.slots[h.index].node.is_some()
    }

    /// The node that `h` names, if it names one. A stale handle is no error.
    pub fn try_get(&self, h: Handle) -> (r: Option<&Node>)
        ensures
            r == (if live(self@, h) {
                Some(&self@[h.index as int].node->0)
            } else {
                None
            }),
    {
        if h.index < self.slots.len() && self.slots[h.index].generation == h.generation {
            self.slots[h.index].node.as_ref()
        } else {
            None
        }
    }

    /// Stores a node and returns the handle that names it from now on: the
    /// first empty place is used again, under its next generation, and a new
    /// place is added where there is none.
    pub fn add_node(&mut self, node: Node) -> (h: Handle)
        ensures
            h == next_handle(old(self)@),
            final(self)@ == with_node(old(self)@, node),
            !live(old(self)@, h),
            live(final(self)@, h),
    {
        let n: usize = self.slots.len();
        proof {
            lemma_next_handle_fresh(self@, node);
        }
        let mut i: usize = 0;
        while i < n && !(self.slots[i].node.is_none() && self.slots[i].generation < u32::MAX)
            invariant
                n == self.slots@.len(),
                self.slots@ == old(self)@,
                0 <= i <= n,
                first_free(old(self)@, 0) == first_free(old(self)@, i as int),
            decreases n - i,
        {
            i += 1;
        }
        if i < n {
            let generation: u32 = self.slots[i].generation + 1;
            self.slots.set(i, Slot { generation, node: Some(node) });
            Handle { index: i, generation }
        } else {
            self.slots.push(Slot { generation: 1, node: Some(node) });
            Handle { index: n, generation: 1 }
        }
    }

    /// Takes out the node that `h` names and returns it. The handle, and
    /// every copy of it, names nothing from then on.
    pub fn remove_node(&mut self, h: Handle) -> (r: Option<Node>)
        ensures
            r == (if live(old(self)@, h) {
                old(self)@[h.index as int].node
            } else {
                None
            }),
            final(self)@ == without_node(old(self)@, h),
            !live(final(self)@, h),
    {
        if h.index < self.slots.len() && self.slots[h.index].generation == h.generation
            && self.slots[h.index].node.is_some() {
            let mut slot = Slot { generation: h.generation, node: None };
            self.slots.set_and_swap(h.index, &mut slot);
            slot.node
        } else {
            None
        }
    }

    /// The handle that names the node at place `index`; the handle that
    /// names nothing where the place is empty or does not exist.
    pub fn handle_at(&self, index: usize) -> (h: Handle)
        ensures
            h == (if index < self@.len() && self@[index as int].node is Some {
                Handle { index, generation: self@[index as int].generation }
            } else {
                Handle::spec_none()
            }),
            live(self@, h) == (index < self@.len() && self@[index as int].node is Some),
    {
        if index < self.slots.len() && self.slots[index].node.is_some() {
            Handle { index, generation: self.slots[index].generation }
        } else {
            Handle::none()
        }
    }

    /// The step of one frame for the node that `h` names, and `false` where
    /// it names none. The node is taken out of its place for the step, so
    /// that it can reach every other node but not itself, and is put back
    /// under the same handle.
    pub fn update_node(&mut self, h: Handle, dt: i64) -> (r: bool)
        ensures
            r == live(old(self)@, h),
            !r ==> final(self)@ == old(self)@,
            r ==> {
                &&& live(final(self)@, h)
                &&& old(self)@[h.index as int].node->0.stepped_to(
                    final(self)@[h.index as int].node->0,
                    dt as int,
                )
                &&& without_node(final(self)@, h) == old(self)@[h.index as int].node->0.nodes_after_update(
                    without_node(old(self)@, h),
                    dt as int,
                )
            },
            same_shape(old(self)@, final(self)@),
    {
        if !self.is_valid_handle(h) {
            return false;
        }
        let mut slot = Slot { generation: h.generation, node: None };
        self.slots.set_and_swap(h.index, &mut slot);
        let mut node: Node = slot.node.unwrap();
        let ghost vacated = self@;
        let mut context = UpdateContext { dt, nodes: self };
        node.update(&mut context);
        let ghost others = self@;
        self.slots.set(h.index, Slot { generation: h.generation, node: Some(node) });
        proof {
            assert(vacated =~= without_node(old(self)@, h));
            assert(others[h.index as int] == vacated[h.index as int]);
            assert(without_node(self@, h) =~= others);
            assert(same_shape(vacated, others));
            assert forall|i: int| 0 <= i < old(self)@.len() implies (#[trigger] old(self)@[i]).generation
                == self@[i].generation && (old(self)@[i].node is Some) == (self@[i].node is Some) by {
                assert(vacated[i].generation == others[i].generation);
            }
        }
        true
    }

    /// The step of one frame for the whole graph: every node is stepped once,
    /// in the order of the places, each seeing what the steps before it have
    /// written. No place is filled or emptied.
    pub fn update(&mut self, dt: i64)
        ensures
            same_shape(old(self)@, final(self)@),
            exists|states: Seq<Seq<Slot>>|
                {
                    &&& states.len() == old(self)@.len() + 1
                    &&& states[0] == old(self)@
                    &&& states.last() == final(self)@
                    &&& frame_trace(states, dt as int)
                },
    {
        let n: usize = self.slots.len();
        let ghost mut states: Seq<Seq<Slot>> = seq![self@];
        let mut i: usize = 0;
        while i < n
            invariant
                n == self@.len(),
                n == old(self)@.len(),
                0 <= i <= n,
                states.len() == i + 1,
                states[0] == old(self)@,
                states.last() == self@,
                frame_trace(states, dt as int),
                same_shape(old(self)@, self@),
            decreases n - i,
        {
            let ghost before = self@;
            let ghost earlier = states;
            let h: Handle = self.handle_at(i);
            let stepped: bool = self.update_node(h, dt);
            proof {
                assert(place_stepped(before, self@, i as int, dt as int));
                states = earlier.push(self@);
                assert forall|k: int| 0 <= k < states.len() - 1 implies place_stepped(
                    #[trigger] states[k],
                    states[k + 1],
                    k,
                    dt as int,
                ) by {
                    if k < i {
                        assert(states[k] == earlier[k]);
                        assert(states[k + 1] == earlier[k + 1]);
                    }
                }
                assert forall|k: int| 0 <= k < n implies (#[trigger] old(self)@[k]).generation
                    == self@[k].generation && (old(self)@[k].node is Some) == (self@[k].node is Some) by {
                    assert(before[k].generation == self@[k].generation);
                }
            }
            i += 1;
        }
        assert(states.len() == old(self)@.len() + 1 && states[0] == old(self)@ && states.last()
            == self@ && frame_trace(states, dt as int));
    }

    /// Writes one value of a pose: the node that the value's target names
    /// has the coordinate replaced. Where the target names no node, nothing
    /// happens.
    pub fn write(&mut self, v: BoundValue)
        ensures
            final(self)@ == write_component(old(self)@, v),
    {
        if v.target.index < self.slots.len() && self.slots[v.target.index].generation
            == v.target.generation && self.slots[v.target.index].node.is_some() {
            let mut slot = Slot { generation: v.target.generation, node: None };
            self.slots.set_and_swap(v.target.index, &mut slot);
            let mut node: Node = slot.node.unwrap();
            node.set_position_component(v.axis, v.value);
            self.slots.set(v.target.index, Slot { generation: v.target.generation, node: Some(node) });
            assert(self@ =~= write_component(old(self)@, v));
        }
    }
}

} // verus!

//! Animations: curves bound to nodes, a clock that runs through a slice of
//! time, and the pose that the curves give at the clock's position.

use vstd::prelude::*;
use crate::curve::{
    lemma_value_at_fits, lemma_value_at_key, strictly_ordered, value_at, Curve, CurveKey,
};
use crate::graph::{apply_pose, Graph};
use crate::math::Axis;
use crate::pool::Handle;

verus! {

/// One computed value and where it belongs: a coordinate of a node's
/// position.
#[derive(Clone, Copy, Debug, PartialEq, Eq, Structural)]
pub struct BoundValue {
    pub target: Handle,
    pub axis: Axis,
    pub value: i32,
}

/// A curve that drives one coordinate of one node's position. The node is
/// named by handle: the track neither owns it nor keeps it alive.
#[derive(Clone, Debug)]
pub struct Track {
    pub target: Handle,
    pub axis: Axis,
    pub curve: Curve,
}

/// What a track is, as a plain value.
pub struct TrackView {
    pub target: Handle,
    pub axis: Axis,
    pub keys: Seq<CurveKey>,
}

impl View for Track {
    type V = TrackView;

    open spec fn view(&self) -> TrackView {
        TrackView { target: self.target, axis: self.axis, keys: self.curve@ }
    }
}

impl TrackView {
    /// What the track asks for when the clock stands at `t`.
    pub open spec fn value_at(self, t: int) -> BoundValue {
        BoundValue { target: self.target, axis: self.axis, value: value_at(self.keys, t) as i32 }
    }
}

/// When the clock stands at the time of one of a track's keys, and the keys
/// are in order, the track asks for exactly that key's value.
pub proof fn lemma_track_value_at_key(track: TrackView, k: int)
    requires
        strictly_ordered(track.keys),
        0 <= k < track.keys.len(),
    ensures
        track.value_at(track.keys[k].time as int) == (BoundValue {
            target: track.target,
            axis: track.axis,
            value: track.keys[k].value,
        }),
{
    lemma_value_at_key(track.keys, k);
}

impl Track {
    /// Binds a curve to a coordinate of the node that `target` names.
    pub fn new(target: Handle, axis: Axis, curve: Curve) -> (r: Track)
        ensures
            r@ == (TrackView { target, axis, keys: curve@ }),
    {
        Track { target, axis, curve }
    }

    /// Points the track at another node.
    pub fn set_target(&mut self, target: Handle)
        ensures
            final(self)@ == (TrackView { target, ..old(self)@ }),
    {
        self.target = target;
    }

    /// What the track asks for when the clock stands at `t`.
    pub fn value_at(&self, t: i64) -> (r: BoundValue)
        ensures
            r == self@.value_at(t as int),
            strictly_ordered(self@.keys),
    {
        proof {
            lemma_value_at_fits(self.curve@, t as int);
        }
        BoundValue { target: self.target, axis: self.axis, value: self.curve.value_at(t) }
    }
}

/// Where a clock that stood at `t` stands after `dt` more, within the slice
/// from `start` to `end`. A position inside the slice, its ends included, is
/// kept. Outside it a looping clock goes round, and any other clock stops at
/// the end it ran over. A slice without length holds the clock at `start`.
pub open spec fn advance(t: int, dt: int, start: int, end: int, looped: bool) -> int {
    let raw = t + dt;
    if start >= end {
        start
    } else if start <= raw <= end {
        raw
    } else if looped {
        start + (raw - start) % (end - start)
    } else if raw < start {
        start
    } else {
        end
    }
}

/// The position that `advance` gives lies within the slice.
pub proof fn lemma_advance_within(t: int, dt: int, start: int, end: int, looped: bool)
    requires
        start <= end,
    ensures
        start <= advance(t, dt, start, end, looped) <= end,
{
    if start < end {
        vstd::arithmetic::div_mod::lemma_mod_bound(t + dt - start, end - start);
    }
}

/// A step of no length leaves a clock that stands inside its slice where it
/// is.
pub proof fn lemma_advance_by_zero(t: int, start: int, end: int, looped: bool)
    requires
        start <= t <= end,
    ensures
        advance(t, 0, start, end, looped) == t,
{
}

/// The remainder of a negative number, from that of its opposite.
proof fn lemma_mod_of_negative(x: int, m: int)
    requires
        x < 0,
        m > 0,
    ensures
        x % m == (if (-x) % m == 0 {
            0
        } else {
            m - (-x) % m
        }),
{
    let q = (-x) / m;
    let r = (-x) % m;
    vstd::arithmetic::div_mod::lemma_fundamental_div_mod(-x, m);
    vstd::arithmetic::div_mod::lemma_mod_bound(-x, m);
    if r == 0 {
        assert(x == (-q) * m + 0) by (nonlinear_arith)
            requires
                -x == m * q + r,
                r == 0,
        ;
        vstd::arithmetic::div_mod::lemma_fundamental_div_mod_converse(x, m, -q, 0);
    } else {
        assert(x == (-q - 1) * m + (m - r)) by (nonlinear_arith)
            requires
                -x == m * q + r,
        ;
        vstd::arithmetic::div_mod::lemma_fundamental_div_mod_converse(x, m, -q - 1, m - r);
    }
}

/// Computes where the clock stands after `dt` more.
pub fn advance_clock(t: i64, dt: i64, start: i64, end: i64, looped: bool) -> (r: i64)
    ensures
        r == advance(t as int, dt as int, start as int, end as int, looped),
{
    if start >= end {
        return start;
    }
    let raw: i128 = t as i128 + dt as i128;
    if start as i128 <= raw && raw <= end as i128 {
        return raw as i64;
    }
    if !looped {
        return if raw < start as i128 {
            start
        } else {
            end
        };
    }
    let span: u128 = (end as i128 - start as i128) as u128;
    let offset: i128 = raw - start as i128;
    proof {
        vstd::arithmetic::div_mod::lemma_mod_bound(offset as int, span as int);
    }
    if offset >= 0 {
        let within: u128 = (offset as u128) % span;
        (start as i128 + within as i128) as i64
    } else {
        proof {
            lemma_mod_of_negative(offset as int, span as int);
        }
        let back: u128 = ((-offset) as u128) % span;
        if back == 0 {
            start
        } else {
            (start as i128 + (span - back) as i128) as i64
        }
    }
}

/// What an animation is, as a plain value.
pub struct AnimationView {
    pub tracks: Seq<TrackView>,
    pub time_position: i64,
    pub slice_start: i64,
    pub slice_end: i64,
    pub looped: bool,
    pub enabled: bool,
    pub pose: Seq<BoundValue>,
}

/// What the tracks ask for when the clock stands at `t`, track by track.
pub open spec fn pose_at(tracks: Seq<TrackView>, t: int) -> Seq<BoundValue> {
    Seq::new(tracks.len(), |i: int| tracks[i].value_at(t))
}

/// The position inside the slice that is nearest to `t`.
pub open spec fn clamp_into(t: int, start: int, end: int) -> int {
    if start >= end || t < start {
        start
    } else if t > end {
        end
    } else {
        t
    }
}

impl AnimationView {
    /// The animation after its clock has run `dt` further: the clock is
    /// advanced first, and the pose is what the tracks give at the new
    /// position. The rest stays.
    pub open spec fn ticked(self, dt: int) -> AnimationView {
        let t = advance(
            self.time_position as int,
            dt,
            self.slice_start as int,
            self.slice_end as int,
            self.looped,
        );
        AnimationView { time_position: t as i64, pose: pose_at(self.tracks, t), ..self }
    }

    /// A fresh animation: no tracks, an empty slice at zero, looping, enabled,
    /// no pose yet.
    pub open spec fn fresh() -> AnimationView {
        AnimationView {
            tracks: Seq::empty(),
            time_position: 0,
            slice_start: 0,
            slice_end: 0,
            looped: true,
            enabled: true,
            pose: Seq::empty(),
        }
    }
}

/// Tracks that share one clock. The pose holds what the tracks gave when the
/// clock last ran; whoever does not let the player apply it reads it here.
#[derive(Clone, Debug)]
pub struct Animation {
    tracks: Vec<Track>,
    time_position: i64,
    slice_start: i64,
    slice_end: i64,
    looped: bool,
    enabled: bool,
    pose: Vec<BoundValue>,
}

impl View for Animation {
    type V = AnimationView;

    closed spec fn view(&self) -> AnimationView {
        AnimationView {
            tracks: Seq::new(self.tracks@.len(), |i: int| self.tracks@[i]@),
            time_position: self.time_position,
            slice_start: self.slice_start,
            slice_end: self.slice_end,
            looped: self.looped,
            enabled: self.enabled,
            pose: self.pose@,
        }
    }
}

impl Animation {
    /// Makes a fresh animation.
    pub fn new() -> (r: Animation)
        ensures
            r@ == AnimationView::fresh(),
    {
        let r = Animation {
            tracks: Vec::new(),
            time_position: 0,
            slice_start: 0,
            slice_end: 0,
            looped: true,
            enabled: true,
            pose: Vec::new(),
        };
        assert(r@.tracks =~= Seq::empty());
        r
    }

    /// Adds a track behind those that the animation has.
    pub fn add_track(&mut self, track: Track)
        ensures
            final(self)@ == (AnimationView {
                tracks: old(self)@.tracks.push(track@),
                ..old(self)@
            }),
    {
        self.tracks.push(track);
        assert(self@.tracks =~= old(self)@.tracks.push(track@));
    }

    /// Sets the slice of time that the clock runs through, and moves the
    /// clock to the nearest position inside it.
    pub fn set_time_slice(&mut self, start: i64, end: i64)
        ensures
            final(self)@ == (AnimationView {
                slice_start: start,
                slice_end: end,
                time_position: clamp_into(
                    old(self)@.time_position as int,
                    start as int,
                    end as int,
                ) as i64,
                ..old(self)@
            }),
    {
        self.slice_start = start;
        self.slice_end = end;
        if start >= end || self.time_position < start {
            self.time_position = start;
        } else if self.time_position > end {
            self.time_position = end;
        }
    }

    /// Switches the animation on or off. One that is off is neither advanced
    /// nor applied.
    pub fn set_enabled(&mut self, enabled: bool)
        ensures
            final(self)@ == (AnimationView { enabled, ..old(self)@ }),
    {
        self.enabled = enabled;
    }

    /// Says whether the clock goes round at the end of the slice or stops.
    pub fn set_loop(&mut self, looped: bool)
        ensures
            final(self)@ == (AnimationView { looped, ..old(self)@ }),
    {
        self.looped = looped;
    }

    /// Whether the animation is switched on.
    pub fn is_enabled(&self) -> (r: bool)
        ensures
            r == self@.enabled,
    {
        self.enabled
    }

    /// Where the clock stands.
    pub fn time_position(&self) -> (r: i64)
        ensures
            r == self@.time_position,
    {
        self.time_position
    }

    /// The number of values in the pose.
    pub fn pose_len(&self) -> (r: usize)
        ensures
            r == self@.pose.len(),
    {
        self.pose.len()
    }

    /// The value at `index` of the pose, if there is one.
    pub fn pose_value(&self, index: usize) -> (r: Option<BoundValue>)
        ensures
            r == (if index < self@.pose.len() {
                Some(self@.pose[index as int])
            } else {
                None
            }),
    {
        if index < self.pose.len() {
            Some(self.pose[index])
        } else {
            None
        }
    }

    /// Writes the pose onto the nodes that its values are meant for, first
    /// value to last. A value whose target names no node is passed over.
    pub fn apply_pose(&self, nodes: &mut Graph)
        ensures
            final(nodes)@ == apply_pose(old(nodes)@, self@.pose),
    {
        let n: usize = self.pose.len();
        let mut i: usize = 0;
        while i < n
            invariant
                n == self.pose@.len(),
                0 <= i <= n,
                nodes@ == apply_pose(old(nodes)@, self.pose@.take(i as int)),
            decreases n - i,
        {
            proof {
                assert(self.pose@.take(i + 1).drop_last() =~= self.pose@.take(i as int));
            }
            nodes.write(self.pose[i]);
            i += 1;
        }
        proof {
            assert(self.pose@.take(n as int) =~= self.pose@);
        }
    }

    /// Runs the clock `dt` further and computes the pose at the new position.
    /// Nothing outside the animation is touched.
    pub fn tick(&mut self, dt: i64)
        ensures
            final(self)@ == old(self)@.ticked(dt as int),
            old(self)@.slice_start <= old(self)@.slice_end ==> old(self)@.slice_start
                <= final(self)@.time_position <= old(self)@.slice_end,
    {
        proof {
            if self@.slice_start <= self@.slice_end {
                lemma_advance_within(
                    self@.time_position as int,
                    dt as int,
                    self@.slice_start as int,
                    self@.slice_end as int,
                    self@.looped,
                );
            }
        }
        let t: i64 = advance_clock(
            self.time_position,
            dt,
            self.slice_start,
            self.slice_end,
            self.looped,
        );
        let n: usize = self.tracks.len();
        let mut pose: Vec<BoundValue> = Vec::new();
        let mut i: usize = 0;
        while i < n
            invariant
                n == self.tracks@.len(),
                0 <= i <= n,
                pose@.len() == i,
                forall|k: int| 0 <= k < i ==> pose@[k] == (#[trigger] self.tracks@[k])@.value_at(t as int),
            decreases n - i,
        {
            let v: BoundValue = self.tracks[i].value_at(t);
            pose.push(v);
            i += 1;
        }
        self.time_position = t;
        self.pose = pose;
        assert(self@.pose =~= pose_at(old(self)@.tracks, t as int));
        assert(self@.tracks =~= old(self)@.tracks);
    }
}

} // verus!

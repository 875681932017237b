//! Curves: a value as a function of time, given by keys and straight lines
//! between them.

use vstd::prelude::*;

verus! {

/// A point of a curve: at `time` the curve has `value`.
#[derive(Clone, Copy, Debug, PartialEq, Eq, Structural)]
pub struct CurveKey {
    pub time: i64,
    pub value: i32,
}

/// Whether the keys stand in strictly increasing order of time.
pub open spec fn strictly_ordered(keys: Seq<CurveKey>) -> bool {
    forall|i: int, j: int| 0 <= i < j < keys.len() ==> keys[i].time < keys[j].time
}

/// The value at `t` on the straight line from key `a` to the later key `b`,
/// rounded towards the value of `a`.
pub open spec fn lerp(a: CurveKey, b: CurveKey, t: int) -> int {
    if b.value >= a.value {
        a.value + ((b.value - a.value) * (t - a.time)) / (b.time - a.time)
    } else {
        a.value - ((a.value - b.value) * (t - a.time)) / (b.time - a.time)
    }
}

/// The index of the last key, from `i` on, that the scan for `t` stops at:
/// the first one whose successor lies after `t`, or the last key of all.
pub open spec fn segment_from(keys: Seq<CurveKey>, t: int, i: int) -> int
    decreases keys.len() - i,
{
    if i + 1 >= keys.len() {
        i
    } else if t < keys[i + 1].time {
        i
    } else {
        segment_from(keys, t, i + 1)
    }
}

/// The value of the curve through `keys` at time `t`: zero without keys, the
/// first key's value up to its time, the last key's value from its time on,
/// and the straight line between the two neighbouring keys elsewhere.
pub open spec fn value_at(keys: Seq<CurveKey>, t: int) -> int {
    if keys.len() == 0 {
        0
    } else if t <= keys[0].time {
        keys[0].value as int
    } else {
        let i = segment_from(keys, t, 0);
        if i + 1 >= keys.len() {
            keys[i].value as int
        } else {
            lerp(keys[i], keys[i + 1], t)
        }
    }
}

/// The index of the first key, from `i` on, whose time is not before `t`;
/// the number of keys where there is none.
pub open spec fn insertion_point(keys: Seq<CurveKey>, t: int, i: int) -> int
    decreases keys.len() - i,
{
    if i >= keys.len() {
        i
    } else if keys[i].time >= t {
        i
    } else {
        insertion_point(keys, t, i + 1)
    }
}

/// The keys after `key` has been put in: in place of the key with the same
/// time where there is one, else before the first later key.
pub open spec fn spec_add_key(keys: Seq<CurveKey>, key: CurveKey) -> Seq<CurveKey> {
    let i = insertion_point(keys, key.time as int, 0);
    if i < keys.len() && keys[i].time == key.time {
        keys.update(i, key)
    } else {
        keys.insert(i, key)
    }
}

/// A product of two bounded factors, divided by the bound of the second,
/// does not exceed the first.
proof fn lemma_scaled_within(d: int, p: int, q: int)
    requires
        0 <= d,
        0 <= p <= q,
        0 < q,
    ensures
        0 <= (d * p) / q <= d,
        d * p >= 0,
        d * p <= d * q,
        p == q ==> (d * p) / q == d,
        p == 0 ==> (d * p) / q == 0,
{
    assert(d * p >= 0) by (nonlinear_arith)
        requires
            0 <= d,
            0 <= p,
    ;
    assert(d * p <= d * q) by (nonlinear_arith)
        requires
            0 <= d,
            0 <= p <= q,
    ;
    vstd::arithmetic::div_mod::lemma_div_is_ordered(d * p, d * q, q);
    vstd::arithmetic::div_mod::lemma_div_multiples_vanish(d, q);
    assert(d * q == q * d) by (nonlinear_arith);
    vstd::arithmetic::div_mod::lemma_div_pos_is_pos(d * p, q);
    if p == 0 {
        assert(d * p == 0) by (nonlinear_arith)
            requires
                p == 0,
        ;
    }
}

/// The straight line between two keys stays between their values and meets
/// each key at its own time.
pub proof fn lemma_lerp_bounds(a: CurveKey, b: CurveKey, t: int)
    requires
        a.time <= t <= b.time,
        a.time < b.time,
    ensures
        a.value <= b.value ==> a.value <= lerp(a, b, t) <= b.value,
        a.value > b.value ==> b.value <= lerp(a, b, t) <= a.value,
        t == a.time ==> lerp(a, b, t) == a.value,
        t == b.time ==> lerp(a, b, t) == b.value,
{
    if b.value >= a.value {
        lemma_scaled_within(b.value - a.value, t - a.time, b.time - a.time);
    } else {
        lemma_scaled_within(a.value - b.value, t - a.time, b.time - a.time);
    }
}

/// Where the scan for `t` stops, counted from a key that does not lie after
/// `t`: at a key that does not lie after `t` either, whose successor, if
/// there is one, does.
pub proof fn lemma_segment_from(keys: Seq<CurveKey>, t: int, i: int)
    requires
        0 <= i < keys.len(),
        keys[i].time <= t,
    ensures
        i <= segment_from(keys, t, i) < keys.len(),
        keys[segment_from(keys, t, i)].time <= t,
        segment_from(keys, t, i) + 1 < keys.len() ==> t < keys[segment_from(keys, t, i) + 1].time,
    decreases keys.len() - i,
{
    if i + 1 >= keys.len() {
    } else if t < keys[i + 1].time {
    } else {
        lemma_segment_from(keys, t, i + 1);
    }
}

/// A curve whose keys are ordered passes through each of them.
pub proof fn lemma_value_at_key(keys: Seq<CurveKey>, k: int)
    requires
        strictly_ordered(keys),
        0 <= k < keys.len(),
    ensures
        value_at(keys, keys[k].time as int) == keys[k].value,
{
    let t = keys[k].time as int;
    if t <= keys[0].time {
        assert(k == 0);
    } else {
        lemma_segment_from(keys, t, 0);
        let i = segment_from(keys, t, 0);
        assert(i == k) by {
            if i < k {
                assert(keys[i + 1].time <= keys[k].time);
            }
            if i > k {
                assert(keys[k].time < keys[i].time);
            }
        }
        if i + 1 < keys.len() {
            lemma_lerp_bounds(keys[i], keys[i + 1], t);
        }
    }
}

/// Every value of a curve fits the type of its keys' values.
pub proof fn lemma_value_at_fits(keys: Seq<CurveKey>, t: int)
    ensures
        i32::MIN <= value_at(keys, t) <= i32::MAX,
{
    if keys.len() > 0 && t > keys[0].time {
        lemma_segment_from(keys, t, 0);
        let i = segment_from(keys, t, 0);
        if i + 1 < keys.len() {
            lemma_lerp_bounds(keys[i], keys[i + 1], t);
        }
    }
}

/// A curve: keys in strictly increasing order of time. Every curve there is
/// has its keys in that order, as each method that looks at one confirms.
#[derive(Debug)]
pub struct Curve {
    keys: Vec<CurveKey>,
}

impl View for Curve {
    type V = Seq<CurveKey>;

    closed spec fn view(&self) -> Seq<CurveKey> {
        self.keys@
    }
}

impl Clone for Curve {
    /// A curve with the same keys.
    fn clone(&self) -> (r: Curve)
        ensures
            r@ == self@,
    {
        proof {
            use_type_invariant(self);
        }
        let n: usize = self.keys.len();
        let mut keys: Vec<CurveKey> = Vec::new();
        let mut i: usize = 0;
        while i < n
            invariant
                n == self.keys@.len(),
                0 <= i <= n,
                keys@ == self.keys@.take(i as int),
            decreases n - i,
        {
            keys.push(self.keys[i]);
            assert(keys@ =~= self.keys@.take(i + 1));
            i += 1;
        }
        assert(keys@ =~= self.keys@);
        Curve { keys }
    }
}

impl Curve {
    #[verifier::type_invariant]
    spec fn ordered(self) -> bool {
        strictly_ordered(self.keys@)
    }

    /// The keys are in strictly increasing order of time.
    pub open spec fn wf(&self) -> bool {
        strictly_ordered(self@)
    }

    /// A curve without keys; its value is zero everywhere.
    pub fn new() -> (r: Curve)
        ensures
            r@ == Seq::<CurveKey>::empty(),
            r.wf(),
    {
        Curve { keys: Vec::new() }
    }

    /// The number of keys.
    pub fn len(&self) -> (r: usize)
        ensures
            r == self@.len(),
            self.wf(),
    {
        proof {
            use_type_invariant(self);
        }
        self.keys.len()
    }

    /// The key at `index`, if there is one.
    pub fn key(&self, index: usize) -> (r: Option<CurveKey>)
        ensures
            r == (if index < self@.len() {
                Some(self@[index as int])
            } else {
                None
            }),
    {
        if index < self.keys.len() {
            Some(self.keys[index])
        } else {
            None
        }
    }

    /// Puts a key into the curve at the place that its time gives it. A key
    /// that the curve already has at that time is replaced.
    pub fn add_key(&mut self, key: CurveKey)
        ensures
            final(self).wf(),
            final(self)@ == spec_add_key(old(self)@, key),
    {
        proof {
            use_type_invariant(&*self);
        }
        let mut keys: Vec<CurveKey> = Vec::new();
        std::mem::swap(&mut self.keys, &mut keys);
        let n: usize = keys.len();
        let mut i: usize = 0;
        while i < n && keys[i].time < key.time
            invariant
                n == keys@.len(),
                keys@ == old(self)@,
                0 <= i <= n,
                forall|j: int| 0 <= j < i ==> keys@[j].time < key.time,
                insertion_point(old(self)@, key.time as int, 0) == insertion_point(
                    old(self)@,
                    key.time as int,
                    i as int,
                ),
            decreases n - i,
        {
            i += 1;
        }
        if i < n && keys[i].time == key.time {
            keys.set(i, key);
        } else {
            keys.insert(i, key);
        }
        std::mem::swap(&mut self.keys, &mut keys);
    }

    /// The value of the curve at time `t`.
    pub fn value_at(&self, t: i64) -> (r: i32)
        ensures
            r == value_at(self@, t as int),
            self.wf(),
    {
        proof {
            use_type_invariant(self);
        }
        let n: usize = self.keys.len();
        if n == 0 {
            return 0;
        }
        if t <= self.keys[0].time {
            return self.keys[0].value;
        }
        let mut i: usize = 0;
        while i + 1 < n && t >= self.keys[i + 1].time
            invariant
                n == self.keys@.len(),
                0 <= i < n,
                self.keys@[i as int].time <= t,
                segment_from(self@, t as int, 0) == segment_from(self@, t as int, i as int),
            decreases n - i,
        {
            i += 1;
        }
        if i + 1 >= n {
            return self.keys[i].value;
        }
        let a: CurveKey = self.keys[i];
        let b: CurveKey = self.keys[i + 1];
        proof {
            lemma_lerp_bounds(a, b, t as int);
        }
        let span: u128 = (b.time as i128 - a.time as i128) as u128;
        let run: u128 = (t as i128 - a.time as i128) as u128;
        if b.value >= a.value {
            let rise: u128 = (b.value as i64 - a.value as i64) as u128;
            proof {
                lemma_scaled_within(rise as int, run as int, span as int);
                assert(rise * span <= 0x1_0000_0000 * 0x1_0000_0000_0000_0000) by (nonlinear_arith)
                    requires
                        rise <= 0x1_0000_0000,
                        span <= 0x1_0000_0000_0000_0000,
                ;
            }
            let step: u128 = rise * run / span;
            (a.value as i64 + step as i64) as i32
        } else {
            let fall: u128 = (a.value as i64 - b.value as i64) as u128;
            proof {
                lemma_scaled_within(fall as int, run as int, span as int);
                assert(fall * span <= 0x1_0000_0000 * 0x1_0000_0000_0000_0000) by (nonlinear_arith)
                    requires
                        fall <= 0x1_0000_0000,
                        span <= 0x1_0000_0000_0000_0000,
                ;
            }
            let step: u128 = fall * run / span;
            (a.value as i64 - step as i64) as i32
        }
    }
}

} // verus!

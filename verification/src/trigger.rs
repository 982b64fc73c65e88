//! Rising/falling edge trigger with hysteresis.
//!
//! The trigger detects an "above condition" when it processes a sample that is
//! strictly above `level + hysteresis`, and a "below condition" when it
//! processes a sample that is strictly below `level - hysteresis`. A rising
//! edge is detected at the sample where a below condition crosses into an
//! above condition, and a falling edge at the opposite crossing. Since the
//! hysteresis is applied to each half-scale individually with strict
//! comparisons, the total dead band is `1 + 2 * hysteresis` LSB. The
//! thresholds are clamped to `[-127, 126]` so that, no matter what `level`
//! and `hysteresis` are set to, some sequence of samples can still fire the
//! trigger.
//!
//! Samples are processed in groups of [`GROUP_SIZE`]; a trailing partial
//! group is left unconsumed, to be presented again by the caller.

use vstd::prelude::*;

verus! {

/// Size of the sample groups in which the scanner consumes its input.
pub const GROUP_SIZE: usize = 16;

#[derive(Debug, Clone, Copy, PartialEq, Eq, Structural)]
pub enum EdgeFilter {
    Rising,
    Falling,
    Both,
}

#[derive(Debug, Clone, Copy, PartialEq, Eq, Structural)]
pub enum Edge {
    Rising,
    Falling,
}

#[derive(Debug, Clone, Copy, PartialEq, Eq, Structural)]
pub enum State {
    /// No sample has been processed yet; the first sample primes the state.
    Fresh,
    /// The last remembered excursion was below the dead band.
    Below,
    /// The last remembered excursion was above the dead band.
    Above,
}

/// The mathematical content of a [`Trigger`].
#[derive(Debug, Clone, Copy, PartialEq, Eq, Structural)]
pub struct TriggerView {
    pub state: State,
    pub level: i8,
    pub below: i8,
    pub above: i8,
}

#[derive(Debug, Clone, Copy)]
pub struct Trigger {
    state: State,
    level: i8,
    below: i8,
    above: i8,
}

impl View for Trigger {
    type V = TriggerView;

    closed spec fn view(&self) -> TriggerView {
        TriggerView { state: self.state, level: self.level, below: self.below, above: self.above }
    }
}

/// Lower threshold: `level - hysteresis`, saturated and clamped to `-127`.
pub open spec fn below_of(level: i8, hysteresis: u8) -> i8 {
    if level - hysteresis < -127 {
        -127i8
    } else {
        (level - hysteresis) as i8
    }
}

/// Upper threshold: `level + hysteresis`, saturated and clamped to `126`.
pub open spec fn above_of(level: i8, hysteresis: u8) -> i8 {
    if level + hysteresis > 126 {
        126i8
    } else {
        (level + hysteresis) as i8
    }
}

/// Whether `sample` crosses the threshold that the current state watches.
pub open spec fn crosses(state: State, below: i8, above: i8, sample: i8) -> bool {
    match state {
        State::Fresh => false,
        State::Below => sample > above,
        State::Above => sample < below,
    }
}

pub open spec fn flip(state: State) -> State {
    match state {
        State::Fresh => State::Fresh,
        State::Below => State::Above,
        State::Above => State::Below,
    }
}

/// The edge reported upon arriving at `state`.
pub open spec fn edge_toward(state: State) -> Edge {
    match state {
        State::Above => Edge::Rising,
        _ => Edge::Falling,
    }
}

pub open spec fn admits(filter: EdgeFilter, edge: Edge) -> bool {
    match (filter, edge) {
        (EdgeFilter::Both, _) => true,
        (EdgeFilter::Rising, Edge::Rising) => true,
        (EdgeFilter::Falling, Edge::Falling) => true,
        _ => false,
    }
}

/// The largest multiple of the group size that fits in `n` samples; scanning
/// consumes at most this many samples when no edge is found.
pub open spec fn group_limit(n: nat) -> nat {
    (n - (n % (GROUP_SIZE as nat))) as nat
}

/// Index of the first sample that crosses the watched threshold, or `s.len()`
/// if none does.
pub open spec fn first_cross(state: State, below: i8, above: i8, s: Seq<i8>) -> nat
    decreases s.len(),
{
    if s.len() == 0 {
        0
    } else if crosses(state, below, above, s[0]) {
        0
    } else {
        1 + first_cross(state, below, above, s.skip(1))
    }
}

pub proof fn lemma_first_cross(state: State, below: i8, above: i8, s: Seq<i8>)
    ensures
        first_cross(state, below, above, s) <= s.len(),
        forall|k: int|
            0 <= k < first_cross(state, below, above, s) ==> !crosses(state, below, above, s[k]),
        first_cross(state, below, above, s) < s.len() ==> crosses(
            state,
            below,
            above,
            s[first_cross(state, below, above, s) as int],
        ),
    decreases s.len(),
{
    if s.len() == 0 {
    } else if crosses(state, below, above, s[0]) {
    } else {
        lemma_first_cross(state, below, above, s.skip(1));
        assert forall|k: int|
            0 <= k < first_cross(state, below, above, s) implies !crosses(
            state,
            below,
            above,
            s[k],
        ) by {
            if k > 0 {
                assert(s.skip(1)[k - 1] == s[k]);
                assert(!crosses(state, below, above, s.skip(1)[k - 1]));
            }
        }
    }
}

/// Whether the thresholds can come from `Trigger::new`: a sample never
/// crosses both thresholds at once.
pub open spec fn thresholds_wf(below: i8, above: i8) -> bool {
    below <= above + 1
}

/// Result of scanning `s` from a primed (non-fresh) state: the number of
/// consumed samples, the reported edge if any, and the new state. On an edge,
/// the consumed count stops at the crossing sample itself, so the remainder of
/// the input starts with the sample that caused the edge. The state always
/// transitions at a crossing; scanning merely continues when the filter does
/// not admit the edge's direction.
pub open spec fn scan_primed(
    state: State,
    below: i8,
    above: i8,
    s: Seq<i8>,
    filter: EdgeFilter,
) -> (nat, Option<Edge>, State)
    decreases
            s.len(),
            (if s.len() > 0 && crosses(state, below, above, s[0]) {
                1int
            } else {
                0int
            }),
    via scan_primed_dec
{
    if !thresholds_wf(below, above) {
        // thresholds from `Trigger::new` always satisfy `thresholds_wf`
        (0, None::<Edge>, state)
    } else {
        let limit = group_limit(s.len());
        let j = first_cross(state, below, above, s);
        if j >= limit {
            (limit, None::<Edge>, state)
        } else {
            let state2 = flip(state);
            let e = edge_toward(state2);
            if admits(filter, e) {
                (j, Some(e), state2)
            } else {
                let rest = scan_primed(state2, below, above, s.skip(j as int), filter);
                (j + rest.0, rest.1, rest.2)
            }
        }
    }
}

#[via_fn]
proof fn scan_primed_dec(state: State, below: i8, above: i8, s: Seq<i8>, filter: EdgeFilter) {
    if thresholds_wf(below, above) {
        let limit = group_limit(s.len());
        let j = first_cross(state, below, above, s);
        if j < limit {
            lemma_first_cross(state, below, above, s);
            assert(crosses(state, below, above, s[j as int]));
            assert(s.skip(j as int).len() == s.len() - j);
            if j == 0 {
                assert(s.skip(0) =~= s);
                assert(!crosses(flip(state), below, above, s[0]));
            }
        }
    }
}

/// For any trigger level in `[-127, 126]`, the thresholds bracket the level
/// and stay within `[-127, 126]`, whatever the hysteresis. At level `-128`
/// the lower clamp lifts `below` above the level itself, and at `127` the
/// upper clamp drops `above` below it, so those two levels are left out.
pub proof fn lemma_threshold_bounds(level: i8, hysteresis: u8)
    requires
        -127 <= level <= 126,
    ensures
        below_of(level, hysteresis) <= level,
        level <= above_of(level, hysteresis),
        -127 <= below_of(level, hysteresis),
        above_of(level, hysteresis) <= 126,
{
}

proof fn lemma_first_cross_none(state: State, below: i8, above: i8, s: Seq<i8>)
    requires
        forall|k: int| 0 <= k < s.len() ==> !crosses(state, below, above, #[trigger] s[k]),
    ensures
        first_cross(state, below, above, s) == s.len(),
    decreases s.len(),
{
    if s.len() > 0 {
        assert(forall|k: int| 0 <= k < s.skip(1).len() ==> s.skip(1)[k] == s[k + 1]);
        lemma_first_cross_none(state, below, above, s.skip(1));
    }
}

/// Scanning an all-equal primed input whose value does not leave the dead
/// band reports no edge, leaves the state unchanged, and consumes exactly the
/// group-aligned prefix of the input.
pub proof fn lemma_dead_zone(
    state: State,
    below: i8,
    above: i8,
    s: Seq<i8>,
    filter: EdgeFilter,
    v: i8,
)
    requires
        thresholds_wf(below, above),
        forall|k: int| 0 <= k < s.len() ==> s[k] == v,
        below <= v <= above,
    ensures
        scan_primed(state, below, above, s, filter) == (
            group_limit(s.len()),
            None::<Edge>,
            state,
        ),
{
    assert(forall|k: int| 0 <= k < s.len() ==> !crosses(state, below, above, #[trigger] s[k]));
    lemma_first_cross_none(state, below, above, s);
}

/// Reported edges alternate strictly: a reported rising edge leaves the
/// trigger `Above` and a falling edge leaves it `Below`, whatever the filter;
/// and with the unfiltered scan, a trigger that is `Above` can only report a
/// falling edge next, and one that is `Below` only a rising edge.
pub proof fn lemma_edges_alternate(
    state: State,
    below: i8,
    above: i8,
    s: Seq<i8>,
    filter: EdgeFilter,
)
    ensures
        scan_primed(state, below, above, s, filter).1 == Some(Edge::Rising) ==> scan_primed(
            state,
            below,
            above,
            s,
            filter,
        ).2 == State::Above,
        scan_primed(state, below, above, s, filter).1 == Some(Edge::Falling) ==> scan_primed(
            state,
            below,
            above,
            s,
            filter,
        ).2 == State::Below,
        state == State::Above ==> scan_primed(state, below, above, s, EdgeFilter::Both).1
            != Some(Edge::Rising),
        state == State::Below ==> scan_primed(state, below, above, s, EdgeFilter::Both).1
            != Some(Edge::Falling),
    decreases
            s.len(),
            (if s.len() > 0 && crosses(state, below, above, s[0]) {
                1int
            } else {
                0int
            }),
{
    if state == State::Fresh {
        // a fresh state watches no threshold, so nothing ever crosses
        assert(forall|k: int|
            0 <= k < s.len() ==> !crosses(State::Fresh, below, above, #[trigger] s[k]));
        lemma_first_cross_none(State::Fresh, below, above, s);
    }
    if thresholds_wf(below, above) {
        let limit = group_limit(s.len());
        let j = first_cross(state, below, above, s);
        if j < limit {
            let state2 = flip(state);
            let e = edge_toward(state2);
            if !admits(filter, e) {
                lemma_first_cross(state, below, above, s);
                assert(crosses(state, below, above, s[j as int]));
                if j == 0 {
                    assert(s.skip(0) =~= s);
                    assert(!crosses(state2, below, above, s[0]));
                }
                lemma_edges_alternate(state2, below, above, s.skip(j as int), filter);
            }
        }
    }
}

/// Result of scanning `s` with trigger `v`: consumed count, reported edge,
/// new state. From `Fresh`, the first sample only primes the state and never
/// reports an edge.
pub open spec fn scan_view(v: TriggerView, s: Seq<i8>, filter: EdgeFilter) -> (
    nat,
    Option<Edge>,
    State,
) {
    match v.state {
        State::Fresh => {
            if s.len() == 0 {
                (0, None::<Edge>, State::Fresh)
            } else {
                let primed = if s[0] < v.level {
                    State::Below
                } else {
                    State::Above
                };
                let rest = scan_primed(primed, v.below, v.above, s.skip(1), filter);
                (1 + rest.0, rest.1, rest.2)
            }
        },
        _ => scan_primed(v.state, v.below, v.above, s, filter),
    }
}

impl Trigger {
    pub open spec fn wf(self) -> bool {
        thresholds_wf(self@.below, self@.above)
    }

    /// Create a new trigger at `level` with the given hysteresis, in the
    /// `Fresh` state.
    pub fn new(level: i8, hysteresis: u8) -> (r: Trigger)
        ensures
            r@.state == State::Fresh,
            r@.level == level,
            r@.below == below_of(level, hysteresis),
            r@.above == above_of(level, hysteresis),
            r.wf(),
    {
        let l = level as i16;
        let h = hysteresis as i16;
        let b = l - h;
        let below: i8 = if b < -127 {
            -127
        } else {
            b as i8
        };
        let a = l + h;
        let above: i8 = if a > 126 {
            126
        } else {
            a as i8
        };
        Trigger { state: State::Fresh, level, below, above }
    }

    /// Forget the remembered excursion and return to the `Fresh` state.
    pub fn reset(&mut self)
        ensures
            final(self)@.state == State::Fresh,
            final(self)@.level == old(self)@.level,
            final(self)@.below == old(self)@.below,
            final(self)@.above == old(self)@.above,
    {
        self.state = State::Fresh;
    }

    pub fn state(&self) -> (r: State)
        ensures
            r == self@.state,
    {
        self.state
    }

    pub fn level(&self) -> (r: i8)
        ensures
            r == self@.level,
    {
        self.level
    }

    pub fn below(&self) -> (r: i8)
        ensures
            r == self@.below,
    {
        self.below
    }

    pub fn above(&self) -> (r: i8)
        ensures
            r == self@.above,
    {
        self.above
    }

    /// Scan `samples` for an edge admitted by `filter`, returning the number
    /// of consumed samples and the edge, if one was found. On an edge, the
    /// consumed count stops at the crossing sample, so `samples[r.0]` is the
    /// sample that fired the trigger. With no edge, whole groups of
    /// [`GROUP_SIZE`] samples are consumed and up to `GROUP_SIZE - 1`
    /// trailing samples are left for the next call.
    #[verifier::loop_isolation(false)]
    #[verifier::rlimit(60)]
    pub fn find(&mut self, samples: &[i8], filter: EdgeFilter) -> (r: (usize, Option<Edge>))
        requires
            old(self).wf(),
        ensures
            ({
                let (consumed, edge, state) = scan_view(old(self)@, samples@, filter);
                r.0 == consumed && r.1 == edge && final(self)@.state == state
            }),
            final(self)@.level == old(self)@.level,
            final(self)@.below == old(self)@.below,
            final(self)@.above == old(self)@.above,
            final(self).wf(),
            r.0 <= samples@.len(),
    {
        let ghost v0 = self@;
        let ghost s = samples@;
        let ghost goal = scan_view(v0, s, filter);
        let mut i: usize = 0;
        match self.state {
            State::Fresh => {
                if samples.len() == 0 {
                    return (0, None);
                }
                self.state = if samples[0] < self.level {
                    State::Below
                } else {
                    State::Above
                };
                i = 1;
            },
            _ => {},
        }
        proof {
            assert(s.skip(0) =~= s);
            assert(goal == ({
                let rest = scan_primed(self@.state, v0.below, v0.above, s.skip(i as int), filter);
                ((i + rest.0) as nat, rest.1, rest.2)
            }));
        }
        loop
            invariant
                i <= samples@.len(),
                samples@ == s,
                self@.level == v0.level,
                self@.below == v0.below,
                self@.above == v0.above,
                self@.state != State::Fresh,
                self.wf(),
                goal == ({
                    let rest = scan_primed(
                        self@.state,
                        v0.below,
                        v0.above,
                        s.skip(i as int),
                        filter,
                    );
                    ((i + rest.0) as nat, rest.1, rest.2)
                }),
                goal == scan_view(v0, s, filter),
            decreases
                    2 * (s.len() - i) + (if i < s.len() && crosses(
                        self@.state,
                        v0.below,
                        v0.above,
                        s[i as int],
                    ) {
                        1int
                    } else {
                        0int
                    }),
        {
            let ghost tail = s.skip(i as int);
            let rem = samples.len() - i;
            let limit = rem - rem % GROUP_SIZE;
            proof {
                assert(tail.len() == rem);
                assert(limit == group_limit(tail.len() as nat));
                lemma_first_cross(self@.state, v0.below, v0.above, tail);
                assert(forall|k: int| 0 <= k < tail.len() ==> tail[k] == s[i + k]);
            }
            let mut j: usize = 0;
            let mut found = false;
            let ghost state_in = self@.state;
            while j < limit && !found
                invariant
                    j <= limit,
                    self@.state == state_in,
                    forall|k: int|
                        0 <= k < j ==> !crosses(state_in, v0.below, v0.above, #[trigger] s[i + k]),
                    found ==> j < limit && crosses(state_in, v0.below, v0.above, s[i + j]),
                decreases limit - j + (if found {
                    0int
                } else {
                    1int
                }),
            {
                let sample = samples[i + j];
                let hit = match self.state {
                    State::Fresh => false,
                    State::Below => sample > self.above,
                    State::Above => sample < self.below,
                };
                if hit {
                    found = true;
                } else {
                    j += 1;
                }
            }
            let ghost fc = first_cross(self@.state, v0.below, v0.above, tail);
            proof {
                if found {
                    // j is the first crossing within the group-aligned region
                    assert(crosses(self@.state, v0.below, v0.above, tail[j as int]));
                    assert(forall|k: int|
                        0 <= k < j ==> !crosses(self@.state, v0.below, v0.above, tail[k]));
                    if fc < j {
                        assert(crosses(self@.state, v0.below, v0.above, tail[fc as int]));
                        assert(false);
                    }
                    if fc > j {
                        assert(!crosses(self@.state, v0.below, v0.above, tail[j as int]));
                        assert(false);
                    }
                    assert(fc == j);
                } else {
                    assert(forall|k: int|
                        0 <= k < limit ==> !crosses(self@.state, v0.below, v0.above, tail[k]));
                    if fc < limit {
                        assert(crosses(self@.state, v0.below, v0.above, tail[fc as int]));
                        assert(false);
                    }
                    assert(fc >= limit);
                }
            }
            if !found {
                // no crossing in the processed region: consume whole groups
                proof {
                    assert(scan_primed(self@.state, v0.below, v0.above, tail, filter) == (
                        group_limit(tail.len() as nat),
                        None::<Edge>,
                        self@.state,
                    ));
                }
                return (i + limit, None);
            }
            // a crossing: the state transitions even when the edge is filtered out
            let state2 = match self.state {
                State::Fresh => State::Fresh,
                State::Below => State::Above,
                State::Above => State::Below,
            };
            proof {
                assert(state2 == flip(self@.state));
            }
            let edge = match state2 {
                State::Above => Edge::Rising,
                _ => Edge::Falling,
            };
            let admitted = match (filter, edge) {
                (EdgeFilter::Both, _) => true,
                (EdgeFilter::Rising, Edge::Rising) => true,
                (EdgeFilter::Falling, Edge::Falling) => true,
                _ => false,
            };
            let ghost old_state = self@.state;
            self.state = state2;
            if admitted {
                proof {
                    assert(scan_primed(old_state, v0.below, v0.above, tail, filter) == (
                        j as nat,
                        Some(edge),
                        state2,
                    ));
                }
                return (i + j, Some(edge));
            }
            proof {
                let rest = scan_primed(state2, v0.below, v0.above, tail.skip(j as int), filter);
                assert(scan_primed(old_state, v0.below, v0.above, tail, filter) == (
                    (j + rest.0) as nat,
                    rest.1,
                    rest.2,
                ));
                assert(tail.skip(j as int) =~= s.skip((i + j) as int));
                if j == 0 {
                    assert(crosses(old_state, v0.below, v0.above, s[i as int]));
                    assert(!crosses(state2, v0.below, v0.above, s[i as int]));
                }
            }
            i = i + j;
        }
    }

    /// Like `find`, but advances `samples` past the consumed bytes: on an
    /// edge, the slice is left pointing at the sample that fired the
    /// trigger. Scanning the same input with `find` yields exactly the
    /// advance and the edge of this function.
    pub fn scan(&mut self, samples: &mut &[i8], filter: EdgeFilter) -> (r: Option<Edge>)
        requires
            old(self).wf(),
        ensures
            ({
                let (consumed, edge, state) = scan_view(old(self)@, old(samples)@, filter);
                r == edge && final(samples)@ == old(samples)@.skip(consumed as int) && final(self)@.state == state
            }),
            final(self)@.level == old(self)@.level,
            final(self)@.below == old(self)@.below,
            final(self)@.above == old(self)@.above,
            final(self).wf(),
    {
        let (consumed, edge) = self.find(*samples, filter);
        let rest = vstd::slice::slice_subrange(*samples, consumed, samples.len());
        proof {
            assert(old(samples)@.subrange(consumed as int, old(samples)@.len() as int) =~= old(samples)@.skip(consumed as int));
        }
        *samples = rest;
        edge
    }
}

} // verus!

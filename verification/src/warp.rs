//! Eased camera transitions between the viewpoints of the scene.
//!
//! The progress of a transition is counted in units of which `WARP_FULL` make
//! a whole transition; one nanosecond of simulation adds `WARP_RATE` units,
//! which is one and a half transitions per second.

use vstd::prelude::*;
use crate::planets::WarpPoint;

verus! {

/// The progress of a completed transition.
pub const WARP_FULL: u32 = 2_000_000_000;

/// Progress gained per nanosecond.
pub const WARP_RATE: u64 = 3;

/// The eased value of a completed transition: the cube of `WARP_FULL`.
pub const EASE_FULL: u128 = 8_000_000_000_000_000_000_000_000_000;

/// The cube of a number.
pub open spec fn cube(x: int) -> int {
    x * x * x
}

/// The cubic ease-in-out curve in units of `1 / EASE_FULL`, at `progress`
/// units of `1 / WARP_FULL`. With `t = progress / WARP_FULL` the curve is
/// `4 t^3` below one half and `1 - (2 - 2 t)^3 / 2` from there on.
pub open spec fn ease(progress: int) -> int {
    if 2 * progress < WARP_FULL {
        4 * cube(progress)
    } else {
        EASE_FULL - 4 * cube(WARP_FULL - progress)
    }
}

proof fn lemma_cube_bounds(a: int, b: int)
    requires
        0 <= a <= b,
    ensures
        0 <= a * a <= b * b,
        0 <= cube(a) <= cube(b),
{
    assert(0 <= a * a <= b * b) by (nonlinear_arith)
        requires
            0 <= a <= b,
    ;
    assert(0 <= (a * a) * a <= (b * b) * b) by (nonlinear_arith)
        requires
            0 <= a <= b,
            0 <= a * a <= b * b,
    ;
}

proof fn lemma_cube_constants()
    ensures
        cube(1_000_000_000) == 1_000_000_000_000_000_000_000_000_000int,
        cube(0x1_0000_0000) == 0x1_0000_0000_0000_0000_0000_0000int,
{
    assert(1_000_000_000int * 1_000_000_000int == 1_000_000_000_000_000_000int);
    assert(0x1_0000_0000int * 0x1_0000_0000int == 0x1_0000_0000_0000_0000int);
}

proof fn lemma_cube_of_negative(a: int)
    ensures
        cube(-a) == -cube(a),
{
    assert((-a) * (-a) * (-a) == -(a * a * a)) by (nonlinear_arith);
}

/// Remaps the progress of a transition so that it starts and ends gently.
/// The result is in units of `1 / EASE_FULL`.
pub fn ease_in_out_cubic(progress: u32) -> (eased: u128)
    ensures
        eased == ease(progress as int),
{
    let p: u128 = progress as u128;
    let full: u128 = WARP_FULL as u128;
    if 2 * p < full {
        proof {
            lemma_cube_bounds(p as int, 1_000_000_000);
            lemma_cube_constants();
        }
        let square: u128 = p * p;
        4 * (square * p)
    } else if p <= full {
        let rest: u128 = full - p;
        proof {
            lemma_cube_bounds(rest as int, 1_000_000_000);
            lemma_cube_constants();
        }
        let square: u128 = rest * rest;
        EASE_FULL - 4 * (square * rest)
    } else {
        let over: u128 = p - full;
        proof {
            lemma_cube_bounds(over as int, 0x1_0000_0000);
            lemma_cube_constants();
            lemma_cube_of_negative(over as int);
        }
        let square: u128 = over * over;
        EASE_FULL + 4 * (square * over)
    }
}

/// The eased value never decreases as a transition progresses.
pub proof fn lemma_ease_is_monotonic(p: int, q: int)
    requires
        0 <= p <= q <= WARP_FULL,
    ensures
        ease(p) <= ease(q),
{
    let f = WARP_FULL as int;
    if 2 * q < f {
        lemma_cube_bounds(p, q);
    } else if 2 * p < f {
        lemma_cube_bounds(p, 1_000_000_000);
        lemma_cube_bounds(f - q, 1_000_000_000);
    } else {
        lemma_cube_bounds(f - q, f - p);
    }
}

/// The curve starts at nought and ends at one, stays between the two, and
/// passes through one half at the middle of the transition.
pub proof fn lemma_ease_range(p: int)
    requires
        0 <= p <= WARP_FULL,
    ensures
        ease(0) == 0,
        ease(WARP_FULL as int) == EASE_FULL,
        2 * ease(WARP_FULL as int / 2) == EASE_FULL,
        0 <= ease(p) <= EASE_FULL,
{
    lemma_ease_is_monotonic(0, p);
    lemma_ease_is_monotonic(p, WARP_FULL as int);
    lemma_cube_constants();
}

/// The second half of the curve mirrors the first: what is still to be
/// gained at `p` is what has been gained at the same distance from the end.
pub proof fn lemma_ease_is_symmetric(p: int)
    requires
        0 <= p <= WARP_FULL,
    ensures
        ease(p) + ease(WARP_FULL - p) == EASE_FULL,
{
    let f = WARP_FULL as int;
    if 2 * p == f {
        lemma_cube_constants();
    }
}

/// What a navigator holds, as plain values: the viewpoints, the viewpoint
/// last asked for, the progress towards it, whether a transition is under
/// way, and the camera pose that was captured when that transition began.
pub struct WarpState<S> {
    pub points: Seq<WarpPoint>,
    pub target: nat,
    pub progress: nat,
    pub warping: bool,
    pub start: Option<S>,
}

impl<S> WarpState<S> {
    /// While a transition is under way it has a viewpoint to go to, a pose
    /// to come from, and is not yet complete. At rest the progress is that
    /// of a navigator never used or that of a completed transition.
    pub open spec fn wf(self) -> bool {
        &&& self.progress <= WARP_FULL
        &&& self.warping ==> self.target < self.points.len() && self.progress < WARP_FULL
            && self.start is Some
        &&& !self.warping ==> self.progress == 0 || self.progress == WARP_FULL
    }

    /// Whether a request for viewpoint `index` starts a transition: only at
    /// rest, and only for a viewpoint that exists.
    pub open spec fn accepts(self, index: nat) -> bool {
        !self.warping && index < self.points.len()
    }

    /// The state after a request for viewpoint `index` made while the camera
    /// is at `pose`. A request that is not accepted changes nothing.
    pub open spec fn requested(self, index: nat, pose: S) -> WarpState<S> {
        if self.accepts(index) {
            WarpState { target: index, progress: 0, warping: true, start: Some(pose), ..self }
        } else {
            self
        }
    }

    /// Whether `dt` more nanoseconds complete the transition under way.
    pub open spec fn arrives(self, dt: nat) -> bool {
        self.warping && self.progress + WARP_RATE * dt >= WARP_FULL
    }

    /// The state after `dt` more nanoseconds.
    pub open spec fn ticked(self, dt: nat) -> WarpState<S> {
        if !self.warping {
            self
        } else if self.arrives(dt) {
            WarpState { progress: WARP_FULL as nat, warping: false, ..self }
        } else {
            WarpState { progress: (self.progress + WARP_RATE * dt) as nat, ..self }
        }
    }

    /// The state after a run of ticks, of `dts[0]` nanoseconds first.
    pub open spec fn ticked_all(self, dts: Seq<nat>) -> WarpState<S>
        decreases dts.len(),
    {
        if dts.len() == 0 {
            self
        } else {
            self.ticked(dts[0]).ticked_all(dts.drop_first())
        }
    }
}

/// The sum of a run of tick lengths.
pub open spec fn total(dts: Seq<nat>) -> nat
    decreases dts.len(),
{
    if dts.len() == 0 {
        0
    } else {
        dts[0] + total(dts.drop_first())
    }
}

/// What the camera is to do on one tick of a transition.
#[derive(Debug, PartialEq)]
pub enum WarpStep<S> {
    /// Stand between `start` and the viewpoint `point`, at the fraction
    /// `eased / EASE_FULL` of the way.
    Blend { start: S, point: WarpPoint, eased: u128 },
    /// Stand at the viewpoint `point` itself and look at its target.
    Arrive { point: WarpPoint },
}

/// Drives the camera from where it stands to one of the viewpoints of the
/// scene. Only one transition is under way at a time, and it cannot be
/// interrupted.
pub struct WarpNavigator<S> {
    warp_points: Vec<WarpPoint>,
    current_warp: usize,
    warp_progress: u32,
    is_warping: bool,
    warp_start: Option<S>,
}

impl<S> View for WarpNavigator<S> {
    type V = WarpState<S>;

    closed spec fn view(&self) -> WarpState<S> {
        WarpState {
            points: self.warp_points@,
            target: self.current_warp as nat,
            progress: self.warp_progress as nat,
            warping: self.is_warping,
            start: self.warp_start,
        }
    }
}

impl<S: Copy> WarpNavigator<S> {
    /// A navigator at rest over the given viewpoints.
    pub fn new(warp_points: Vec<WarpPoint>) -> (navigator: Self)
        ensures
            navigator@.wf(),
            navigator@ == (WarpState::<S> {
                points: warp_points@,
                target: 0,
                progress: 0,
                warping: false,
                start: None,
            }),
    {
        WarpNavigator {
            warp_points,
            current_warp: 0,
            warp_progress: 0,
            is_warping: false,
            warp_start: None,
        }
    }

    /// Whether a transition is under way.
    pub fn is_warping(&self) -> (warping: bool)
        ensures
            warping == self@.warping,
    {
        self.is_warping
    }

    /// The viewpoint last asked for.
    pub fn current_warp(&self) -> (target: usize)
        ensures
            target == self@.target,
    {
        self.current_warp
    }

    /// The progress of the transition last started, in units of
    /// `1 / WARP_FULL`.
    pub fn warp_progress(&self) -> (progress: u32)
        ensures
            progress == self@.progress,
    {
        self.warp_progress
    }

    /// The camera pose captured when the transition last started began.
    pub fn warp_start(&self) -> (start: Option<S>)
        ensures
            start == self@.start,
    {
        self.warp_start
    }

    /// The viewpoints, in the order of their numbers.
    pub fn warp_points(&self) -> (points: &Vec<WarpPoint>)
        ensures
            points@ == self@.points,
    {
        &self.warp_points
    }

    /// Asks for a transition to viewpoint `warp_index` from the camera pose
    /// `pose`. The request is dropped while a transition is under way and
    /// when there is no such viewpoint. Returns whether a transition began.
    pub fn initiate_warp(&mut self, warp_index: usize, pose: S) -> (began: bool)
        requires
            old(self)@.wf(),
        ensures
            final(self)@.wf(),
            began == old(self)@.accepts(warp_index as nat),
            final(self)@ == old(self)@.requested(warp_index as nat, pose),
    {
        if warp_index < self.warp_points.len() && !self.is_warping {
            self.current_warp = warp_index;
            self.is_warping = true;
            self.warp_progress = 0;
            self.warp_start = Some(pose);
            true
        } else {
            false
        }
    }

    /// Advances the transition under way by `dt` nanoseconds and says where
    /// the camera is to stand. At rest nothing changes and nothing is said.
    pub fn update_warp(&mut self, dt: u64) -> (step: Option<WarpStep<S>>)
        requires
            old(self)@.wf(),
        ensures
            final(self)@.wf(),
            final(self)@ == old(self)@.ticked(dt as nat),
            step == warp_step(old(self)@, dt as nat),
    {
        if !self.is_warping {
            return None;
        }
        let point = self.warp_points[self.current_warp];
        let rate: u128 = WARP_RATE as u128;
        let gained: u128 = rate * (dt as u128);
        if self.warp_progress as u128 + gained >= WARP_FULL as u128 {
            self.warp_progress = WARP_FULL;
            self.is_warping = false;
            Some(WarpStep::Arrive { point })
        } else {
            self.warp_progress = self.warp_progress + gained as u32;
            let start = self.warp_start.unwrap();
            Some(WarpStep::Blend { start, point, eased: ease_in_out_cubic(self.warp_progress) })
        }
    }
}

/// Where the camera is to stand once a navigator in the given state has
/// ticked by `dt` nanoseconds: nowhere in particular at rest; at the
/// viewpoint itself once the transition completes; before that, at the eased
/// progress on the way from the captured pose to the viewpoint.
pub open spec fn warp_step<S>(state: WarpState<S>, dt: nat) -> Option<WarpStep<S>> {
    if !state.warping {
        None
    } else if state.arrives(dt) {
        Some(WarpStep::Arrive { point: state.points[state.target as int] })
    } else {
        Some(
            WarpStep::Blend {
                start: state.start->0,
                point: state.points[state.target as int],
                eased: ease(state.progress + WARP_RATE * dt) as u128,
            },
        )
    }
}

/// One tick never takes progress back, and the tick that completes a
/// transition leaves the progress at exactly `WARP_FULL` and the navigator at
/// rest, with the viewpoint and the captured pose as they were.
pub proof fn lemma_progress_never_decreases<S>(state: WarpState<S>, dt: nat)
    requires
        state.wf(),
    ensures
        state.ticked(dt).wf(),
        state.ticked(dt).progress >= state.progress,
        state.ticked(dt).target == state.target,
        state.ticked(dt).start == state.start,
        state.arrives(dt) ==> state.ticked(dt).progress == WARP_FULL && !state.ticked(dt).warping,
        state.arrives(dt) ==> warp_step(state, dt) == Some(
            WarpStep::<S>::Arrive { point: state.points[state.target as int] },
        ),
        state.warping && !state.arrives(dt) ==> state.ticked(dt).warping,
{
}

/// However a stretch of time is cut into ticks, a transition under way ends
/// up where one tick of the whole stretch would have taken it: the progress
/// is `WARP_RATE` times the nanoseconds elapsed, capped at `WARP_FULL`, and
/// the navigator is at rest as soon as the cap is reached. At rest, ticks
/// change nothing, so the progress of a completed transition stays at
/// exactly `WARP_FULL`.
pub proof fn lemma_ticks_add_up<S>(state: WarpState<S>, dts: Seq<nat>)
    requires
        state.wf(),
    ensures
        state.ticked_all(dts).wf(),
        !state.warping ==> state.ticked_all(dts) == state,
        state.warping ==> state.ticked_all(dts) == state.ticked(total(dts)),
        state.ticked_all(dts).progress >= state.progress,
    decreases dts.len(),
{
    if dts.len() > 0 {
        let next = state.ticked(dts[0]);
        lemma_progress_never_decreases(state, dts[0]);
        lemma_ticks_add_up(next, dts.drop_first());
        if state.warping && next.warping {
            let rest = total(dts.drop_first());
            assert(WARP_RATE * (dts[0] + rest) == WARP_RATE * dts[0] + WARP_RATE * rest)
                by (nonlinear_arith);
        }
    }
}

/// A request made while a transition is under way changes nothing: neither
/// the viewpoint being approached, nor the progress, nor the captured pose.
/// A request for a viewpoint that does not exist changes nothing either.
pub proof fn lemma_request_in_flight_is_dropped<S>(state: WarpState<S>, index: nat, pose: S)
    requires
        state.wf(),
    ensures
        state.requested(index, pose).wf(),
        state.warping || index >= state.points.len() ==> state.requested(index, pose) == state,
{
}

/// A transition started afresh is complete after two thirds of a second and
/// no sooner: on the nanosecond that brings the time since its start to
/// 666 666 667.
pub proof fn lemma_transition_takes_two_thirds_of_a_second<S>(
    state: WarpState<S>,
    index: nat,
    pose: S,
    dt: nat,
)
    requires
        state.wf(),
        state.accepts(index),
    ensures
        state.requested(index, pose).arrives(dt) <==> dt >= 666_666_667,
{
}

} // verus!

//! The waypoint queue of one body and the navigation state machine around it.
//!
//! A route comes from the navmesh planner and is consumed from the front. The
//! state is `Following` exactly while waypoints remain; draining the queue,
//! cancelling, or failing to plan all leave the body `Idle`.

use vstd::prelude::*;
use navmesh::{NavMesh, NavPathMode, NavQuery, NavVec3};

verus! {

#[verifier::external_type_specification]
#[verifier::external_body]
pub struct ExNavVec3(NavVec3);

#[verifier::external_type_specification]
#[verifier::external_body]
pub struct ExNavMesh(NavMesh);

/// Relies on `navmesh::NavMesh::find_path` (accurate point query, route through
/// triangle midpoints): `None` when the planner finds no route, otherwise the
/// route's points, which always hold at least the projected start.
#[verifier::external_body]
fn find_path(mesh: &NavMesh, from: NavVec3, to: NavVec3) -> (r: Option<Vec<NavVec3>>)
    ensures
        match r {
            Some(points) => points@.len() > 0,
            None => true,
        },
{
    mesh.find_path(from, to, NavQuery::Accuracy, NavPathMode::MidPoints)
}

/// Where a body stands in its navigation.
#[derive(Clone, Copy, Debug, PartialEq, Eq, Structural)]
pub enum NavigationState {
    /// No route and no motion target: the body brakes to rest.
    Idle,
    /// A route was requested and has not been answered yet.
    Planning,
    /// Waypoints remain and steering is active.
    Following,
}

/// Why a route could not be set.
#[derive(Clone, Copy, Debug, PartialEq, Eq, Structural)]
pub enum NavError {
    /// The planner found no route to the goal.
    PathUnavailable,
}

/// What the steering controller is to do on this tick.
#[derive(Clone, Copy, Debug)]
pub enum Steering {
    /// No target: bleed off the current velocity.
    Brake,
    /// Head for this waypoint.
    Seek(NavVec3),
}

/// What one tick did to the route.
#[derive(Clone, Copy, Debug, PartialEq, Eq, Structural)]
pub enum Progress {
    /// The body was idle and stays idle.
    Stopped,
    /// The head waypoint was not reached; the route is unchanged.
    EnRoute,
    /// The head waypoint was reached and others remain.
    Advanced,
    /// The last waypoint was reached: the body is now idle.
    Arrived,
}

/// The abstract state of a [`Navigator`]: its remaining route and its state.
pub struct NavigatorView {
    pub waypoints: Seq<NavVec3>,
    pub state: NavigationState,
}

/// One thing that can happen to a navigator from outside.
pub enum NavEvent {
    /// A simulation tick, with whether the head waypoint was reached on it.
    Tick(bool),
    /// The route is cancelled.
    Clear,
    /// The planner answered: a route, or none.
    Plan(Option<Seq<NavVec3>>),
}

/// A fresh navigator: no route, idle.
pub open spec fn idle_view() -> NavigatorView {
    NavigatorView { waypoints: Seq::empty(), state: NavigationState::Idle }
}

/// The navigator after the planner answered with `plan`: the old route is
/// discarded in any case; a non-empty route is followed.
pub open spec fn planned(plan: Option<Seq<NavVec3>>) -> NavigatorView {
    match plan {
        Some(points) => NavigatorView {
            waypoints: points,
            state: if points.len() > 0 {
                NavigationState::Following
            } else {
                NavigationState::Idle
            },
        },
        None => idle_view(),
    }
}

/// The navigator after one tick on which the head waypoint was `reached` or not.
pub open spec fn ticked(v: NavigatorView, reached: bool) -> NavigatorView {
    if v.state == NavigationState::Following && reached {
        let rest = v.waypoints.drop_first();
        NavigatorView {
            waypoints: rest,
            state: if rest.len() > 0 {
                NavigationState::Following
            } else {
                NavigationState::Idle
            },
        }
    } else {
        v
    }
}

/// What one tick reports.
pub open spec fn tick_progress(v: NavigatorView, reached: bool) -> Progress {
    if v.state != NavigationState::Following {
        Progress::Stopped
    } else if !reached {
        Progress::EnRoute
    } else if v.waypoints.len() > 1 {
        Progress::Advanced
    } else {
        Progress::Arrived
    }
}

/// What the steering controller is told to do.
pub open spec fn steering_of(v: NavigatorView) -> Steering {
    if v.state == NavigationState::Following && v.waypoints.len() > 0 {
        Steering::Seek(v.waypoints[0])
    } else {
        Steering::Brake
    }
}

/// The navigator after `event`.
pub open spec fn after_event(v: NavigatorView, event: NavEvent) -> NavigatorView {
    match event {
        NavEvent::Tick(reached) => ticked(v, reached),
        NavEvent::Clear => idle_view(),
        NavEvent::Plan(plan) => planned(plan),
    }
}

/// The navigator after a run of ticks, one for each entry of `reached`.
pub open spec fn run_ticks(v: NavigatorView, reached: Seq<bool>) -> NavigatorView
    decreases reached.len(),
{
    if reached.len() == 0 {
        v
    } else {
        run_ticks(ticked(v, reached[0]), reached.drop_first())
    }
}

/// The navigator after a run of events.
pub open spec fn run_events(v: NavigatorView, events: Seq<NavEvent>) -> NavigatorView
    decreases events.len(),
{
    if events.len() == 0 {
        v
    } else {
        run_events(after_event(v, events[0]), events.drop_first())
    }
}

/// The event is a planner answer with a route to follow.
pub open spec fn plan_succeeds(event: NavEvent) -> bool {
    match event {
        NavEvent::Plan(Some(points)) => points.len() > 0,
        _ => false,
    }
}

/// Consistency of a navigator between calls: it is never caught planning, and
/// it follows exactly while waypoints remain.
pub open spec fn view_wf(v: NavigatorView) -> bool {
    &&& v.state != NavigationState::Planning
    &&& (v.state == NavigationState::Following <==> v.waypoints.len() > 0)
}

/// The planner's answer as a sequence of points.
pub open spec fn plan_view(plan: Option<Vec<NavVec3>>) -> Option<Seq<NavVec3>> {
    match plan {
        Some(points) => Some(points@),
        None => None,
    }
}

/// The waypoint queue of one body with its navigation state.
#[derive(Debug)]
pub struct Navigator {
    waypoints: Vec<NavVec3>,
    state: NavigationState,
}

impl View for Navigator {
    type V = NavigatorView;

    closed spec fn view(&self) -> NavigatorView {
        NavigatorView { waypoints: self.waypoints@, state: self.state }
    }
}

impl Clone for Navigator {
    fn clone(&self) -> (r: Navigator)
        ensures
            r@ == self@,
    {
        let mut waypoints: Vec<NavVec3> = Vec::with_capacity(self.waypoints.len());
        let mut i: usize = 0;
        while i < self.waypoints.len()
            invariant
                i <= self.waypoints@.len(),
                waypoints@ =~= self.waypoints@.take(i as int),
            decreases self.waypoints@.len() - i,
        {
            waypoints.push(self.waypoints[i]);
            i += 1;
        }
        proof {
            assert(waypoints@ =~= self.waypoints@);
        }
        Navigator { waypoints, state: self.state }
    }
}

impl Navigator {
    pub open spec fn wf(&self) -> bool {
        view_wf(self@)
    }

    pub fn new() -> (r: Navigator)
        ensures
            r.wf(),
            r@ == idle_view(),
    {
        Navigator { waypoints: Vec::new(), state: NavigationState::Idle }
    }

    pub fn state(&self) -> (r: NavigationState)
        ensures
            r == self@.state,
    {
        self.state
    }

    /// The waypoints still to visit, the next one first.
    pub fn waypoints(&self) -> (r: &[NavVec3])
        ensures
            r@ == self@.waypoints,
    {
        self.waypoints.as_slice()
    }

    pub fn waypoint_count(&self) -> (r: usize)
        ensures
            r == self@.waypoints.len(),
    {
        self.waypoints.len()
    }

    /// Takes the planner's answer: the old route is discarded; a route
    /// replaces it, and a non-empty one is followed; no route is reported as
    /// `PathUnavailable` and leaves the navigator idle.
    pub fn follow_plan(&mut self, plan: Option<Vec<NavVec3>>) -> (r: Result<(), NavError>)
        ensures
            final(self).wf(),
            final(self)@ == planned(plan_view(plan)),
            r == (match plan {
                Some(_) => Ok::<(), NavError>(()),
                None => Err(NavError::PathUnavailable),
            }),
    {
        match plan {
            Some(points) => {
                self.waypoints = points;
                if self.waypoints.len() > 0 {
                    self.state = NavigationState::Following;
                } else {
                    self.state = NavigationState::Idle;
                }
                Ok(())
            },
            None => {
                self.waypoints = Vec::new();
                self.state = NavigationState::Idle;
                Err(NavError::PathUnavailable)
            },
        }
    }

    /// Asks the navmesh for a route from `from` to `goal` and follows it. On
    /// success the body is following a non-empty route; when no route exists
    /// the old route is gone all the same and the body is idle.
    pub fn set_waypoint(
        &mut self,
        mesh: &NavMesh,
        from: NavVec3,
        goal: NavVec3,
    ) -> (r: Result<(), NavError>)
        ensures
            final(self).wf(),
            r is Ok <==> final(self)@.state == NavigationState::Following,
            r is Ok ==> final(self)@.waypoints.len() > 0,
            r is Err ==> r == Err::<(), NavError>(NavError::PathUnavailable),
            r is Err ==> final(self)@ == idle_view(),
    {
        self.waypoints.clear();
        self.state = NavigationState::Planning;
        let plan = find_path(mesh, from, goal);
        self.follow_plan(plan)
    }

    /// Cancels navigation: the route is dropped and the body is idle.
    pub fn clear_waypoint(&mut self)
        ensures
            final(self).wf(),
            final(self)@ == idle_view(),
    {
        self.waypoints.clear();
        self.state = NavigationState::Idle;
    }

    /// What the steering controller is to do on this tick: head for the
    /// first waypoint while following, brake otherwise.
    pub fn steering(&self) -> (r: Steering)
        requires
            self.wf(),
        ensures
            r == steering_of(self@),
    {
        match self.state {
            NavigationState::Following => Steering::Seek(self.waypoints[0]),
            _ => Steering::Brake,
        }
    }

    /// Ends a tick. While following, a `reached` head waypoint is dropped, and
    /// dropping the last one makes the body idle. An idle body is unaffected.
    pub fn advance(&mut self, reached: bool) -> (r: Progress)
        requires
            old(self).wf(),
        ensures
            final(self).wf(),
            final(self)@ == ticked(old(self)@, reached),
            r == tick_progress(old(self)@, reached),
            final(self)@.waypoints.len() <= old(self)@.waypoints.len(),
    {
        match self.state {
            NavigationState::Following => {
                if reached {
                    let _ = self.waypoints.remove(0);
                    proof {
                        assert(self@.waypoints =~= old(self)@.waypoints.drop_first());
                    }
                    if self.waypoints.len() > 0 {
                        Progress::Advanced
                    } else {
                        self.state = NavigationState::Idle;
                        Progress::Arrived
                    }
                } else {
                    Progress::EnRoute
                }
            },
            _ => Progress::Stopped,
        }
    }
}

/// A tick keeps a consistent navigator consistent.
pub proof fn lemma_tick_wf(v: NavigatorView, reached: bool)
    requires
        view_wf(v),
    ensures
        view_wf(ticked(v, reached)),
{
}

/// Ticks never lengthen the route: after any run of ticks the waypoints left
/// are the tail of the route the run started with.
pub proof fn lemma_ticks_only_shrink(v: NavigatorView, reached: Seq<bool>)
    requires
        view_wf(v),
    ensures
        view_wf(run_ticks(v, reached)),
        run_ticks(v, reached).waypoints.len() <= v.waypoints.len(),
        run_ticks(v, reached).waypoints =~= v.waypoints.skip(
            v.waypoints.len() - run_ticks(v, reached).waypoints.len(),
        ),
    decreases reached.len(),
{
    if reached.len() > 0 {
        let w = ticked(v, reached[0]);
        lemma_tick_wf(v, reached[0]);
        lemma_ticks_only_shrink(w, reached.drop_first());
        let end = run_ticks(w, reached.drop_first());
        if w.waypoints.len() < v.waypoints.len() {
            assert(w.waypoints =~= v.waypoints.skip(1));
            assert(end.waypoints =~= v.waypoints.skip(v.waypoints.len() - end.waypoints.len()));
        }
    } else {
        assert(v.waypoints =~= v.waypoints.skip(0));
    }
}

/// Running the first `k + 1` ticks is running the first `k` and then tick `k`.
pub proof fn lemma_run_ticks_step(v: NavigatorView, reached: Seq<bool>, k: int)
    requires
        0 <= k < reached.len(),
    ensures
        run_ticks(v, reached.take(k + 1)) == ticked(run_ticks(v, reached.take(k)), reached[k]),
    decreases k,
{
    if k > 0 {
        let w = ticked(v, reached[0]);
        let rest = reached.drop_first();
        lemma_run_ticks_step(w, rest, k - 1);
        assert(reached.take(k + 1).drop_first() =~= rest.take(k));
        assert(reached.take(k).drop_first() =~= rest.take(k - 1));
        assert(reached.take(k + 1)[0] == reached[0]);
        assert(reached.take(k)[0] == reached[0]);
        assert(rest[k - 1] == reached[k]);
        assert(run_ticks(v, reached.take(k)) == run_ticks(w, rest.take(k - 1)));
        assert(run_ticks(v, reached.take(k + 1)) == run_ticks(w, rest.take(k)));
    } else {
        let w = ticked(v, reached[0]);
        assert(reached.take(1).drop_first() =~= Seq::<bool>::empty());
        assert(reached.take(0) =~= Seq::<bool>::empty());
        assert(reached.take(1)[0] == reached[0]);
        assert(run_ticks(w, Seq::<bool>::empty()) == w);
        assert(run_ticks(v, reached.take(1)) == run_ticks(w, Seq::<bool>::empty()));
    }
}

/// Once idle, further ticks change nothing.
pub proof fn lemma_idle_ticks_hold(v: NavigatorView, reached: Seq<bool>, k: int, m: int)
    requires
        0 <= k <= m <= reached.len(),
        run_ticks(v, reached.take(k)).state == NavigationState::Idle,
    ensures
        run_ticks(v, reached.take(m)) == run_ticks(v, reached.take(k)),
    decreases m - k,
{
    if k < m {
        lemma_run_ticks_step(v, reached, k);
        lemma_idle_ticks_hold(v, reached, k + 1, m);
    }
}

/// Reaching the last waypoint happens at most once in a run of ticks: from
/// the tick that reports `Arrived` on, the body is idle and every later tick
/// reports `Stopped`.
pub proof fn lemma_arrives_once(v: NavigatorView, reached: Seq<bool>, i: int, j: int)
    requires
        view_wf(v),
        0 <= i < j <= reached.len(),
        tick_progress(run_ticks(v, reached.take(i)), reached[i]) == Progress::Arrived,
    ensures
        run_ticks(v, reached.take(j)).state == NavigationState::Idle,
        j < reached.len() ==> tick_progress(run_ticks(v, reached.take(j)), reached[j])
            == Progress::Stopped,
{
    lemma_ticks_only_shrink(v, reached.take(i));
    lemma_run_ticks_step(v, reached, i);
    lemma_idle_ticks_hold(v, reached, i + 1, j);
}

/// A run of ticks that starts out following and ends idle reports `Arrived`
/// on one of its ticks.
pub proof fn lemma_arrival_reported(v: NavigatorView, reached: Seq<bool>) -> (i: int)
    requires
        view_wf(v),
        v.state == NavigationState::Following,
        run_ticks(v, reached).state == NavigationState::Idle,
    ensures
        0 <= i < reached.len(),
        tick_progress(run_ticks(v, reached.take(i)), reached[i]) == Progress::Arrived,
    decreases reached.len(),
{
    let w = ticked(v, reached[0]);
    assert(reached.take(0) =~= Seq::<bool>::empty());
    if w.state == NavigationState::Idle {
        0
    } else {
        lemma_tick_wf(v, reached[0]);
        let rest = reached.drop_first();
        let k = lemma_arrival_reported(w, rest);
        assert(reached.take(k + 1).drop_first() =~= rest.take(k));
        assert(reached.take(k + 1)[0] == reached[0]);
        k + 1
    }
}

/// An idle navigator stays idle, with no route, until the planner answers
/// with a route to follow: ticks, cancellations and failed plans leave it as
/// a fresh one.
pub proof fn lemma_idle_until_planned(v: NavigatorView, events: Seq<NavEvent>)
    requires
        view_wf(v),
        v.state == NavigationState::Idle,
        forall|i: int| 0 <= i < events.len() ==> !plan_succeeds(#[trigger] events[i]),
    ensures
        run_events(v, events) == idle_view(),
    decreases events.len(),
{
    assert(v.waypoints =~= Seq::<NavVec3>::empty());
    if events.len() > 0 {
        let w = after_event(v, events[0]);
        assert(!plan_succeeds(events[0]));
        assert(w.waypoints =~= Seq::<NavVec3>::empty());
        let rest = events.drop_first();
        assert forall|i: int| 0 <= i < rest.len() implies !plan_succeeds(#[trigger] rest[i]) by {
            assert(rest[i] == events[i + 1]);
        }
        lemma_idle_until_planned(w, rest);
    }
}

/// A goal the planner cannot reach leaves no route behind, whatever the
/// navigator held before.
pub proof fn lemma_no_route_leaves_idle(v: NavigatorView)
    ensures
        after_event(v, NavEvent::Plan(None)) == idle_view(),
        view_wf(after_event(v, NavEvent::Plan(None))),
{
}

/// Planning and then cancelling at once leaves the navigator as a fresh one,
/// whatever the planner answered.
pub proof fn lemma_plan_then_clear_is_fresh(v: NavigatorView, plan: Option<Seq<NavVec3>>)
    ensures
        run_events(v, seq![NavEvent::Plan(plan), NavEvent::Clear]) == idle_view(),
{
    let events = seq![NavEvent::Plan(plan), NavEvent::Clear];
    let w = after_event(v, events[0]);
    assert(events.drop_first() =~= seq![NavEvent::Clear]);
    assert(seq![NavEvent::Clear].drop_first() =~= Seq::<NavEvent>::empty());
    assert(run_events(idle_view(), Seq::<NavEvent>::empty()) == idle_view());
    assert(run_events(w, seq![NavEvent::Clear]) == idle_view());
}

} // verus!

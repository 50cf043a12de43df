//! The debounced pressure state machine. It consumes already classified
//! observations and confirms a transition only after the same candidate
//! state has been observed `confirm_after` consecutive times, so a single
//! noisy sample, or a value oscillating at a boundary, does not produce a
//! notification per poll.

use vstd::prelude::*;

use super::pressure::PressureState;

verus! {

/// A confirmed transition, returned once per boundary crossing.
#[derive(Debug, Clone, Copy, PartialEq, Eq, Structural)]
pub struct Transition {
    pub from: PressureState,
    pub to: PressureState,
}

#[derive(Debug, Clone, Copy)]
struct Pending {
    candidate: PressureState,
    consecutive: u32,
}

/// Debounced pressure state machine.
#[derive(Debug)]
pub struct PressureStateMachine {
    current: PressureState,
    pending: Option<Pending>,
    confirm_after: u32,
}

/// The plain state of a machine: the confirmed state, the candidate being
/// accumulated with its count, and the confirmation threshold.
pub struct MachineModel {
    pub current: PressureState,
    pub pending: Option<(PressureState, nat)>,
    pub confirm_after: nat,
}

/// The threshold is at least one, and a pending candidate differs from
/// the confirmed state and has been seen fewer times than the threshold.
pub open spec fn model_wf(m: MachineModel) -> bool {
    &&& m.confirm_after >= 1
    &&& m.confirm_after <= u32::MAX
    &&& match m.pending {
        Some((c, n)) => c != m.current && 1 <= n < m.confirm_after,
        None => true,
    }
}

/// One observation: the confirmed state clears any candidate; a new
/// candidate (or a different one) starts at one; the candidate that
/// reaches the threshold becomes the confirmed state and is reported.
pub open spec fn step(m: MachineModel, observed: PressureState) -> (MachineModel, Option<Transition>) {
    if observed == m.current {
        (MachineModel { pending: None, ..m }, None)
    } else {
        let consecutive: nat = match m.pending {
            Some((c, n)) => if c == observed {
                n + 1
            } else {
                1
            },
            None => 1,
        };
        if consecutive >= m.confirm_after {
            (
                MachineModel { current: observed, pending: None, ..m },
                Some(Transition { from: m.current, to: observed }),
            )
        } else {
            (MachineModel { pending: Some((observed, consecutive)), ..m }, None)
        }
    }
}

/// A whole sequence of observations: the final state and every transition
/// reported, in order.
pub open spec fn run(m: MachineModel, obs: Seq<PressureState>) -> (MachineModel, Seq<Transition>)
    decreases obs.len(),
{
    if obs.len() == 0 {
        (m, Seq::empty())
    } else {
        let (m1, t) = step(m, obs[0]);
        let (m2, ts) = run(m1, obs.drop_first());
        (
            m2,
            match t {
                Some(x) => seq![x] + ts,
                None => ts,
            },
        )
    }
}

impl View for PressureStateMachine {
    type V = MachineModel;

    closed spec fn view(&self) -> MachineModel {
        MachineModel {
            current: self.current,
            pending: match self.pending {
                Some(p) => Some((p.candidate, p.consecutive as nat)),
                None => None,
            },
            confirm_after: self.confirm_after as nat,
        }
    }
}

impl PressureStateMachine {
    #[verifier::type_invariant]
    closed spec fn inv(self) -> bool {
        model_wf(self@)
    }

    /// A machine starting from `initial`, confirming a transition after
    /// `confirm_after` consecutive observations (at least one).
    pub fn new(initial: PressureState, confirm_after: u32) -> (m: PressureStateMachine)
        ensures
            model_wf(m@),
            m@.current == initial,
            m@.pending is None,
            m@.confirm_after == if confirm_after >= 1 {
                confirm_after as nat
            } else {
                1
            },
    {
        let threshold = if confirm_after >= 1 {
            confirm_after
        } else {
            1
        };
        PressureStateMachine { current: initial, pending: None, confirm_after: threshold }
    }

    /// The confirmed state.
    pub fn current(&self) -> (s: PressureState)
        ensures
            s == self@.current,
            model_wf(self@),
    {
        proof {
            use_type_invariant(self);
        }
        self.current
    }

    /// Feed one classified observation. Returns the transition exactly
    /// when the observation confirms one.
    pub fn observe(&mut self, observed: PressureState) -> (t: Option<Transition>)
        ensures
            model_wf(old(self)@),
            final(self)@ == step(old(self)@, observed).0,
            t == step(old(self)@, observed).1,
    {
        proof {
            use_type_invariant(&*self);
        }
        if observed == self.current {
            *self = PressureStateMachine {
                current: self.current,
                pending: None,
                confirm_after: self.confirm_after,
            };
            return None;
        }
        let consecutive: u32 = match self.pending {
            Some(p) => if p.candidate == observed {
                p.consecutive + 1
            } else {
                1
            },
            None => 1,
        };
        if consecutive >= self.confirm_after {
            let from = self.current;
            *self = PressureStateMachine {
                current: observed,
                pending: None,
                confirm_after: self.confirm_after,
            };
            Some(Transition { from, to: observed })
        } else {
            *self = PressureStateMachine {
                current: self.current,
                pending: Some(Pending { candidate: observed, consecutive }),
                confirm_after: self.confirm_after,
            };
            None
        }
    }
}

impl Clone for PressureStateMachine {
    fn clone(&self) -> (c: Self)
        ensures
            c@ == self@,
    {
        proof {
            use_type_invariant(self);
        }
        PressureStateMachine {
            current: self.current,
            pending: self.pending,
            confirm_after: self.confirm_after,
        }
    }
}

/// Every observation keeps the machine well formed, and a reported
/// transition always leaves the old confirmed state for the observed one.
pub proof fn lemma_step_keeps_wf(m: MachineModel, observed: PressureState)
    requires
        model_wf(m),
    ensures
        model_wf(step(m, observed).0),
        step(m, observed).0.confirm_after == m.confirm_after,
        step(m, observed).1 matches Some(t) ==> t.from == m.current && t.to == observed && t.from
            != t.to && step(m, observed).0.current == observed,
        step(m, observed).1 is None ==> step(m, observed).0.current == m.current,
{
}

/// A steady state never transitions: observing the confirmed state, any
/// number of times, reports nothing and leaves it confirmed.
pub proof fn lemma_steady_state_never_transitions(m: MachineModel, obs: Seq<PressureState>)
    requires
        model_wf(m),
        forall|i: int| 0 <= i < obs.len() ==> obs[i] == m.current,
    ensures
        run(m, obs).1.len() == 0,
        run(m, obs).0.current == m.current,
    decreases obs.len(),
{
    if obs.len() > 0 {
        let m1 = step(m, obs[0]).0;
        lemma_steady_state_never_transitions(m1, obs.drop_first());
    }
}

/// `k` copies of `x`.
pub open spec fn copies(x: PressureState, k: nat) -> Seq<PressureState> {
    Seq::new(k, |i: int| x)
}

proof fn lemma_debounce_from(m: MachineModel, x: PressureState, j: nat, k: nat)
    requires
        model_wf(m),
        x != m.current,
        j == 0 ==> m.pending is None,
        j > 0 ==> m.pending == Some((x, j)),
    ensures
        j + k < m.confirm_after ==> run(m, copies(x, k)).1.len() == 0 && run(
            m,
            copies(x, k),
        ).0.current == m.current,
        j + k >= m.confirm_after ==> run(m, copies(x, k)).1 == seq![
            Transition { from: m.current, to: x },
        ] && run(m, copies(x, k)).0.current == x,
    decreases k,
{
    if k > 0 {
        let m1 = step(m, x).0;
        assert(copies(x, k).drop_first() =~= copies(x, (k - 1) as nat));
        assert(copies(x, k)[0] == x);
        if j + 1 >= m.confirm_after {
            lemma_steady_state_never_transitions(m1, copies(x, (k - 1) as nat));
            assert(run(m, copies(x, k)).1 =~= seq![Transition { from: m.current, to: x }]);
        } else {
            lemma_debounce_from(m1, x, j + 1, (k - 1) as nat);
        }
    }
}

/// Debounce: from a machine with no candidate pending, a new state must be
/// observed `confirm_after` consecutive times before it is confirmed; then
/// it is reported exactly once, however long it persists.
pub proof fn lemma_confirms_once_after_threshold(m: MachineModel, x: PressureState, k: nat)
    requires
        model_wf(m),
        m.pending is None,
        x != m.current,
    ensures
        k < m.confirm_after ==> run(m, copies(x, k)).1.len() == 0 && run(m, copies(x, k)).0.current
            == m.current,
        k >= m.confirm_after ==> run(m, copies(x, k)).1 == seq![
            Transition { from: m.current, to: x },
        ] && run(m, copies(x, k)).0.current == x,
{
    lemma_debounce_from(m, x, 0, k);
}

/// The last `k` entries of `s` are all `x`.
pub open spec fn ends_with_run(s: Seq<PressureState>, x: PressureState, k: nat) -> bool {
    &&& k <= s.len()
    &&& forall|i: int| s.len() - k <= i < s.len() ==> #[trigger] s[i] == x
}

proof fn lemma_run_push(m: MachineModel, h: Seq<PressureState>, o: PressureState)
    ensures
        run(m, h.push(o)).0 == step(run(m, h).0, o).0,
    decreases h.len(),
{
    let h2 = h.push(o);
    if h.len() > 0 {
        let m1 = step(m, h[0]).0;
        assert(h2.drop_first() =~= h.drop_first().push(o));
        assert(h2[0] == h[0]);
        lemma_run_push(m1, h.drop_first(), o);
        assert(run(m, h2).0 == run(m1, h2.drop_first()).0);
        assert(run(m, h).0 == run(m1, h.drop_first()).0);
    } else {
        assert(h2.drop_first() =~= Seq::<PressureState>::empty());
        assert(h2[0] == o);
        assert(run(m, h2).0 == run(step(m, o).0, h2.drop_first()).0);
    }
}

proof fn lemma_run_shorter(h: Seq<PressureState>, o: PressureState, x: PressureState, k: nat)
    requires
        k >= 1,
        ends_with_run(h.push(o), x, k),
    ensures
        o == x,
        ends_with_run(h, x, (k - 1) as nat),
{
    let h2 = h.push(o);
    assert(h2[h2.len() - 1] == o);
    assert forall|i: int| h.len() - (k - 1) <= i < h.len() implies #[trigger] h[i] == x by {
        assert(h2[i] == h[i]);
    }
}

proof fn lemma_run_longer(h: Seq<PressureState>, x: PressureState, k: nat)
    requires
        ends_with_run(h, x, k),
    ensures
        ends_with_run(h.push(x), x, k + 1),
{
    let h2 = h.push(x);
    assert forall|i: int| h2.len() - (k + 1) <= i < h2.len() implies #[trigger] h2[i] == x by {
        if i < h.len() {
            assert(h2[i] == h[i]);
        }
    }
}

/// What the machine remembers of a history: its candidate count is the
/// length of the run of that candidate ending the history, at least as long
/// as any run of a state other than the confirmed one that ends it.
spec fn tracks_history(m: MachineModel, h: Seq<PressureState>) -> bool {
    &&& model_wf(m)
    &&& (m.pending matches Some((x, n)) ==> ends_with_run(h, x, n))
    &&& forall|x: PressureState, k: nat|
        1 <= k && x != m.current && #[trigger] ends_with_run(h, x, k) ==> (m.pending matches Some((y, n))
            && y == x && n >= k)
}

proof fn lemma_step_tracks(m: MachineModel, h: Seq<PressureState>, o: PressureState)
    requires
        tracks_history(m, h),
    ensures
        tracks_history(step(m, o).0, h.push(o)),
{
    lemma_step_keeps_wf(m, o);
    let m2 = step(m, o).0;
    let h2 = h.push(o);
    if let Some((x, n)) = m2.pending {
        if n > 1 {
            assert(m.pending == Some((x, (n - 1) as nat)));
            lemma_run_longer(h, x, (n - 1) as nat);
        } else {
            lemma_run_longer(h, x, 0);
        }
    }
    assert forall|x: PressureState, k: nat|
        1 <= k && x != m2.current && #[trigger] ends_with_run(h2, x, k) implies (m2.pending matches Some(
        (y, n),
    ) && y == x && n >= k) by {
        lemma_run_shorter(h, o, x, k);
    }
}

proof fn lemma_run_tracks(m0: MachineModel, h: Seq<PressureState>)
    requires
        model_wf(m0),
        m0.pending is None,
    ensures
        tracks_history(run(m0, h).0, h),
        run(m0, h).0.confirm_after == m0.confirm_after,
    decreases h.len(),
{
    if h.len() == 0 {
        assert(run(m0, h).0 == m0);
    } else {
        let h0 = h.drop_last();
        lemma_run_tracks(m0, h0);
        lemma_run_push(m0, h0, h.last());
        assert(h0.push(h.last()) =~= h);
        lemma_step_tracks(run(m0, h0).0, h0, h.last());
        lemma_step_keeps_wf(run(m0, h0).0, h.last());
    }
}

/// The debounce law: after any history `h` fed to a machine that started
/// with no candidate, the next observation `o` confirms a transition exactly
/// when `o` differs from the confirmed state and the last `confirm_after`
/// observations, `o` included, all equal `o`; the transition leaves the
/// confirmed state for `o`.
pub proof fn lemma_debounce_law(m0: MachineModel, h: Seq<PressureState>, o: PressureState)
    requires
        model_wf(m0),
        m0.pending is None,
    ensures
        ({
            let m = run(m0, h).0;
            &&& (step(m, o).1 is Some <==> (o != m.current && ends_with_run(
                h.push(o),
                o,
                m0.confirm_after,
            )))
            &&& (step(m, o).1 matches Some(t) ==> t == Transition { from: m.current, to: o })
        }),
{
    lemma_run_tracks(m0, h);
    let m = run(m0, h).0;
    let n = m0.confirm_after;
    let h2 = h.push(o);
    if o != m.current && ends_with_run(h2, o, n) && n >= 2 {
        lemma_run_shorter(h, o, o, n);
    }
    if step(m, o).1 is Some {
        if let Some((x, c)) = m.pending {
            if x == o {
                lemma_run_longer(h, o, c);
                assert(c + 1 >= n);
                assert forall|i: int| h2.len() - n <= i < h2.len() implies #[trigger] h2[i] == o by {
                    assert(h2.len() - (c + 1) <= i);
                }
            } else {
                lemma_run_longer(h, o, 0);
            }
        } else {
            lemma_run_longer(h, o, 0);
        }
    }
}

} // verus!

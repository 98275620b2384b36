//! The per-device state machine: a table of transitions and a driver that
//! follows it from the device's current state.
use crate::action::{
    action_code, action_of_code, action_result, probe_for, probe_of, transition, ActionTag,
    FsCheck, Probe, ProbeResults, RepairOutcome,
};
use crate::device::Device;
use crate::graph::{
    first_from, graph_add_edge, graph_all_edges, graph_edges, graph_first_edge, lemma_first_from,
    lemma_with_edge_elems, lemma_with_edge_new, new_graph, with_edge, CodeGraph,
};
use crate::state::{lemma_code_round_trip, state_code, state_of_code, State};
use vstd::prelude::*;

verus! {

/// An edge of the transition graph, in codes.
pub open spec fn edge(from: State, to: State, a: ActionTag) -> (u8, u8, u8) {
    (state_code(from), state_code(to), action_code(a))
}

/// Every code in the edges names a state or an action.
pub open spec fn codes_valid(es: Seq<(u8, u8, u8)>) -> bool {
    forall|i: int|
        #![trigger es[i]]
        0 <= i < es.len() ==> state_of_code(es[i].0) is Some && state_of_code(es[i].1) is Some
            && action_of_code(es[i].2) is Some
}

/// The edge `e` read back as states and an action.
pub open spec fn decode(e: (u8, u8, u8)) -> (State, State, ActionTag) {
    (state_of_code(e.0).unwrap(), state_of_code(e.1).unwrap(), action_of_code(e.2).unwrap())
}

/// The state that one step of the engine moves to from `s`, given the
/// outcomes of the probes; `None` where the engine stops: at
/// `WaitingForReplacement`, at a state without edges, or where the action
/// hands back the state the device is already in.
pub open spec fn step_of(es: Seq<(u8, u8, u8)>, s: State, simulate: bool, p: ProbeResults) -> Option<
    State,
> {
    if s == State::WaitingForReplacement {
        None
    } else {
        match first_from(es, state_code(s)) {
            None => None,
            Some(e) => {
                let t = action_result(decode(e).2, decode(e).0, decode(e).1, simulate, p);
                if t == s {
                    None
                } else {
                    Some(t)
                }
            },
        }
    }
}

/// `path` is the sequence of states of one run that takes `outcomes[i]` as
/// the probe outcomes of its step from `path[i]`: each state is one step from
/// the one before, and the run ends where the engine stops or where the
/// outcomes are used up.
pub open spec fn is_run(
    es: Seq<(u8, u8, u8)>,
    simulate: bool,
    outcomes: Seq<ProbeResults>,
    path: Seq<State>,
) -> bool {
    &&& 1 <= path.len() <= outcomes.len() + 1
    &&& forall|i: int|
        #![trigger path[i + 1]]
        0 <= i < path.len() - 1 ==> step_of(es, path[i], simulate, outcomes[i]) == Some(path[i + 1])
    &&& path.len() - 1 < outcomes.len() ==> step_of(
        es,
        path.last(),
        simulate,
        outcomes[path.len() - 1],
    ) is None
}

/// The canonical transition table, in declaration order.
pub open spec fn canonical_table() -> Seq<(u8, u8, u8)> {
    seq![
        edge(State::Unscanned, State::Scanned, ActionTag::Scan),
        edge(State::Unscanned, State::Fail, ActionTag::Scan),
        edge(State::NotMounted, State::Mounted, ActionTag::Mount),
        edge(State::NotMounted, State::MountFailed, ActionTag::Mount),
        edge(State::MountFailed, State::Corrupt, ActionTag::CheckForCorruption),
        edge(State::Scanned, State::Good, ActionTag::Eval),
        edge(State::Scanned, State::NotMounted, ActionTag::Scan),
        edge(State::Scanned, State::WriteFailed, ActionTag::Eval),
        edge(State::Scanned, State::WornOut, ActionTag::CheckWearLeveling),
        edge(State::Mounted, State::Scanned, ActionTag::NoOp),
        edge(State::ReadOnly, State::Mounted, ActionTag::Remount),
        edge(State::ReadOnly, State::MountFailed, ActionTag::Remount),
        edge(State::Corrupt, State::Repaired, ActionTag::AttemptRepair),
        edge(State::Corrupt, State::RepairFailed, ActionTag::AttemptRepair),
        edge(State::RepairFailed, State::Reformatted, ActionTag::Reformat),
        edge(State::RepairFailed, State::ReformatFailed, ActionTag::Reformat),
        edge(State::ReformatFailed, State::WaitingForReplacement, ActionTag::NoOp),
        edge(State::Reformatted, State::Unscanned, ActionTag::NoOp),
        edge(State::WornOut, State::WaitingForReplacement, ActionTag::MarkForReplacement),
        edge(State::Repaired, State::Good, ActionTag::NoOp),
        edge(State::WaitingForReplacement, State::Replaced, ActionTag::Replace),
        edge(State::Replaced, State::Unscanned, ActionTag::NoOp),
        edge(State::WriteFailed, State::Corrupt, ActionTag::CheckForCorruption),
        edge(State::WriteFailed, State::ReadOnly, ActionTag::Eval),
    ]
}

/// The canonical transition table as states and actions, in declaration
/// order.
pub fn canonical_transitions() -> (r: Vec<(State, State, ActionTag)>)
    ensures
        r@.len() == canonical_table().len(),
        forall|i: int|
            0 <= i < r@.len() ==> edge(r@[i].0, r@[i].1, r@[i].2) == #[trigger] canonical_table()[i],
{
    let r = vec![
            (State::Unscanned, State::Scanned, ActionTag::Scan),
            (State::Unscanned, State::Fail, ActionTag::Scan),
            (State::NotMounted, State::Mounted, ActionTag::Mount),
            (State::NotMounted, State::MountFailed, ActionTag::Mount),
            (State::MountFailed, State::Corrupt, ActionTag::CheckForCorruption),
            (State::Scanned, State::Good, ActionTag::Eval),
            (State::Scanned, State::NotMounted, ActionTag::Scan),
            (State::Scanned, State::WriteFailed, ActionTag::Eval),
            (State::Scanned, State::WornOut, ActionTag::CheckWearLeveling),
            (State::Mounted, State::Scanned, ActionTag::NoOp),
            (State::ReadOnly, State::Mounted, ActionTag::Remount),
            (State::ReadOnly, State::MountFailed, ActionTag::Remount),
            (State::Corrupt, State::Repaired, ActionTag::AttemptRepair),
            (State::Corrupt, State::RepairFailed, ActionTag::AttemptRepair),
            (State::RepairFailed, State::Reformatted, ActionTag::Reformat),
            (State::RepairFailed, State::ReformatFailed, ActionTag::Reformat),
            (State::ReformatFailed, State::WaitingForReplacement, ActionTag::NoOp),
            (State::Reformatted, State::Unscanned, ActionTag::NoOp),
            (State::WornOut, State::WaitingForReplacement, ActionTag::MarkForReplacement),
            (State::Repaired, State::Good, ActionTag::NoOp),
            (State::WaitingForReplacement, State::Replaced, ActionTag::Replace),
            (State::Replaced, State::Unscanned, ActionTag::NoOp),
            (State::WriteFailed, State::Corrupt, ActionTag::CheckForCorruption),
            (State::WriteFailed, State::ReadOnly, ActionTag::Eval),
        ];
    assert(r@.len() == canonical_table().len());
    r
}

/// No pair of states has two edges in the canonical table.
pub proof fn lemma_canonical_pairs_distinct()
    ensures
        forall|i: int, j: int|
            0 <= i < j < canonical_table().len() ==> !(#[trigger] canonical_table()[i].0
                == #[trigger] canonical_table()[j].0 && canonical_table()[i].1
                == canonical_table()[j].1),
{
}

/// Two runs agree state by state from where the second one starts in the
/// first, when the second takes the outcomes that the first had left there.
proof fn lemma_runs_agree(
    es: Seq<(u8, u8, u8)>,
    simulate: bool,
    outcomes: Seq<ProbeResults>,
    path: Seq<State>,
    k: int,
    resumed: Seq<State>,
    j: int,
)
    requires
        is_run(es, simulate, outcomes, path),
        0 <= k < path.len(),
        is_run(es, simulate, outcomes.subrange(k, outcomes.len() as int), resumed),
        resumed[0] == path[k],
        0 <= j < resumed.len(),
        k + j < path.len(),
    ensures
        resumed[j] == path[k + j],
    decreases j,
{
    if j > 0 {
        lemma_runs_agree(es, simulate, outcomes, path, k, resumed, j - 1);
        let rest = outcomes.subrange(k, outcomes.len() as int);
        assert(rest[j - 1] == outcomes[k + j - 1]);
        assert(step_of(es, resumed[(j - 1) + 1 - 1], simulate, rest[j - 1]) == Some(
            resumed[(j - 1) + 1],
        ));
        assert(step_of(es, path[(k + j - 1) + 1 - 1], simulate, outcomes[k + j - 1]) == Some(
            path[(k + j - 1) + 1],
        ));
    }
}

/// Resuming is safe: an engine started at any state that a run went through,
/// and given the probe outcomes that the run had from there on, goes through
/// the rest of that run and ends in the same state.
pub proof fn lemma_resume_safety(
    es: Seq<(u8, u8, u8)>,
    simulate: bool,
    outcomes: Seq<ProbeResults>,
    path: Seq<State>,
    k: int,
    resumed: Seq<State>,
)
    requires
        is_run(es, simulate, outcomes, path),
        0 <= k < path.len(),
        is_run(es, simulate, outcomes.subrange(k, outcomes.len() as int), resumed),
        resumed[0] == path[k],
    ensures
        resumed == path.subrange(k, path.len() as int),
        resumed.last() == path.last(),
{
    let n = path.len() as int;
    let m = resumed.len() as int;
    let rest = outcomes.subrange(k, outcomes.len() as int);
    if m > n - k {
        let j = n - k - 1;
        lemma_runs_agree(es, simulate, outcomes, path, k, resumed, j);
        assert(rest[j] == outcomes[n - 1]);
        assert(step_of(es, resumed[j + 1 - 1], simulate, rest[j]) == Some(resumed[j + 1]));
    }
    if m < n - k {
        let j = m - 1;
        lemma_runs_agree(es, simulate, outcomes, path, k, resumed, j);
        assert(rest[j] == outcomes[k + j]);
        assert(step_of(es, path[(k + j) + 1 - 1], simulate, outcomes[k + j]) == Some(
            path[(k + j) + 1],
        ));
    }
    assert forall|x: int| 0 <= x < m implies resumed[x] == path.subrange(k, n)[x] by {
        lemma_runs_agree(es, simulate, outcomes, path, k, resumed, x);
    }
    assert(resumed =~= path.subrange(k, n));
}

/// The contract of a run pins it down: two runs over the same table and probe
/// outcomes that start in the same state are the same sequence of states.
pub proof fn lemma_run_deterministic(
    es: Seq<(u8, u8, u8)>,
    simulate: bool,
    outcomes: Seq<ProbeResults>,
    a: Seq<State>,
    b: Seq<State>,
)
    requires
        is_run(es, simulate, outcomes, a),
        is_run(es, simulate, outcomes, b),
        a[0] == b[0],
    ensures
        a == b,
{
    assert(outcomes.subrange(0, outcomes.len() as int) =~= outcomes);
    lemma_resume_safety(es, simulate, outcomes, a, 0, b);
    assert(a.subrange(0, a.len() as int) =~= a);
}

/// A run that ended where the engine stops makes no further progress when
/// run again with the same outcomes: the second run stays where the first
/// ended.
pub proof fn lemma_rerun_no_progress(
    es: Seq<(u8, u8, u8)>,
    simulate: bool,
    outcomes: Seq<ProbeResults>,
    path: Seq<State>,
    again_outcomes: Seq<ProbeResults>,
    again: Seq<State>,
)
    requires
        is_run(es, simulate, outcomes, path),
        path.len() - 1 < outcomes.len(),
        is_run(es, simulate, again_outcomes, again),
        again_outcomes.len() >= 1,
        again_outcomes[0] == outcomes[path.len() - 1],
        again[0] == path.last(),
    ensures
        again == seq![path.last()],
{
    if again.len() > 1 {
        assert(step_of(es, again[0int + 1 - 1], simulate, again_outcomes[0]) == Some(
            again[0int + 1],
        ));
    }
    assert(again =~= seq![path.last()]);
}

/// With the canonical table the engine stops exactly at `Good`, `Fail` and
/// `WaitingForReplacement`, and where a filesystem check or repair was
/// interrupted and the state is left for the next run to retry.
pub open spec fn canonical_stop(s: State, simulate: bool, p: ProbeResults) -> bool {
    ||| s == State::Good
    ||| s == State::Fail
    ||| s == State::WaitingForReplacement
    ||| !simulate && p.fs_check == FsCheck::Interrupted && (s == State::MountFailed || s
        == State::WriteFailed)
    ||| !simulate && p.repair == RepairOutcome::Interrupted && s == State::Corrupt
}

/// A simulated engine runs no probe: every action hands back its declared
/// target without touching the device.
pub proof fn lemma_simulate_runs_no_probe(a: ActionTag, from: State, to: State, p: ProbeResults)
    ensures
        probe_of(a, from, true) is None,
        action_result(a, from, to, true, p) == to,
{
}

/// Where the engine stops with the canonical table.
pub proof fn lemma_canonical_stopping_states(s: State, simulate: bool, p: ProbeResults)
    ensures
        step_of(canonical_table(), s, simulate, p) is None <==> canonical_stop(s, simulate, p),
{
    reveal_with_fuel(first_from, 25);
}

/// Terminal stopping: a run over the canonical table that did not use up its
/// outcomes ends at `Good`, `Fail` or `WaitingForReplacement`, or where an
/// interrupted check or repair left the state to be retried.
pub proof fn lemma_canonical_run_ends(
    simulate: bool,
    outcomes: Seq<ProbeResults>,
    path: Seq<State>,
)
    requires
        is_run(canonical_table(), simulate, outcomes, path),
        path.len() - 1 < outcomes.len(),
    ensures
        canonical_stop(path.last(), simulate, outcomes[path.len() - 1]),
{
    lemma_canonical_stopping_states(path.last(), simulate, outcomes[path.len() - 1]);
}

/// One engine per device: its transition table, its current state, and
/// whether side effects are skipped.
pub struct StateMachine {
    /// The transition table: nodes are state codes, weights action codes.
    pub graph: CodeGraph,
    pub state: State,
    pub disk: Device,
    pub simulate: bool,
}

impl StateMachine {
    /// The transition table, in codes, in declaration order.
    pub open spec fn edges(&self) -> Seq<(u8, u8, u8)> {
        graph_edges(self.graph)
    }

    /// Whether this engine skips side effects.
    pub open spec fn simulating(&self) -> bool {
        self.simulate
    }

    /// Every edge of the table names states and an action.
    pub open spec fn wf(&self) -> bool {
        codes_valid(self.edges())
    }

    /// A fresh engine at `Unscanned`, with an empty table.
    pub fn new(disk: Device, simulate: bool) -> (r: StateMachine)
        ensures
            r.wf(),
            r.edges() == Seq::<(u8, u8, u8)>::empty(),
            r.state == State::Unscanned,
            r.disk == disk,
            r.simulating() == simulate,
    {
        StateMachine { graph: new_graph(), state: State::Unscanned, disk, simulate }
    }

    /// Whether this engine skips side effects.
    pub fn is_simulating(&self) -> (r: bool)
        ensures
            r == self.simulating(),
    {
        self.simulate
    }

    /// Declares the edge `from_state -> to_state` with its action. A new edge
    /// goes after all the others; one already declared takes the new action.
    pub fn add_transition(&mut self, from_state: State, to_state: State, callback: ActionTag)
        requires
            old(self).wf(),
        ensures
            final(self).wf(),
            final(self).edges() == with_edge(
                old(self).edges(),
                state_code(from_state),
                state_code(to_state),
                action_code(callback),
            ),
            final(self).state == old(self).state,
            final(self).disk == old(self).disk,
            final(self).simulating() == old(self).simulating(),
    {
        let a = from_state.code();
        let b = to_state.code();
        let w = callback.code();
        proof {
            lemma_code_round_trip(from_state);
            lemma_code_round_trip(to_state);
            lemma_with_edge_elems(graph_edges(self.graph), a, b, w);
        }
        graph_add_edge(&mut self.graph, a, b, w);
        proof {
            let es = graph_edges(self.graph);
            let old_es = graph_edges(old(self).graph);
            assert forall|i: int| 0 <= i < es.len() implies #[trigger] state_of_code(es[i].0) is Some
                && state_of_code(es[i].1) is Some && action_of_code(es[i].2) is Some by {
                if old_es.contains(es[i]) {
                    let k = choose|k: int| 0 <= k < old_es.len() && old_es[k] == es[i];
                    assert(old_es[k] == es[i]);
                }
            }
        }
    }

    /// Declares the canonical transition table. On an engine with no edges
    /// yet the table is exactly the canonical one, in declaration order.
    pub fn setup_state_machine(&mut self)
        requires
            old(self).wf(),
        ensures
            final(self).wf(),
            old(self).edges().len() == 0 ==> final(self).edges() == canonical_table(),
            final(self).state == old(self).state,
            final(self).disk == old(self).disk,
            final(self).simulating() == old(self).simulating(),
    {
        let table = canonical_transitions();
        let ghost empty = self.edges().len() == 0;
        proof {
            lemma_canonical_pairs_distinct();
        }
        let mut i: usize = 0;
        while i < table.len()
            invariant
                self.wf(),
                self.state == old(self).state,
                self.disk == old(self).disk,
                self.simulating() == old(self).simulating(),
                i <= table@.len(),
                table@.len() == canonical_table().len(),
                forall|k: int|
                    0 <= k < table@.len() ==> edge(table@[k].0, table@[k].1, table@[k].2)
                        == #[trigger] canonical_table()[k],
                forall|a: int, b: int|
                    0 <= a < b < canonical_table().len() ==> !(#[trigger] canonical_table()[a].0
                        == #[trigger] canonical_table()[b].0 && canonical_table()[a].1
                        == canonical_table()[b].1),
                empty ==> self.edges() == canonical_table().take(i as int),
            decreases table@.len() - i,
        {
            let (f, t, a) = table[i];
            let ghost before = self.edges();
            self.add_transition(f, t, a);
            proof {
                if empty {
                    let e = canonical_table()[i as int];
                    assert(edge(f, t, a) == e);
                    assert forall|k: int| 0 <= k < before.len() implies !(before[k].0 == e.0
                        && before[k].1 == e.1) by {
                        assert(before[k] == canonical_table()[k]);
                    }
                    lemma_with_edge_new(before, e.0, e.1, e.2);
                    assert(canonical_table().take(i as int).push(e) =~= canonical_table().take(
                        i as int + 1,
                    ));
                }
            }
            i = i + 1;
        }
        proof {
            if empty {
                assert(canonical_table().take(i as int) =~= canonical_table());
            }
        }
    }

    /// Sets the state from what the repair store recorded for this device;
    /// with no record the state is left as it is.
    pub fn restore_state(&mut self, saved: Option<State>)
        ensures
            final(self).state == (match saved {
                Some(s) => s,
                None => old(self).state,
            }),
            final(self).edges() == old(self).edges(),
            final(self).disk == old(self).disk,
            final(self).simulating() == old(self).simulating(),
    {
        if let Some(s) = saved {
            self.state = s;
        }
    }

    /// The first declared edge that leaves the current state, if any.
    pub fn next_transition(&self) -> (r: Option<(State, State, ActionTag)>)
        requires
            self.wf(),
        ensures
            r == (match first_from(self.edges(), state_code(self.state)) {
                Some(e) => Some(decode(e)),
                None => None,
            }),
            r matches Some(t) ==> t.0 == self.state,
    {
        let e = graph_first_edge(&self.graph, self.state.code());
        proof {
            lemma_first_from(graph_edges(self.graph), state_code(self.state));
        }
        match e {
            None => None,
            Some((f, t, a)) => {
                proof {
                    let es = graph_edges(self.graph);
                    let k = choose|k: int| 0 <= k < es.len() && es[k] == (f, t, a);
                    assert(es[k] == (f, t, a));
                    lemma_code_round_trip(self.state);
                }
                let from = State::from_code(f);
                let to = State::from_code(t);
                let act = ActionTag::from_code(a);
                match (from, to, act) {
                    (Some(x), Some(y), Some(z)) => Some((x, y, z)),
                    _ => None,
                }
            },
        }
    }

    /// The probe the next step runs, if it runs one; `None` also where the
    /// engine stops.
    pub fn next_probe(&self) -> (r: Option<Probe>)
        requires
            self.wf(),
        ensures
            r == (if self.state == State::WaitingForReplacement {
                None
            } else {
                match first_from(self.edges(), state_code(self.state)) {
                    Some(e) => probe_of(decode(e).2, decode(e).0, self.simulating()),
                    None => None,
                }
            }),
    {
        if self.state == State::WaitingForReplacement {
            return None;
        }
        match self.next_transition() {
            None => None,
            Some((from, _to, act)) => probe_for(act, from, self.simulate),
        }
    }

    /// Takes one step: runs the decision of the first edge that leaves the
    /// current state, given the probe outcomes, and moves there. Returns
    /// whether the engine moved; it does not at `WaitingForReplacement`, at a
    /// state without edges, or where the action hands back the current state.
    pub fn step(&mut self, probes: &ProbeResults) -> (moved: bool)
        requires
            old(self).wf(),
        ensures
            final(self).wf(),
            final(self).edges() == old(self).edges(),
            final(self).disk == old(self).disk,
            final(self).simulating() == old(self).simulating(),
            moved ==> step_of(old(self).edges(), old(self).state, old(self).simulating(), *probes)
                == Some(final(self).state),
            !moved ==> final(self).state == old(self).state && step_of(
                old(self).edges(),
                old(self).state,
                old(self).simulating(),
                *probes,
            ) is None,
    {
        if self.state == State::WaitingForReplacement {
            return false;
        }
        match self.next_transition() {
            None => false,
            Some((from, to, act)) => {
                let next = transition(act, from, to, self.simulate, probes);
                if next == self.state {
                    false
                } else {
                    self.state = next;
                    true
                }
            },
        }
    }

    /// Runs transitions from the current state, taking `outcomes[i]` as the
    /// probe outcomes of the `i`-th step, until the engine stops or the
    /// outcomes are used up. Returns the states it went through, the starting
    /// one first.
    pub fn run(&mut self, outcomes: &Vec<ProbeResults>) -> (path: Vec<State>)
        requires
            old(self).wf(),
        ensures
            final(self).wf(),
            final(self).edges() == old(self).edges(),
            final(self).disk == old(self).disk,
            final(self).simulating() == old(self).simulating(),
            path@[0] == old(self).state,
            is_run(old(self).edges(), old(self).simulating(), outcomes@, path@),
            final(self).state == path@.last(),
    {
        let ghost es = self.edges();
        let ghost sim = self.simulating();
        let mut path: Vec<State> = Vec::new();
        path.push(self.state);
        let mut i: usize = 0;
        while i < outcomes.len()
            invariant
                self.wf(),
                self.edges() == es,
                es == old(self).edges(),
                self.simulating() == sim,
                sim == old(self).simulating(),
                self.disk == old(self).disk,
                i <= outcomes@.len(),
                path@.len() == i + 1,
                path@[0] == old(self).state,
                path@.last() == self.state,
                forall|k: int|
                    #![trigger path@[k + 1]]
                    0 <= k < path@.len() - 1 ==> step_of(es, path@[k], sim, outcomes@[k]) == Some(
                        path@[k + 1],
                    ),
            decreases outcomes@.len() - i,
        {
            let ghost before = path@;
            let moved = self.step(&outcomes[i]);
            if !moved {
                return path;
            }
            path.push(self.state);
            proof {
                assert forall|k: int|
                    #![trigger path@[k + 1]]
                    0 <= k < path@.len() - 1 implies step_of(es, path@[k], sim, outcomes@[k])
                    == Some(path@[k + 1]) by {
                    if k < before.len() - 1 {
                        assert(path@[k + 1] == before[k + 1]);
                    }
                }
            }
            i = i + 1;
        }
        path
    }

    /// The transition table as states and actions, in declaration order.
    pub fn transitions(&self) -> (r: Vec<(State, State, ActionTag)>)
        requires
            self.wf(),
        ensures
            r@.len() == self.edges().len(),
            forall|i: int| 0 <= i < r@.len() ==> r@[i] == decode(#[trigger] self.edges()[i]),
    {
        let all = graph_all_edges(&self.graph);
        let mut r: Vec<(State, State, ActionTag)> = Vec::new();
        let mut i: usize = 0;
        while i < all.len()
            invariant
                all@ == self.edges(),
                self.wf(),
                i <= all@.len(),
                r@.len() == i,
                forall|k: int| 0 <= k < i ==> r@[k] == decode(#[trigger] self.edges()[k]),
            decreases all@.len() - i,
        {
            let (f, t, a) = all[i];
            assert(all@[i as int] == self.edges()[i as int]);
            match (State::from_code(f), State::from_code(t), ActionTag::from_code(a)) {
                (Some(x), Some(y), Some(z)) => r.push((x, y, z)),
                _ => {
                    assert(false);
                },
            }
            i = i + 1;
        }
        r
    }
}

} // verus!

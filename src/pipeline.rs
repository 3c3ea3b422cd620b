use vstd::prelude::*;

use crate::address::{candidates_for, opt_view, resolve};
use crate::command::BuildMode;
use crate::config::DeployConfig;

verus! {

/// How long a probe of one candidate may take, in seconds.
pub const PROBE_TIMEOUT_SECS: u64 = 2;

/// Where the pipeline stands.
#[derive(Clone, Copy, Debug, PartialEq, Eq, Structural)]
pub enum Stage {
    Idle,
    Building,
    Discovering,
    Transferring,
    Executing,
    Succeeded,
    Failed,
}

/// The stage at which a deploy failed.
#[derive(Clone, Copy, Debug, PartialEq, Eq, Structural)]
pub enum DeployError {
    /// The toolchain exited with a non-zero status.
    Build,
    /// No candidate answered within its timeout.
    Discovery,
    /// A copy to the controller exited with a non-zero status.
    Transfer,
    /// The bootstrap script exited with a non-zero status.
    Execution,
}

/// What the outside world reports back to the pipeline.
#[derive(Clone, Copy, Debug, PartialEq, Eq, Structural)]
pub enum Event {
    /// The operator asks for a deploy.
    Start,
    /// The build finished; `true` when the toolchain exited with status 0.
    Built(bool),
    /// The probe of the current candidate finished; `true` when it answered in time.
    Probed(bool),
    /// The current copy finished; `true` when it exited with status 0.
    Copied(bool),
    /// The bootstrap script finished; `true` when it exited with status 0.
    Ran(bool),
}

/// What the pipeline asks the outside world to do next.
#[derive(Clone, Debug)]
pub enum Action {
    /// Cross-compile the project.
    Build(BuildMode),
    /// Test whether `addr` answers, waiting at most `timeout_secs`.
    Probe { addr: String, timeout_secs: u64 },
    /// Copy the bootstrap script to the controller at `addr`.
    CopyScript(String),
    /// Copy the artifact to the controller at `addr`.
    CopyArtifact(String),
    /// Run the copied bootstrap script on the controller at `addr`.
    Execute(String),
    /// The deploy finished on the controller at `addr`.
    Succeed(String),
    /// The deploy failed.
    Fail(DeployError),
    /// Nothing to do: the event did not belong to the current stage.
    Wait,
}

/// An action, with addresses as character sequences.
pub enum Step {
    Build(BuildMode),
    Probe(Seq<char>, nat),
    CopyScript(Seq<char>),
    CopyArtifact(Seq<char>),
    Execute(Seq<char>),
    Succeed(Seq<char>),
    Fail(DeployError),
    Wait,
}

impl View for Action {
    type V = Step;

    open spec fn view(&self) -> Step {
        match self {
            Action::Build(m) => Step::Build(*m),
            Action::Probe { addr, timeout_secs } => Step::Probe(addr@, *timeout_secs as nat),
            Action::CopyScript(a) => Step::CopyScript(a@),
            Action::CopyArtifact(a) => Step::CopyArtifact(a@),
            Action::Execute(a) => Step::Execute(a@),
            Action::Succeed(a) => Step::Succeed(a@),
            Action::Fail(e) => Step::Fail(*e),
            Action::Wait => Step::Wait,
        }
    }
}

/// The state of a deploy, with addresses as character sequences.
pub struct DeployState {
    pub stage: Stage,
    pub mode: BuildMode,
    pub timeout: nat,
    pub candidates: Seq<Seq<char>>,
    /// The candidate being probed.
    pub next: nat,
    /// The candidate that answered.
    pub target: Option<Seq<char>>,
    /// How many of the two copies have completed.
    pub copied: nat,
    pub failure: Option<DeployError>,
}

/// The state before a deploy with `mode` over `candidates` begins.
pub open spec fn initial(mode: BuildMode, timeout: nat, candidates: Seq<Seq<char>>) -> DeployState {
    DeployState {
        stage: Stage::Idle,
        mode,
        timeout,
        candidates,
        next: 0,
        target: None,
        copied: 0,
        failure: None,
    }
}

pub open spec fn fail(s: DeployState, e: DeployError) -> (DeployState, Step) {
    (DeployState { stage: Stage::Failed, failure: Some(e), ..s }, Step::Fail(e))
}

/// The transition of the pipeline on one event.
pub open spec fn transition(s: DeployState, e: Event) -> (DeployState, Step) {
    match (s.stage, e) {
        (Stage::Idle, Event::Start) => (DeployState { stage: Stage::Building, ..s }, Step::Build(s.mode)),
        (Stage::Building, Event::Built(ok)) => if !ok {
            fail(s, DeployError::Build)
        } else if s.candidates.len() == 0 {
            fail(s, DeployError::Discovery)
        } else {
            (
                DeployState { stage: Stage::Discovering, next: 0, ..s },
                Step::Probe(s.candidates[0], s.timeout),
            )
        },
        (Stage::Discovering, Event::Probed(ok)) => if ok {
            (
                DeployState {
                    stage: Stage::Transferring,
                    target: Some(s.candidates[s.next as int]),
                    copied: 0,
                    ..s
                },
                Step::CopyScript(s.candidates[s.next as int]),
            )
        } else if s.next + 1 < s.candidates.len() {
            (
                DeployState { next: s.next + 1, ..s },
                Step::Probe(s.candidates[s.next + 1 as int], s.timeout),
            )
        } else {
            fail(s, DeployError::Discovery)
        },
        (Stage::Transferring, Event::Copied(ok)) => if !ok {
            fail(s, DeployError::Transfer)
        } else if s.copied == 0 {
            (DeployState { copied: 1, ..s }, Step::CopyArtifact(s.target->0))
        } else {
            (DeployState { stage: Stage::Executing, copied: 2, ..s }, Step::Execute(s.target->0))
        },
        (Stage::Executing, Event::Ran(ok)) => if ok {
            (DeployState { stage: Stage::Succeeded, ..s }, Step::Succeed(s.target->0))
        } else {
            fail(s, DeployError::Execution)
        },
        _ => (s, Step::Wait),
    }
}

/// The consistency of a state: the candidate being probed exists, and a
/// target is held exactly from the transfer on, and it is one of the candidates.
pub open spec fn state_wf(s: DeployState) -> bool {
    &&& (s.stage == Stage::Discovering ==> s.next < s.candidates.len())
    &&& (s.stage == Stage::Transferring ==> s.copied < 2)
    &&& (s.stage == Stage::Transferring || s.stage == Stage::Executing || s.stage
        == Stage::Succeeded) ==> s.target is Some && s.next < s.candidates.len() && s.target->0
        == s.candidates[s.next as int]
    &&& (s.stage == Stage::Failed <==> s.failure is Some)
}

/// The steps and the final state of a run of `events` from `s`.
pub open spec fn run(s: DeployState, events: Seq<Event>) -> (DeployState, Seq<Step>)
    decreases events.len(),
{
    if events.len() == 0 {
        (s, seq![])
    } else {
        let (s1, a) = transition(s, events[0]);
        let (s2, rest) = run(s1, events.drop_first());
        (s2, seq![a] + rest)
    }
}

/// `k` probe reports in which the candidate did not answer.
pub open spec fn unanswered(k: nat) -> Seq<Event> {
    Seq::new(k, |i: int| Event::Probed(false))
}

/// The probes of the candidates from index `from` on, in order.
pub open spec fn probes_from(candidates: Seq<Seq<char>>, from: nat, timeout: nat) -> Seq<Step> {
    Seq::new((candidates.len() - from) as nat, |i: int| Step::Probe(candidates[from + i], timeout))
}

pub open spec fn past_discovery(s: DeployState) -> bool {
    s.stage == Stage::Transferring || s.stage == Stage::Executing || s.stage == Stage::Succeeded
        || s.stage == Stage::Failed
}

/// Discovery ends for good: once a target was found, or the deploy failed,
/// no event leads to another probe.
pub proof fn lemma_no_probe_after_discovery(s: DeployState, events: Seq<Event>)
    requires
        past_discovery(s),
    ensures
        forall|i: int| 0 <= i < run(s, events).1.len() ==> !(#[trigger] run(s, events).1[i] is Probe),
        past_discovery(run(s, events).0),
    decreases events.len(),
{
    if events.len() > 0 {
        let (s1, a) = transition(s, events[0]);
        lemma_no_probe_after_discovery(s1, events.drop_first());
        let rest = run(s1, events.drop_first()).1;
        assert forall|i: int| 0 <= i < run(s, events).1.len() implies !(#[trigger] run(
            s,
            events,
        ).1[i] is Probe) by {
            if i > 0 {
                assert(run(s, events).1[i] == rest[i - 1]);
            }
        }
    }
}

/// When only the second candidate answers, the pipeline probes the first
/// and the second, in that order, and goes on to copy the bootstrap script to
/// the second; whatever comes after, it never probes again.
pub proof fn lemma_second_candidate_reachable(
    mode: BuildMode,
    timeout: nat,
    candidates: Seq<Seq<char>>,
    later: Seq<Event>,
)
    requires
        candidates.len() >= 2,
    ensures
        ({
            let (s, steps) = run(
                initial(mode, timeout, candidates),
                seq![Event::Start, Event::Built(true), Event::Probed(false), Event::Probed(true)],
            );
            &&& steps == seq![
                Step::Build(mode),
                Step::Probe(candidates[0], timeout),
                Step::Probe(candidates[1], timeout),
                Step::CopyScript(candidates[1]),
            ]
            &&& s.stage == Stage::Transferring
            &&& s.target == Some(candidates[1])
            &&& s.copied == 0
            &&& s.failure is None
            &&& forall|i: int|
                0 <= i < run(s, later).1.len() ==> !(#[trigger] run(s, later).1[i] is Probe)
        }),
{
    let events = seq![Event::Start, Event::Built(true), Event::Probed(false), Event::Probed(true)];
    let s0 = initial(mode, timeout, candidates);
    let (s1, a1) = transition(s0, events[0]);
    let (s2, a2) = transition(s1, events[1]);
    let (s3, a3) = transition(s2, events[2]);
    let (s4, a4) = transition(s3, events[3]);
    let e1 = events.drop_first();
    let e2 = e1.drop_first();
    let e3 = e2.drop_first();
    let e4 = e3.drop_first();
    assert(e1[0] == events[1]);
    assert(e2[0] == events[2]);
    assert(e3[0] == events[3]);
    assert(e4.len() == 0);
    assert(run(s4, e4) == (s4, Seq::<Step>::empty()));
    assert(run(s3, e3) == (s4, seq![a4] + Seq::<Step>::empty()));
    assert(run(s2, e2) == (s4, seq![a3] + (seq![a4] + Seq::<Step>::empty())));
    assert(run(s1, e1) == (s4, seq![a2] + (seq![a3] + (seq![a4] + Seq::<Step>::empty()))));
    assert(run(s0, events).1 =~= seq![a1, a2, a3, a4]);
    lemma_no_probe_after_discovery(s4, later);
}

proof fn lemma_run_append(s: DeployState, a: Seq<Event>, b: Seq<Event>)
    ensures
        run(s, a + b) == (run(run(s, a).0, b).0, run(s, a).1 + run(run(s, a).0, b).1),
    decreases a.len(),
{
    if a.len() == 0 {
        assert(a + b =~= b);
        assert(run(s, a).1 + run(s, b).1 =~= run(s, b).1);
    } else {
        let (s1, x) = transition(s, a[0]);
        assert((a + b)[0] == a[0]);
        assert((a + b).drop_first() =~= a.drop_first() + b);
        lemma_run_append(s1, a.drop_first(), b);
        let m = run(s1, a.drop_first()).0;
        assert(run(s, a).0 == m);
        assert(seq![x] + (run(s1, a.drop_first()).1 + run(m, b).1) =~= (seq![x] + run(
            s1,
            a.drop_first(),
        ).1) + run(m, b).1);
    }
}

/// When only the second candidate answers and both copies and the run
/// succeed, the deploy ends in success on the second candidate: it probes the
/// first two candidates, copies the script, then the artifact, and runs the
/// script, all on the second, and nothing else.
pub proof fn lemma_second_candidate_deploys(
    mode: BuildMode,
    timeout: nat,
    candidates: Seq<Seq<char>>,
)
    requires
        candidates.len() >= 2,
    ensures
        ({
            let (s, steps) = run(
                initial(mode, timeout, candidates),
                seq![
                    Event::Start,
                    Event::Built(true),
                    Event::Probed(false),
                    Event::Probed(true),
                    Event::Copied(true),
                    Event::Copied(true),
                    Event::Ran(true),
                ],
            );
            &&& steps == seq![
                Step::Build(mode),
                Step::Probe(candidates[0], timeout),
                Step::Probe(candidates[1], timeout),
                Step::CopyScript(candidates[1]),
                Step::CopyArtifact(candidates[1]),
                Step::Execute(candidates[1]),
                Step::Succeed(candidates[1]),
            ]
            &&& s.stage == Stage::Succeeded
            &&& s.target == Some(candidates[1])
            &&& s.failure is None
        }),
{
    let first = seq![Event::Start, Event::Built(true), Event::Probed(false), Event::Probed(true)];
    let last = seq![Event::Copied(true), Event::Copied(true), Event::Ran(true)];
    let s0 = initial(mode, timeout, candidates);
    lemma_second_candidate_reachable(mode, timeout, candidates, last);
    lemma_run_append(s0, first, last);
    assert(first + last =~= seq![
        Event::Start,
        Event::Built(true),
        Event::Probed(false),
        Event::Probed(true),
        Event::Copied(true),
        Event::Copied(true),
        Event::Ran(true),
    ]);
    let s4 = run(s0, first).0;
    let (s5, a5) = transition(s4, last[0]);
    let (s6, a6) = transition(s5, last[1]);
    let (s7, a7) = transition(s6, last[2]);
    let l1 = last.drop_first();
    let l2 = l1.drop_first();
    let l3 = l2.drop_first();
    assert(l1[0] == last[1]);
    assert(l2[0] == last[2]);
    assert(l3.len() == 0);
    assert(run(s7, l3) == (s7, Seq::<Step>::empty()));
    assert(run(s6, l2) == (s7, seq![a7] + Seq::<Step>::empty()));
    assert(run(s5, l1) == (s7, seq![a6] + (seq![a7] + Seq::<Step>::empty())));
    assert(run(s4, last).0 == s7);
    assert(run(s4, last).1 =~= seq![a5, a6, a7]);
    assert(run(s0, first + last).1 =~= seq![
        Step::Build(mode),
        Step::Probe(candidates[0], timeout),
        Step::Probe(candidates[1], timeout),
        Step::CopyScript(candidates[1]),
        Step::CopyArtifact(candidates[1]),
        Step::Execute(candidates[1]),
        Step::Succeed(candidates[1]),
    ]);
}

/// While discovering at candidate `s.next`, if no further candidate answers,
/// the pipeline probes each remaining candidate once, in order, then fails
/// at discovery.
pub proof fn lemma_unanswered_from(s: DeployState)
    requires
        s.stage == Stage::Discovering,
        s.next < s.candidates.len(),
    ensures
        ({
            let (f, steps) = run(s, unanswered((s.candidates.len() - s.next) as nat));
            &&& steps == probes_from(s.candidates, s.next + 1, s.timeout) + seq![
                Step::Fail(DeployError::Discovery),
            ]
            &&& f.stage == Stage::Failed
            &&& f.failure == Some(DeployError::Discovery)
            &&& f.target is None <==> s.target is None
        }),
    decreases s.candidates.len() - s.next,
{
    let k = (s.candidates.len() - s.next) as nat;
    let events = unanswered(k);
    let (s1, a) = transition(s, events[0]);
    assert(events.drop_first() =~= unanswered((k - 1) as nat));
    if s.next + 1 < s.candidates.len() {
        lemma_unanswered_from(s1);
        let rest = run(s1, unanswered((k - 1) as nat)).1;
        assert(run(s, events).0 == run(s1, unanswered((k - 1) as nat)).0);
        assert(run(s, events).1 =~= seq![a] + rest);
        assert(seq![a] + probes_from(s.candidates, s.next + 2, s.timeout) =~= probes_from(
            s.candidates,
            s.next + 1,
            s.timeout,
        ));
        assert(run(s, events).1 =~= probes_from(s.candidates, s.next + 1, s.timeout) + seq![
            Step::Fail(DeployError::Discovery),
        ]);
    } else {
        assert(events.drop_first().len() == 0);
        assert(run(s1, events.drop_first()) == (s1, Seq::<Step>::empty()));
        assert(run(s, events).0 == s1);
        assert(run(s, events).1 =~= seq![a]);
        assert(probes_from(s.candidates, s.next + 1, s.timeout) =~= Seq::<Step>::empty());
        assert(run(s, events).1 =~= probes_from(s.candidates, s.next + 1, s.timeout) + seq![
            Step::Fail(DeployError::Discovery),
        ]);
    }
}

/// When no candidate answers, the pipeline probes every candidate exactly
/// once, in order, each with the same timeout, and then fails at discovery
/// without copying or running anything.
pub proof fn lemma_no_candidate_reachable(mode: BuildMode, timeout: nat, candidates: Seq<Seq<char>>)
    requires
        candidates.len() >= 1,
    ensures
        ({
            let (f, steps) = run(
                initial(mode, timeout, candidates),
                seq![Event::Start, Event::Built(true)] + unanswered(candidates.len()),
            );
            &&& steps == seq![Step::Build(mode)] + probes_from(candidates, 0, timeout) + seq![
                Step::Fail(DeployError::Discovery),
            ]
            &&& f.stage == Stage::Failed
            &&& f.failure == Some(DeployError::Discovery)
            &&& f.target is None
        }),
{
    let events = seq![Event::Start, Event::Built(true)] + unanswered(candidates.len());
    let s0 = initial(mode, timeout, candidates);
    let (s1, a1) = transition(s0, events[0]);
    let (s2, a2) = transition(s1, events[1]);
    let e1 = events.drop_first();
    let e2 = e1.drop_first();
    assert(e1[0] == events[1]);
    assert(e2 =~= unanswered(candidates.len()));
    lemma_unanswered_from(s2);
    let rest = run(s2, e2).1;
    assert(run(s1, e1).1 == seq![a2] + rest);
    assert(run(s0, events).0 == run(s2, e2).0);
    assert(run(s0, events).1 == seq![a1] + (seq![a2] + rest));
    assert(seq![a2] + probes_from(candidates, 1, timeout) =~= probes_from(candidates, 0, timeout));
    assert(run(s0, events).1 =~= seq![Step::Build(mode)] + probes_from(candidates, 0, timeout)
        + seq![Step::Fail(DeployError::Discovery)]);
}

/// One deploy: the decisions of the pipeline, from the build to the restart
/// on the controller. The caller performs each action and reports its outcome.
pub struct Deployer {
    stage: Stage,
    mode: BuildMode,
    timeout_secs: u64,
    candidates: Vec<String>,
    next: usize,
    target: Option<String>,
    copied: usize,
    failure: Option<DeployError>,
}

impl View for Deployer {
    type V = DeployState;

    closed spec fn view(&self) -> DeployState {
        DeployState {
            stage: self.stage,
            mode: self.mode,
            timeout: self.timeout_secs as nat,
            candidates: self.candidates.deep_view(),
            next: self.next as nat,
            target: opt_view(self.target),
            copied: self.copied as nat,
            failure: self.failure,
        }
    }
}

impl Deployer {
    pub open spec fn wf(&self) -> bool {
        state_wf(self@)
    }

    /// A deploy in `mode` to the controller of `config`, probing each
    /// candidate for at most `timeout_secs`.
    pub fn new(config: &DeployConfig, mode: BuildMode, timeout_secs: u64) -> (r: Deployer)
        ensures
            r@ == initial(
                mode,
                timeout_secs as nat,
                candidates_for(config.team as nat, opt_view(config.rio_ip)),
            ),
            r.wf(),
    {
        let cands = resolve(config.team, config.rio_ip.clone());
        Deployer {
            stage: Stage::Idle,
            mode,
            timeout_secs,
            candidates: cands,
            next: 0,
            target: None,
            copied: 0,
            failure: None,
        }
    }

    /// A deploy in `mode` over the given candidates, in order of preference.
    pub fn with_candidates(candidates: Vec<String>, mode: BuildMode, timeout_secs: u64) -> (r:
        Deployer)
        ensures
            r@ == initial(mode, timeout_secs as nat, candidates.deep_view()),
            r.wf(),
    {
        Deployer {
            stage: Stage::Idle,
            mode,
            timeout_secs,
            candidates,
            next: 0,
            target: None,
            copied: 0,
            failure: None,
        }
    }

    pub fn stage(&self) -> (r: Stage)
        ensures
            r == self@.stage,
    {
        self.stage
    }

    pub fn failure(&self) -> (r: Option<DeployError>)
        ensures
            r == self@.failure,
    {
        self.failure
    }

    /// The candidate that answered, once one has.
    pub fn target(&self) -> (r: Option<String>)
        ensures
            opt_view(r) == self@.target,
    {
        self.target.clone()
    }

    /// The candidates, in the order in which they are probed.
    pub fn candidates(&self) -> (r: &Vec<String>)
        ensures
            r.deep_view() == self@.candidates,
    {
        &self.candidates
    }

    fn fail_with(&mut self, e: DeployError) -> (r: Action)
        ensures
            (final(self)@, r@) == fail(old(self)@, e),
    {
        self.stage = Stage::Failed;
        self.failure = Some(e);
        Action::Fail(e)
    }

    /// Takes the outcome of the last action and decides the next one.
    pub fn step(&mut self, e: Event) -> (r: Action)
        requires
            old(self).wf(),
        ensures
            (final(self)@, r@) == transition(old(self)@, e),
            final(self).wf(),
    {
        match (self.stage, e) {
            (Stage::Idle, Event::Start) => {
                self.stage = Stage::Building;
                Action::Build(self.mode)
            },
            (Stage::Building, Event::Built(ok)) => {
                if !ok {
                    self.fail_with(DeployError::Build)
                } else if self.candidates.len() == 0 {
                    self.fail_with(DeployError::Discovery)
                } else {
                    self.stage = Stage::Discovering;
                    self.next = 0;
                    Action::Probe { addr: self.candidates[0].clone(), timeout_secs: self.timeout_secs }
                }
            },
            (Stage::Discovering, Event::Probed(ok)) => {
                assert(self.candidates.deep_view().len() == self.candidates@.len());
                assert(self.next < self.candidates.len());
                if ok {
                    let t = self.candidates[self.next].clone();
                    self.stage = Stage::Transferring;
                    self.target = Some(t.clone());
                    self.copied = 0;
                    Action::CopyScript(t)
                } else if self.next + 1 < self.candidates.len() {
                    self.next = self.next + 1;
                    Action::Probe {
                        addr: self.candidates[self.next].clone(),
                        timeout_secs: self.timeout_secs,
                    }
                } else {
                    self.fail_with(DeployError::Discovery)
                }
            },
            (Stage::Transferring, Event::Copied(ok)) => {
                let t = self.target.clone().unwrap();
                if !ok {
                    self.fail_with(DeployError::Transfer)
                } else if self.copied == 0 {
                    self.copied = 1;
                    Action::CopyArtifact(t)
                } else {
                    self.stage = Stage::Executing;
                    self.copied = 2;
                    Action::Execute(t)
                }
            },
            (Stage::Executing, Event::Ran(ok)) => {
                let t = self.target.clone().unwrap();
                if ok {
                    self.stage = Stage::Succeeded;
                    Action::Succeed(t)
                } else {
                    self.fail_with(DeployError::Execution)
                }
            },
            _ => Action::Wait,
        }
    }
}

} // verus!

//! The run as a state machine: from the current state and what just
//! happened to the next state and what to do now.

use vstd::prelude::*;
use crate::call::CallDescriptor;
use crate::outcome::{classify, outcome_of, Criterion, Outcome, Response};

verus! {

/// What the run does after a call has failed.
#[derive(Clone, Copy, Debug, PartialEq, Eq)]
pub enum Mode {
    /// Every call is issued, whatever the earlier ones did.
    CollectAll,
    /// The first failed call ends the run.
    FailFast,
}

/// Where the run stands.
#[derive(Clone, Copy, Debug, PartialEq, Eq)]
pub enum Phase {
    /// Nothing has been asked for yet.
    Idle,
    /// A sandbox has been asked for.
    Provisioning,
    /// The artifact is being read.
    Reading,
    /// The artifact is being deployed.
    Deploying,
    /// A call is outstanding: the one whose index is the number of outcomes recorded.
    Calling,
    /// The run is over.
    Done,
}

/// An error of the setup that ends the run before any call.
#[derive(Clone, Debug, PartialEq, Eq)]
pub enum Fatal {
    Provisioning { error: String },
    MissingArtifact { error: String },
    Deployment { error: String },
}

/// What the driver reports back to the runner.
#[derive(Clone, Debug, PartialEq, Eq)]
pub enum Event {
    /// The driver is ready to begin.
    Start,
    Provisioned,
    ProvisionFailed { error: String },
    ArtifactRead { bytes: Vec<u8> },
    ArtifactMissing { error: String },
    Deployed,
    DeployRejected { error: String },
    /// The outstanding call has come back.
    CallDone { response: Response },
}

/// What the runner asks the driver to do next.
#[derive(Clone, Debug, PartialEq, Eq)]
pub enum Action {
    /// Acquire a sandbox.
    Provision,
    /// Read the artifact from its path.
    ReadArtifact,
    /// Deploy these bytes to the sandbox.
    Deploy { artifact: Vec<u8> },
    /// Issue the call at this position of the sequence and wait for it.
    Issue { index: usize },
    /// The sequence is over: report the recorded outcomes.
    Report,
    /// The setup failed: give up with the recorded fatal error.
    Abort,
    /// The event does not belong to the current phase and was ignored.
    Nothing,
}

/// How a run ended.
#[derive(Clone, Debug, PartialEq, Eq)]
pub enum RunResult {
    /// The setup failed and no call was issued.
    Aborted { fatal: Fatal },
    /// The calls were issued; these are their outcomes, in order. In a
    /// fail-fast run the last of them may be a failure that cut the
    /// sequence short.
    Finished { outcomes: Vec<Outcome> },
}

/// The runner as a mathematical value.
pub struct State {
    pub mode: Mode,
    pub criterion: Criterion,
    pub calls: Seq<CallDescriptor>,
    pub phase: Phase,
    pub outcomes: Seq<Outcome>,
    pub fatal: Option<Fatal>,
}

/// A run of `calls` under `mode` and `criterion`, before anything has happened.
pub open spec fn initial(mode: Mode, criterion: Criterion, calls: Seq<CallDescriptor>) -> State {
    State { mode, criterion, calls, phase: Phase::Idle, outcomes: Seq::empty(), fatal: None }
}

/// The state after the setup has failed with `fatal`.
pub open spec fn aborted(s: State, fatal: Fatal) -> State {
    State { phase: Phase::Done, fatal: Some(fatal), ..s }
}

/// Whether the run ends once `outcome` has been recorded as the
/// `recorded`-th outcome: on a failure in fail-fast mode, or after the last
/// call.
pub open spec fn ends_after(s: State, outcome: Outcome, recorded: nat) -> bool {
    (s.mode is FailFast && outcome is Failure) || recorded >= s.calls.len()
}

/// The state and action after the outstanding call has been judged as `outcome`.
pub open spec fn after_outcome(s: State, outcome: Outcome) -> (State, Action) {
    let outcomes = s.outcomes.push(outcome);
    if ends_after(s, outcome, outcomes.len()) {
        (State { phase: Phase::Done, outcomes, ..s }, Action::Report)
    } else {
        (State { outcomes, ..s }, Action::Issue { index: outcomes.len() as usize })
    }
}

/// The transition function: the state that follows `s` on `event`, and the
/// action asked of the driver. An event that does not belong to the phase
/// changes nothing.
pub open spec fn next(s: State, event: Event) -> (State, Action) {
    match (s.phase, event) {
        (Phase::Idle, Event::Start) => (
            State { phase: Phase::Provisioning, ..s },
            Action::Provision,
        ),
        (Phase::Provisioning, Event::Provisioned) => (
            State { phase: Phase::Reading, ..s },
            Action::ReadArtifact,
        ),
        (Phase::Provisioning, Event::ProvisionFailed { error }) => (
            aborted(s, Fatal::Provisioning { error }),
            Action::Abort,
        ),
        (Phase::Reading, Event::ArtifactRead { bytes }) => (
            State { phase: Phase::Deploying, ..s },
            Action::Deploy { artifact: bytes },
        ),
        (Phase::Reading, Event::ArtifactMissing { error }) => (
            aborted(s, Fatal::MissingArtifact { error }),
            Action::Abort,
        ),
        (Phase::Deploying, Event::Deployed) => if s.calls.len() == 0 {
            (State { phase: Phase::Done, ..s }, Action::Report)
        } else {
            (State { phase: Phase::Calling, ..s }, Action::Issue { index: 0 })
        },
        (Phase::Deploying, Event::DeployRejected { error }) => (
            aborted(s, Fatal::Deployment { error }),
            Action::Abort,
        ),
        (Phase::Calling, Event::CallDone { response }) => after_outcome(
            s,
            outcome_of(s.criterion, response),
        ),
        _ => (s, Action::Nothing),
    }
}

impl State {
    /// The number of calls issued so far.
    pub open spec fn issued(self) -> nat {
        match self.phase {
            Phase::Calling => self.outcomes.len() + 1,
            _ => self.outcomes.len(),
        }
    }

    /// What holds of every state a run can reach: outcomes are recorded only
    /// for calls of the sequence, a call is outstanding only while one is
    /// left, a fatal error ends the run with nothing recorded, only a
    /// fail-fast run ends early, and then on a failure.
    pub open spec fn wf(self) -> bool {
        &&& self.outcomes.len() <= self.calls.len()
        &&& self.calls.len() <= usize::MAX
        &&& match self.phase {
            Phase::Idle | Phase::Provisioning | Phase::Reading | Phase::Deploying => {
                self.outcomes.len() == 0 && self.fatal is None
            },
            Phase::Calling => self.outcomes.len() < self.calls.len() && self.fatal is None,
            Phase::Done => {
                self.fatal is Some ==> self.outcomes.len() == 0
            },
        }
        &&& (self.mode is FailFast ==> forall|i: int|
            0 <= i < self.outcomes.len() - 1 ==> #[trigger] self.outcomes[i] is Success)
        &&& (self.phase is Calling && self.mode is FailFast ==> forall|i: int|
            0 <= i < self.outcomes.len() ==> #[trigger] self.outcomes[i] is Success)
        &&& (self.phase is Done && self.fatal is None && self.outcomes.len() < self.calls.len()
            ==> self.mode is FailFast && self.outcomes.len() > 0 && self.outcomes.last() is Failure)
    }
}

/// The planner of one run. It holds the call sequence, the policy, and what
/// has been recorded so far.
#[derive(Clone, Debug)]
pub struct Runner {
    mode: Mode,
    criterion: Criterion,
    calls: Vec<CallDescriptor>,
    phase: Phase,
    outcomes: Vec<Outcome>,
    fatal: Option<Fatal>,
}

impl View for Runner {
    type V = State;

    closed spec fn view(&self) -> State {
        State {
            mode: self.mode,
            criterion: self.criterion,
            calls: self.calls@,
            phase: self.phase,
            outcomes: self.outcomes@,
            fatal: self.fatal,
        }
    }
}

impl Runner {
    /// A runner for `calls`, in order, with nothing done yet.
    pub fn new(mode: Mode, criterion: Criterion, calls: Vec<CallDescriptor>) -> (runner: Runner)
        ensures
            runner@ == initial(mode, criterion, calls@),
            runner@.wf(),
    {
        let outcomes: Vec<Outcome> = Vec::with_capacity(calls.len());
        Runner { mode, criterion, calls, phase: Phase::Idle, outcomes, fatal: None }
    }

    /// Takes in what just happened and says what to do next.
    pub fn step(&mut self, event: Event) -> (action: Action)
        ensures
            final(self)@ == next(old(self)@, event).0,
            action == next(old(self)@, event).1,
            old(self)@.wf() ==> final(self)@.wf(),
            action matches Action::Issue { index } ==> index < final(self)@.calls.len(),
    {
        match self.phase {
            Phase::Idle => match event {
                Event::Start => {
                    self.phase = Phase::Provisioning;
                    Action::Provision
                },
                _ => Action::Nothing,
            },
            Phase::Provisioning => match event {
                Event::Provisioned => {
                    self.phase = Phase::Reading;
                    Action::ReadArtifact
                },
                Event::ProvisionFailed { error } => {
                    self.phase = Phase::Done;
                    self.fatal = Some(Fatal::Provisioning { error });
                    Action::Abort
                },
                _ => Action::Nothing,
            },
            Phase::Reading => match event {
                Event::ArtifactRead { bytes } => {
                    self.phase = Phase::Deploying;
                    Action::Deploy { artifact: bytes }
                },
                Event::ArtifactMissing { error } => {
                    self.phase = Phase::Done;
                    self.fatal = Some(Fatal::MissingArtifact { error });
                    Action::Abort
                },
                _ => Action::Nothing,
            },
            Phase::Deploying => match event {
                Event::Deployed => {
                    if self.calls.len() == 0 {
                        self.phase = Phase::Done;
                        Action::Report
                    } else {
                        self.phase = Phase::Calling;
                        Action::Issue { index: 0 }
                    }
                },
                Event::DeployRejected { error } => {
                    self.phase = Phase::Done;
                    self.fatal = Some(Fatal::Deployment { error });
                    Action::Abort
                },
                _ => Action::Nothing,
            },
            Phase::Calling => match event {
                Event::CallDone { response } => {
                    let outcome = classify(self.criterion, response);
                    let failed = !outcome.is_success();
                    self.outcomes.push(outcome);
                    let recorded: usize = self.outcomes.len();
                    let stop = match self.mode {
                        Mode::FailFast => failed,
                        Mode::CollectAll => false,
                    };
                    if stop || recorded >= self.calls.len() {
                        self.phase = Phase::Done;
                        Action::Report
                    } else {
                        Action::Issue { index: recorded }
                    }
                },
                _ => Action::Nothing,
            },
            Phase::Done => Action::Nothing,
        }
    }

    /// Where the run stands.
    pub fn phase(&self) -> (phase: Phase)
        ensures
            phase == self@.phase,
    {
        self.phase
    }

    /// The policy on failed calls.
    pub fn mode(&self) -> (mode: Mode)
        ensures
            mode == self@.mode,
    {
        self.mode
    }

    /// How completed calls are judged.
    pub fn criterion(&self) -> (criterion: Criterion)
        ensures
            criterion == self@.criterion,
    {
        self.criterion
    }

    /// Whether the run is over.
    pub fn is_done(&self) -> (done: bool)
        ensures
            done == (self@.phase is Done),
    {
        match self.phase {
            Phase::Done => true,
            _ => false,
        }
    }

    /// The call sequence.
    pub fn calls(&self) -> (calls: &Vec<CallDescriptor>)
        ensures
            calls@ == self@.calls,
    {
        &self.calls
    }

    /// The call at `index` of the sequence, if there is one.
    pub fn call(&self, index: usize) -> (call: Option<&CallDescriptor>)
        ensures
            index < self@.calls.len() ==> call == Some(&self@.calls[index as int]),
            index >= self@.calls.len() ==> call is None,
    {
        if index < self.calls.len() {
            Some(&self.calls[index])
        } else {
            None
        }
    }

    /// The outcomes recorded so far, in the order of the calls.
    pub fn outcomes(&self) -> (outcomes: &Vec<Outcome>)
        ensures
            outcomes@ == self@.outcomes,
    {
        &self.outcomes
    }

    /// The setup error that ended the run, if one did.
    pub fn fatal(&self) -> (fatal: &Option<Fatal>)
        ensures
            *fatal == self@.fatal,
    {
        &self.fatal
    }

    /// How the run ended; `None` while it is not over.
    pub fn into_result(self) -> (result: Option<RunResult>)
        ensures
            !(self@.phase is Done) ==> result is None,
            self@.phase is Done && self@.fatal is Some ==> result == Some(
                RunResult::Aborted { fatal: self@.fatal->0 },
            ),
            self@.phase is Done && self@.fatal is None ==> (result matches Some(
                RunResult::Finished { outcomes },
            ) && outcomes@ == self@.outcomes),
    {
        match self.phase {
            Phase::Done => match self.fatal {
                Some(fatal) => Some(RunResult::Aborted { fatal }),
                None => Some(RunResult::Finished { outcomes: self.outcomes }),
            },
            _ => None,
        }
    }

    /// Whether the process is to exit with success: always, unless the setup
    /// failed. Failed calls are reported and do not change the exit status.
    pub fn exits_successfully(&self) -> (ok: bool)
        ensures
            ok == (self@.fatal is None),
    {
        self.fatal.is_none()
    }
}

} // verus!

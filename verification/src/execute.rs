//! Executing a cycle's actions with per-action failure isolation.
//!
//! The store calls themselves are transport and live outside the library;
//! what is verified here is the bookkeeping around them: every decided
//! action is attempted exactly once, in order, each attempt yields exactly
//! one outcome, and a failed attempt neither stops the run nor disturbs the
//! outcomes of its neighbours. No action is retried and nothing is rolled
//! back.

use vstd::prelude::*;

use crate::addr::{Address, AddressFamily};
use crate::reconcile::{Action, ActionModel};
use crate::record::{Record, RecordModel};

verus! {

/// The kind of an action, for reporting.
#[derive(Clone, Copy, Debug, PartialEq, Eq, Structural)]
pub enum ActionKind {
    Create,
    Update,
    Delete,
}

impl ActionModel {
    /// The kind of an action.
    pub open spec fn kind(self) -> ActionKind {
        match self {
            ActionModel::Create(_) => ActionKind::Create,
            ActionModel::Update(_, _) => ActionKind::Update,
            ActionModel::Delete(_) => ActionKind::Delete,
        }
    }
}

impl Action {
    /// The kind of the action.
    pub fn kind(&self) -> (k: ActionKind)
        ensures
            k == self@.kind(),
    {
        match self {
            Action::Create(_) => ActionKind::Create,
            Action::Update(_, _) => ActionKind::Update,
            Action::Delete(_) => ActionKind::Delete,
        }
    }
}

/// What the store answered to one action: for a create or update, the
/// resulting record as the store returned it; for a delete, no record; or a
/// failure with its cause.
#[derive(Debug)]
pub enum StoreResponse {
    Succeeded(Option<Record>),
    Failed(String),
}

/// The mathematical value of a [`StoreResponse`].
pub enum StoreResponseModel {
    Succeeded(Option<RecordModel>),
    Failed(Seq<char>),
}

impl View for StoreResponse {
    type V = StoreResponseModel;

    open spec fn view(&self) -> StoreResponseModel {
        match self {
            StoreResponse::Succeeded(r) => StoreResponseModel::Succeeded(r.deep_view()),
            StoreResponse::Failed(cause) => StoreResponseModel::Failed(cause@),
        }
    }
}

/// Whether a response is of the shape the action's store call produces: a
/// successful create or update hands back the resulting record, a
/// successful delete hands back none, and any action can fail.
pub open spec fn spec_response_fits(action: ActionModel, response: StoreResponseModel) -> bool {
    match response {
        StoreResponseModel::Failed(_) => true,
        StoreResponseModel::Succeeded(returned) => match action {
            ActionModel::Create(_) => returned is Some,
            ActionModel::Update(_, _) => returned is Some,
            ActionModel::Delete(_) => returned is None,
        },
    }
}

/// The per-action log entry of a run.
#[derive(Debug, PartialEq)]
pub enum Outcome {
    /// A create or update succeeded; the resulting record's kind, family,
    /// content, TTL and proxying flag, as the store returned them.
    Applied { kind: ActionKind, family: AddressFamily, content: Address, ttl: u64, proxied: bool },
    /// A delete succeeded; the deleted record's family.
    Deleted { family: AddressFamily },
    /// The action's store call failed; the run went on with the next
    /// action.
    Failed { kind: ActionKind, family: AddressFamily, cause: String },
}

/// The mathematical value of an [`Outcome`].
pub enum OutcomeModel {
    Applied { kind: ActionKind, family: AddressFamily, content: Address, ttl: u64, proxied: bool },
    Deleted { family: AddressFamily },
    Failed { kind: ActionKind, family: AddressFamily, cause: Seq<char> },
}

impl View for Outcome {
    type V = OutcomeModel;

    open spec fn view(&self) -> OutcomeModel {
        match self {
            Outcome::Applied { kind, family, content, ttl, proxied } => OutcomeModel::Applied {
                kind: *kind,
                family: *family,
                content: *content,
                ttl: *ttl,
                proxied: *proxied,
            },
            Outcome::Deleted { family } => OutcomeModel::Deleted { family: *family },
            Outcome::Failed { kind, family, cause } => OutcomeModel::Failed {
                kind: *kind,
                family: *family,
                cause: cause@,
            },
        }
    }
}

impl DeepView for Outcome {
    type V = OutcomeModel;

    open spec fn deep_view(&self) -> OutcomeModel {
        self.view()
    }
}

/// The outcome one action and its response determine: a failure is logged
/// with the action's kind and family; a successful create or update is
/// logged with the returned record's fields; a successful delete with the
/// deleted record's family.
pub open spec fn spec_outcome(action: ActionModel, response: StoreResponseModel) -> OutcomeModel {
    match response {
        StoreResponseModel::Failed(cause) => OutcomeModel::Failed {
            kind: action.kind(),
            family: action.family(),
            cause,
        },
        StoreResponseModel::Succeeded(returned) => match action {
            ActionModel::Create(_) => OutcomeModel::Applied {
                kind: ActionKind::Create,
                family: returned->Some_0.family,
                content: returned->Some_0.content,
                ttl: returned->Some_0.ttl,
                proxied: returned->Some_0.proxied,
            },
            ActionModel::Update(_, _) => OutcomeModel::Applied {
                kind: ActionKind::Update,
                family: returned->Some_0.family,
                content: returned->Some_0.content,
                ttl: returned->Some_0.ttl,
                proxied: returned->Some_0.proxied,
            },
            ActionModel::Delete(rec) => OutcomeModel::Deleted { family: rec.family },
        },
    }
}

/// The mathematical value of an [`Execution`]: the actions it was given and
/// the outcomes gathered so far. Action `i`'s outcome is `outcomes[i]`; the
/// actions from `outcomes.len()` on are still to be attempted.
pub struct ExecutionModel {
    pub actions: Seq<ActionModel>,
    pub outcomes: Seq<OutcomeModel>,
}

/// One run over a cycle's decided actions. The driver asks for the next
/// action with [`Execution::next_action`], performs its store call, and
/// hands the response to [`Execution::record_response`]; whatever the
/// response was — failure included — the run moves to the next action, so
/// one action's failure cannot block another's execution.
#[derive(Debug)]
pub struct Execution {
    actions: Vec<Action>,
    outcomes: Vec<Outcome>,
}

impl View for Execution {
    type V = ExecutionModel;

    closed spec fn view(&self) -> ExecutionModel {
        ExecutionModel { actions: self.actions.deep_view(), outcomes: self.outcomes.deep_view() }
    }
}

impl Execution {
    /// Each attempted action has exactly one outcome, and none is attempted
    /// twice.
    pub closed spec fn wf(&self) -> bool {
        self.outcomes@.len() <= self.actions@.len()
    }

    /// Starts a run over the given actions, none attempted yet.
    pub fn begin(actions: Vec<Action>) -> (e: Execution)
        ensures
            e.wf(),
            e@.actions == actions.deep_view(),
            e@.outcomes == Seq::<OutcomeModel>::empty(),
    {
        let e = Execution { actions, outcomes: Vec::new() };
        proof {
            assert(e@.outcomes =~= Seq::<OutcomeModel>::empty());
        }
        e
    }

    /// The next action to attempt, or none when every action has its
    /// outcome.
    pub fn next_action(&self) -> (r: Option<&Action>)
        requires
            self.wf(),
        ensures
            r is Some <==> self@.outcomes.len() < self@.actions.len(),
            match r {
                Some(a) => a.deep_view() == self@.actions[self@.outcomes.len() as int],
                None => self@.outcomes.len() == self@.actions.len(),
            },
    {
        if self.outcomes.len() < self.actions.len() {
            Some(&self.actions[self.outcomes.len()])
        } else {
            None
        }
    }

    /// Records what the store answered to the next action, whose outcome it
    /// becomes; the run then stands at the action after it. A failure is
    /// recorded like any other response: it is isolated to its action.
    pub fn record_response(&mut self, response: StoreResponse)
        requires
            old(self).wf(),
            old(self)@.outcomes.len() < old(self)@.actions.len(),
            spec_response_fits(
                old(self)@.actions[old(self)@.outcomes.len() as int],
                response@,
            ),
        ensures
            final(self).wf(),
            final(self)@.actions == old(self)@.actions,
            final(self)@.outcomes == old(self)@.outcomes.push(
                spec_outcome(old(self)@.actions[old(self)@.outcomes.len() as int], response@),
            ),
    {
        let idx: usize = self.outcomes.len();
        let action = &self.actions[idx];
        let outcome = match response {
            StoreResponse::Failed(cause) => Outcome::Failed {
                kind: action.kind(),
                family: action.family(),
                cause,
            },
            StoreResponse::Succeeded(returned) => match action {
                Action::Create(_) => {
                    let rec = returned.unwrap();
                    Outcome::Applied {
                        kind: ActionKind::Create,
                        family: rec.family,
                        content: rec.content,
                        ttl: rec.ttl,
                        proxied: rec.proxied,
                    }
                },
                Action::Update(_, _) => {
                    let rec = returned.unwrap();
                    Outcome::Applied {
                        kind: ActionKind::Update,
                        family: rec.family,
                        content: rec.content,
                        ttl: rec.ttl,
                        proxied: rec.proxied,
                    }
                },
                Action::Delete(rec) => Outcome::Deleted { family: rec.family },
            },
        };
        self.outcomes.push(outcome);
        proof {
            assert(self@.outcomes =~= old(self)@.outcomes.push(
                spec_outcome(old(self)@.actions[old(self)@.outcomes.len() as int], response@),
            ));
        }
    }

    /// Whether every action has its outcome.
    pub fn is_finished(&self) -> (r: bool)
        requires
            self.wf(),
        ensures
            r == (self@.outcomes.len() == self@.actions.len()),
    {
        self.outcomes.len() == self.actions.len()
    }

    /// The outcomes of the run, one per attempted action, in order.
    pub fn into_outcomes(self) -> (r: Vec<Outcome>)
        ensures
            r.deep_view() == self@.outcomes,
    {
        self.outcomes
    }
}

} // verus!

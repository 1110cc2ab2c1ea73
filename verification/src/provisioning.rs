//! Making sure that the required models are available.
//!
//! The run first waits until the inventory answers at all, then lists it
//! once to see what is missing, asks for each missing model to be
//! provisioned, and polls the inventory until nothing is missing. The caller
//! does the requests and the waiting: it performs the action that
//! [`ModelProvisioner::step`] hands out and feeds the reply back in.

use vstd::prelude::*;
use vstd::string::StringExecFns;
use crate::failure::FailureKind;
use crate::http::{is_success, status_is_success, HttpReply, HttpReplyModel};
use crate::inventory::{
    interpret_listing, lemma_missing_membership, listing_of, missing, missing_models, names,
    snapshot_of, InventoryError, InventoryFailure, ListingReply,
};
use crate::json::{JsonModel, JsonValue};
use crate::retry::AttemptBudget;

verus! {

/// How many times the inventory is probed before it is given up as
/// unreachable.
pub const DMR_WARMUP_ATTEMPTS: u32 = 10;

/// The pause before a repeated probe, in milliseconds.
pub const DMR_WARMUP_DELAY_MS: u64 = 1_000;

/// How many times the inventory is polled for the models being provisioned.
pub const DMR_MODEL_POLL_ATTEMPTS: u32 = 60;

/// The pause before each poll, in milliseconds.
pub const DMR_MODEL_POLL_DELAY_MS: u64 = 5_000;

/// Why the required models are not available.
#[derive(Debug, PartialEq, Eq)]
pub enum ProvisionError {
    /// The inventory could not be listed.
    Inventory(InventoryError),
    /// The provisioning request for `model` could not be sent or answered.
    RequestFailed { model: String, detail: String },
    /// The provisioning request for `model` was answered outside the success
    /// class.
    RequestRejected { model: String, status: u16, body: String },
    /// The polls are used up and these models are still missing.
    TimedOut { still_pending: Vec<String> },
    /// A reply arrived that answers no action of the current stage.
    OutOfTurn,
}

/// A provisioning failure as a mathematical value.
pub enum ProvisionFailure {
    Inventory(InventoryFailure),
    RequestFailed { model: Seq<char>, detail: Seq<char> },
    RequestRejected { model: Seq<char>, status: u16, body: Seq<char> },
    TimedOut { still_pending: Seq<Seq<char>> },
    OutOfTurn,
}

impl View for ProvisionError {
    type V = ProvisionFailure;

    open spec fn view(&self) -> ProvisionFailure {
        match self {
            ProvisionError::Inventory(error) => ProvisionFailure::Inventory(error@),
            ProvisionError::RequestFailed { model, detail } => ProvisionFailure::RequestFailed {
                model: model@,
                detail: detail@,
            },
            ProvisionError::RequestRejected {
                model,
                status,
                body,
            } => ProvisionFailure::RequestRejected { model: model@, status: *status, body: body@ },
            ProvisionError::TimedOut { still_pending } => ProvisionFailure::TimedOut {
                still_pending: names(still_pending@),
            },
            ProvisionError::OutOfTurn => ProvisionFailure::OutOfTurn,
        }
    }
}

impl ProvisionFailure {
    /// The kind of this failure. A failure of the inventory keeps its kind.
    pub open spec fn kind(self) -> FailureKind {
        match self {
            ProvisionFailure::Inventory(failure) => failure.kind(),
            ProvisionFailure::RequestFailed { .. } => FailureKind::Transient,
            ProvisionFailure::RequestRejected { .. } => FailureKind::RemoteRejected,
            ProvisionFailure::TimedOut { .. } => FailureKind::Timeout,
            ProvisionFailure::OutOfTurn => FailureKind::Fatal,
        }
    }
}

impl ProvisionError {
    /// The kind of this failure.
    pub fn kind(&self) -> (kind: FailureKind)
        ensures
            kind == self@.kind(),
    {
        match self {
            ProvisionError::Inventory(error) => error.kind(),
            ProvisionError::RequestFailed { .. } => FailureKind::Transient,
            ProvisionError::RequestRejected { .. } => FailureKind::RemoteRejected,
            ProvisionError::TimedOut { .. } => FailureKind::Timeout,
            ProvisionError::OutOfTurn => FailureKind::Fatal,
        }
    }
}

/// The JSON document that asks for `model` to be provisioned.
pub open spec fn provisioning_document(model: Seq<char>) -> JsonModel {
    JsonModel::Object(seq![("from"@, JsonModel::Text(model))])
}

/// Builds the JSON document that asks for `model` to be provisioned.
pub fn provisioning_request(model: &str) -> (document: JsonValue)
    ensures
        document@ == provisioning_document(model@),
{
    JsonValue::object_of("from", JsonValue::text(model))
}

/// What the caller reports back.
#[derive(Debug, PartialEq, Eq)]
pub enum ProvisionEvent {
    /// The reply to a listing of the inventory.
    Listing(ListingReply),
    /// The reply to a provisioning request.
    Requested(HttpReply),
}

/// A report as a mathematical value: the listing as it was interpreted, or
/// the reply to a provisioning request.
pub enum ProvisionEventModel {
    Listing(Result<Seq<Option<Seq<Seq<char>>>>, InventoryFailure>),
    Requested(HttpReplyModel),
}

impl View for ProvisionEvent {
    type V = ProvisionEventModel;

    open spec fn view(&self) -> ProvisionEventModel {
        match self {
            ProvisionEvent::Listing(reply) => ProvisionEventModel::Listing(listing_of(*reply)),
            ProvisionEvent::Requested(reply) => ProvisionEventModel::Requested(reply@),
        }
    }
}

/// What the caller is to do next.
#[derive(Debug, PartialEq, Eq)]
pub enum ProvisionAction {
    /// Pause for `delay_ms` milliseconds, then list the inventory.
    List { delay_ms: u64 },
    /// Ask for `model` to be provisioned.
    Request { model: String },
    /// Nothing more: the run is over.
    Finish,
}

/// An action as a mathematical value.
pub enum ProvisionActionModel {
    List { delay_ms: u64 },
    Request { model: Seq<char> },
    Finish,
}

impl View for ProvisionAction {
    type V = ProvisionActionModel;

    open spec fn view(&self) -> ProvisionActionModel {
        match self {
            ProvisionAction::List { delay_ms } => ProvisionActionModel::List {
                delay_ms: *delay_ms,
            },
            ProvisionAction::Request { model } => ProvisionActionModel::Request { model: model@ },
            ProvisionAction::Finish => ProvisionActionModel::Finish,
        }
    }
}

/// Where a run stands.
pub enum ProvisionStage {
    /// Probing whether the inventory answers; `failed` probes have failed.
    Probing { failed: nat },
    /// The inventory answers; the next listing decides what is pending.
    Listing,
    /// Asking for the pending models; the request for `pending[next]` is out.
    Requesting { pending: Seq<Seq<char>>, next: nat },
    /// Polling until nothing is pending; `polls` polls have been answered.
    Polling { pending: Seq<Seq<char>>, polls: nat },
    /// Every required model is available.
    Done,
    /// The run was given up.
    Failed(ProvisionFailure),
}

/// What a provisioning request's reply amounts to: accepted, or the failure
/// to report for `model`.
pub open spec fn request_failure(model: Seq<char>, reply: HttpReplyModel) -> Option<
    ProvisionFailure,
> {
    match reply {
        HttpReplyModel::RequestFailed { detail } => Some(
            ProvisionFailure::RequestFailed { model, detail },
        ),
        HttpReplyModel::Received { status, body } => if status_is_success(status) {
            None
        } else {
            Some(
                ProvisionFailure::RequestRejected {
                    model,
                    status,
                    body: match body {
                        Some(body) => body,
                        None => "<unable to read response body>"@,
                    },
                },
            )
        },
    }
}

impl ProvisionStage {
    /// The stage at which a run begins.
    pub open spec fn initial() -> ProvisionStage {
        ProvisionStage::Probing { failed: 0 }
    }

    /// Whether the run is over.
    pub open spec fn is_terminal(self) -> bool {
        self is Done || self is Failed
    }

    /// The bounds that every stage of a run keeps.
    pub open spec fn well_formed(self) -> bool {
        match self {
            ProvisionStage::Probing { failed } => failed < DMR_WARMUP_ATTEMPTS,
            ProvisionStage::Requesting { pending, next } => next < pending.len(),
            ProvisionStage::Polling { pending, polls } => polls < DMR_MODEL_POLL_ATTEMPTS
                && pending.len() > 0,
            _ => true,
        }
    }

    /// The stage and the action once it is known what is pending at the
    /// first listing.
    pub open spec fn begin_with(pending: Seq<Seq<char>>) -> (ProvisionStage, ProvisionActionModel) {
        if pending.len() == 0 {
            (ProvisionStage::Done, ProvisionActionModel::Finish)
        } else {
            (
                ProvisionStage::Requesting { pending, next: 0 },
                ProvisionActionModel::Request { model: pending[0] },
            )
        }
    }

    /// The stage and the action after a poll, the one after `polls` others,
    /// that leaves `pending` models missing: another poll after the pause,
    /// or the timeout where this was the sixtieth.
    pub open spec fn after_poll(pending: Seq<Seq<char>>, polls: nat) -> (
        ProvisionStage,
        ProvisionActionModel,
    ) {
        if polls + 1 < DMR_MODEL_POLL_ATTEMPTS {
            (
                ProvisionStage::Polling { pending, polls: polls + 1 },
                ProvisionActionModel::List { delay_ms: DMR_MODEL_POLL_DELAY_MS },
            )
        } else {
            (
                ProvisionStage::Failed(ProvisionFailure::TimedOut { still_pending: pending }),
                ProvisionActionModel::Finish,
            )
        }
    }

    /// The next stage and the action that follows a report.
    ///
    /// Probing: a listing that succeeds, whatever it holds, ends the probing
    /// and the inventory is listed again at once; one that fails is repeated
    /// after a second, and the tenth failure ends the run with its error.
    /// Listing: the models that the listing lacks become pending; with none,
    /// the run is done. Requesting: each accepted request is followed by the
    /// next, the last by the first poll; a request that fails ends the run.
    /// Polling: what the listing holds leaves the pending models; with none
    /// left the run is done, after the sixtieth poll it times out. A poll
    /// that the network did not carry costs its attempt and nothing else: the
    /// pending models stay as they are and the next poll follows, or the
    /// timeout where it was the sixtieth. Any other listing that fails while
    /// listing or polling ends the run with its error.
    pub open spec fn advance(self, required: Seq<Seq<char>>, event: ProvisionEventModel) -> (
        ProvisionStage,
        ProvisionActionModel,
    ) {
        match (self, event) {
            (ProvisionStage::Done, _) => (self, ProvisionActionModel::Finish),
            (ProvisionStage::Failed(_), _) => (self, ProvisionActionModel::Finish),
            (ProvisionStage::Probing { failed }, ProvisionEventModel::Listing(Ok(_))) => (
                ProvisionStage::Listing,
                ProvisionActionModel::List { delay_ms: 0 },
            ),
            (
                ProvisionStage::Probing { failed },
                ProvisionEventModel::Listing(Err(error)),
            ) => if failed + 1 < DMR_WARMUP_ATTEMPTS {
                (
                    ProvisionStage::Probing { failed: failed + 1 },
                    ProvisionActionModel::List { delay_ms: DMR_WARMUP_DELAY_MS },
                )
            } else {
                (
                    ProvisionStage::Failed(ProvisionFailure::Inventory(error)),
                    ProvisionActionModel::Finish,
                )
            },
            (
                ProvisionStage::Listing,
                ProvisionEventModel::Listing(Ok(entries)),
            ) => Self::begin_with(missing(required, snapshot_of(entries))),
            (ProvisionStage::Listing, ProvisionEventModel::Listing(Err(error))) => (
                ProvisionStage::Failed(ProvisionFailure::Inventory(error)),
                ProvisionActionModel::Finish,
            ),
            (
                ProvisionStage::Requesting { pending, next },
                ProvisionEventModel::Requested(reply),
            ) => match request_failure(pending[next as int], reply) {
                Some(failure) => (ProvisionStage::Failed(failure), ProvisionActionModel::Finish),
                None => if next + 1 < pending.len() {
                    (
                        ProvisionStage::Requesting { pending, next: next + 1 },
                        ProvisionActionModel::Request { model: pending[next as int + 1] },
                    )
                } else {
                    (
                        ProvisionStage::Polling { pending, polls: 0 },
                        ProvisionActionModel::List { delay_ms: DMR_MODEL_POLL_DELAY_MS },
                    )
                },
            },
            (
                ProvisionStage::Polling { pending, polls },
                ProvisionEventModel::Listing(Ok(entries)),
            ) => {
                let rest = missing(pending, snapshot_of(entries));
                if rest.len() == 0 {
                    (ProvisionStage::Done, ProvisionActionModel::Finish)
                } else {
                    Self::after_poll(rest, polls)
                }
            },
            (
                ProvisionStage::Polling { pending, polls },
                ProvisionEventModel::Listing(Err(error)),
            ) => if error.kind() == FailureKind::Transient {
                Self::after_poll(pending, polls)
            } else {
                (
                    ProvisionStage::Failed(ProvisionFailure::Inventory(error)),
                    ProvisionActionModel::Finish,
                )
            },
            _ => (
                ProvisionStage::Failed(ProvisionFailure::OutOfTurn),
                ProvisionActionModel::Finish,
            ),
        }
    }
}

/// The provisioner's state as a mathematical value.
pub struct ProvisionerModel {
    pub required: Seq<Seq<char>>,
    pub stage: ProvisionStage,
}

enum Stage {
    Probing { probes: AttemptBudget },
    Listing,
    Requesting { pending: Vec<String>, next: usize },
    Polling { pending: Vec<String>, polls: AttemptBudget },
    Done,
    Failed(ProvisionError),
}

impl View for Stage {
    type V = ProvisionStage;

    closed spec fn view(&self) -> ProvisionStage {
        match self {
            Stage::Probing { probes } => ProvisionStage::Probing { failed: probes@.used },
            Stage::Listing => ProvisionStage::Listing,
            Stage::Requesting { pending, next } => ProvisionStage::Requesting {
                pending: names(pending@),
                next: *next as nat,
            },
            Stage::Polling { pending, polls } => ProvisionStage::Polling {
                pending: names(pending@),
                polls: polls@.used,
            },
            Stage::Done => ProvisionStage::Done,
            Stage::Failed(error) => ProvisionStage::Failed(error@),
        }
    }
}

/// Brings the required models to the inventory, one reported reply at a
/// time.
pub struct ModelProvisioner {
    required: Vec<String>,
    stage: Stage,
}

impl View for ModelProvisioner {
    type V = ProvisionerModel;

    closed spec fn view(&self) -> ProvisionerModel {
        ProvisionerModel { required: names(self.required@), stage: self.stage@ }
    }
}

/// The failure of a provisioning request for `model`, if its reply is one.
fn judge_request(model: &String, reply: HttpReply) -> (failure: Option<ProvisionError>)
    ensures
        match failure {
            Some(error) => request_failure(model@, reply@) == Some(error@),
            None => request_failure(model@, reply@) is None,
        },
{
    match reply {
        HttpReply::RequestFailed { detail } => Some(
            ProvisionError::RequestFailed { model: model.clone(), detail },
        ),
        HttpReply::Received { status, body } => {
            if is_success(status) {
                None
            } else {
                let body = match body {
                    Some(body) => body,
                    None => String::from_str("<unable to read response body>"),
                };
                Some(ProvisionError::RequestRejected { model: model.clone(), status, body })
            }
        },
    }
}

impl ModelProvisioner {
    #[verifier::type_invariant]
    spec fn valid(&self) -> bool {
        &&& self.stage@.well_formed()
        &&& match self.stage {
            Stage::Probing { probes } => probes@.limit == DMR_WARMUP_ATTEMPTS
                && probes@.interval_ms == DMR_WARMUP_DELAY_MS,
            Stage::Polling { polls, .. } => polls@.limit == DMR_MODEL_POLL_ATTEMPTS
                && polls@.interval_ms == DMR_MODEL_POLL_DELAY_MS,
            _ => true,
        }
    }

    /// Begins a run for the given required models. The first action is to
    /// list the inventory at once.
    pub fn new(required: Vec<String>) -> (begun: (ModelProvisioner, ProvisionAction))
        ensures
            begun.0@ == (ProvisionerModel {
                required: names(required@),
                stage: ProvisionStage::initial(),
            }),
            begun.1@ == (ProvisionActionModel::List { delay_ms: 0 }),
    {
        let probes = AttemptBudget::new(DMR_WARMUP_ATTEMPTS, DMR_WARMUP_DELAY_MS);
        (
            ModelProvisioner { required, stage: Stage::Probing { probes } },
            ProvisionAction::List { delay_ms: 0 },
        )
    }

    /// Whether the run is over.
    pub fn is_finished(&self) -> (finished: bool)
        ensures
            finished == self@.stage.is_terminal(),
            self@.stage.well_formed(),
    {
        proof {
            use_type_invariant(self);
        }
        match &self.stage {
            Stage::Done => true,
            Stage::Failed(_) => true,
            _ => false,
        }
    }

    /// Whether every required model is available.
    pub fn is_done(&self) -> (done: bool)
        ensures
            done == (self@.stage is Done),
    {
        match &self.stage {
            Stage::Done => true,
            _ => false,
        }
    }

    /// Whether provisioning requests are being made.
    pub fn is_requesting(&self) -> (requesting: bool)
        ensures
            requesting == (self@.stage is Requesting),
    {
        match &self.stage {
            Stage::Requesting { .. } => true,
            _ => false,
        }
    }

    /// Whether the inventory is being polled for the requested models.
    pub fn is_polling(&self) -> (polling: bool)
        ensures
            polling == (self@.stage is Polling),
    {
        match &self.stage {
            Stage::Polling { .. } => true,
            _ => false,
        }
    }

    /// The models that are still pending: those being requested or polled
    /// for, none in any other stage.
    pub fn pending(&self) -> (pending: Vec<String>)
        ensures
            names(pending@) == match self@.stage {
                ProvisionStage::Requesting { pending, .. } => pending,
                ProvisionStage::Polling { pending, .. } => pending,
                _ => Seq::empty(),
            },
    {
        let out = match &self.stage {
            Stage::Requesting { pending, .. } => pending.clone(),
            Stage::Polling { pending, .. } => pending.clone(),
            _ => Vec::new(),
        };
        proof {
            match &self.stage {
                Stage::Requesting { pending, .. } => {
                    assert(names(out@) =~= names(pending@));
                },
                Stage::Polling { pending, .. } => {
                    assert(names(out@) =~= names(pending@));
                },
                _ => {
                    assert(names(out@) =~= Seq::empty());
                },
            }
        }
        out
    }

    /// Ends the run and hands out its result: success only where every
    /// required model is available, the failure where the run failed, and
    /// `OutOfTurn` where it is not over.
    pub fn finish(self) -> (result: Result<(), ProvisionError>)
        ensures
            match result {
                Ok(_) => self@.stage is Done,
                Err(error) => match self@.stage {
                    ProvisionStage::Done => false,
                    ProvisionStage::Failed(failure) => error@ == failure,
                    _ => error@ == ProvisionFailure::OutOfTurn,
                },
            },
    {
        match self.stage {
            Stage::Done => Ok(()),
            Stage::Failed(error) => Err(error),
            _ => Err(ProvisionError::OutOfTurn),
        }
    }

    /// Takes a report and says what to do next.
    pub fn step(self, event: ProvisionEvent) -> (next: (ModelProvisioner, ProvisionAction))
        ensures
            next.0@.required == self@.required,
            (next.0@.stage, next.1@) == self@.stage.advance(self@.required, event@),
    {
        proof {
            use_type_invariant(&self);
        }
        let ModelProvisioner { required, stage } = self;
        match stage {
            Stage::Done => (
                ModelProvisioner { required, stage: Stage::Done },
                ProvisionAction::Finish,
            ),
            Stage::Failed(error) => (
                ModelProvisioner { required, stage: Stage::Failed(error) },
                ProvisionAction::Finish,
            ),
            Stage::Probing { probes } => match event {
                ProvisionEvent::Listing(reply) => match interpret_listing(reply) {
                    Ok(_) => (
                        ModelProvisioner { required, stage: Stage::Listing },
                        ProvisionAction::List { delay_ms: 0 },
                    ),
                    Err(error) => {
                        let mut probes = probes;
                        match probes.spend() {
                            Some(delay_ms) => (
                                ModelProvisioner { required, stage: Stage::Probing { probes } },
                                ProvisionAction::List { delay_ms },
                            ),
                            None => Self::fail(required, ProvisionError::Inventory(error)),
                        }
                    },
                },
                _ => Self::fail(required, ProvisionError::OutOfTurn),
            },
            Stage::Listing => match event {
                ProvisionEvent::Listing(reply) => match interpret_listing(reply) {
                    Ok(entries) => {
                        let pending = missing_models(entries.as_slice(), required.as_slice());
                        if pending.len() == 0 {
                            (
                                ModelProvisioner { required, stage: Stage::Done },
                                ProvisionAction::Finish,
                            )
                        } else {
                            let model = pending[0].clone();
                            (
                                ModelProvisioner {
                                    required,
                                    stage: Stage::Requesting { pending, next: 0 },
                                },
                                ProvisionAction::Request { model },
                            )
                        }
                    },
                    Err(error) => Self::fail(required, ProvisionError::Inventory(error)),
                },
                _ => Self::fail(required, ProvisionError::OutOfTurn),
            },
            Stage::Requesting { pending, next } => match event {
                ProvisionEvent::Requested(reply) => {
                    assert(next < pending.len()) by {
                        assert(names(pending@).len() == pending@.len());
                    }
                    match judge_request(&pending[next], reply) {
                    Some(error) => Self::fail(required, error),
                    None => {
                        if next + 1 < pending.len() {
                            let model = pending[next + 1].clone();
                            (
                                ModelProvisioner {
                                    required,
                                    stage: Stage::Requesting { pending, next: next + 1 },
                                },
                                ProvisionAction::Request { model },
                            )
                        } else {
                            let polls = AttemptBudget::new(
                                DMR_MODEL_POLL_ATTEMPTS,
                                DMR_MODEL_POLL_DELAY_MS,
                            );
                            (
                                ModelProvisioner {
                                    required,
                                    stage: Stage::Polling { pending, polls },
                                },
                                ProvisionAction::List { delay_ms: DMR_MODEL_POLL_DELAY_MS },
                            )
                        }
                    },
                    }
                },
                _ => Self::fail(required, ProvisionError::OutOfTurn),
            },
            Stage::Polling { pending, polls } => match event {
                ProvisionEvent::Listing(reply) => match interpret_listing(reply) {
                    Ok(entries) => {
                        let rest = missing_models(entries.as_slice(), pending.as_slice());
                        if rest.len() == 0 {
                            return (
                                ModelProvisioner { required, stage: Stage::Done },
                                ProvisionAction::Finish,
                            );
                        }
                        Self::poll_again(required, rest, polls)
                    },
                    Err(error) => {
                        if error.kind() == FailureKind::Transient {
                            Self::poll_again(required, pending, polls)
                        } else {
                            Self::fail(required, ProvisionError::Inventory(error))
                        }
                    },
                },
                _ => Self::fail(required, ProvisionError::OutOfTurn),
            },
        }
    }

    fn poll_again(required: Vec<String>, pending: Vec<String>, polls: AttemptBudget) -> (next: (
        ModelProvisioner,
        ProvisionAction,
    ))
        requires
            polls@.limit == DMR_MODEL_POLL_ATTEMPTS,
            polls@.interval_ms == DMR_MODEL_POLL_DELAY_MS,
            polls@.used < DMR_MODEL_POLL_ATTEMPTS,
            pending@.len() > 0,
        ensures
            next.0@.required == names(required@),
            (next.0@.stage, next.1@) == ProvisionStage::after_poll(names(pending@), polls@.used),
    {
        let mut polls = polls;
        match polls.spend() {
            Some(delay_ms) => (
                ModelProvisioner { required, stage: Stage::Polling { pending, polls } },
                ProvisionAction::List { delay_ms },
            ),
            None => Self::fail(required, ProvisionError::TimedOut { still_pending: pending }),
        }
    }

    fn fail(required: Vec<String>, error: ProvisionError) -> (next: (
        ModelProvisioner,
        ProvisionAction,
    ))
        ensures
            next.0@ == (ProvisionerModel {
                required: names(required@),
                stage: ProvisionStage::Failed(error@),
            }),
            next.1@ == ProvisionActionModel::Finish,
    {
        (ModelProvisioner { required, stage: Stage::Failed(error) }, ProvisionAction::Finish)
    }
}

/// An upper bound on the reports that a run can still take before it is
/// over.
pub open spec fn remaining_steps(stage: ProvisionStage, required: Seq<Seq<char>>) -> nat {
    match stage {
        ProvisionStage::Probing { failed } => (DMR_WARMUP_ATTEMPTS - failed) as nat
            + required.len() + DMR_MODEL_POLL_ATTEMPTS as nat + 2,
        ProvisionStage::Listing => required.len() + DMR_MODEL_POLL_ATTEMPTS as nat + 2,
        ProvisionStage::Requesting { pending, next } => (pending.len() - next) as nat
            + DMR_MODEL_POLL_ATTEMPTS as nat + 1,
        ProvisionStage::Polling { pending, polls } => (DMR_MODEL_POLL_ATTEMPTS - polls) as nat,
        ProvisionStage::Done => 0,
        ProvisionStage::Failed(_) => 0,
    }
}

/// Every report keeps the stage within its bounds.
pub proof fn lemma_advance_keeps_bounds(
    stage: ProvisionStage,
    required: Seq<Seq<char>>,
    event: ProvisionEventModel,
)
    requires
        stage.well_formed(),
    ensures
        stage.advance(required, event).0.well_formed(),
{
}

/// A run that is over stays as it is, whatever is reported.
pub proof fn lemma_finished_run_stays(
    stage: ProvisionStage,
    required: Seq<Seq<char>>,
    event: ProvisionEventModel,
)
    requires
        stage.is_terminal(),
    ensures
        stage.advance(required, event) == (stage, ProvisionActionModel::Finish),
{
}

/// Every report brings a run that is not over closer to its end, so a run
/// takes at most `remaining_steps` reports from where it stands.
pub proof fn lemma_advance_makes_progress(
    stage: ProvisionStage,
    required: Seq<Seq<char>>,
    event: ProvisionEventModel,
)
    requires
        stage.well_formed(),
        !stage.is_terminal(),
    ensures
        remaining_steps(stage.advance(required, event).0, required) < remaining_steps(
            stage,
            required,
        ),
{
    if stage is Listing {
        if let ProvisionEventModel::Listing(Ok(entries)) = event {
            required.lemma_filter_len(|id: Seq<char>| !snapshot_of(entries).contains(id));
        }
    }
}

/// A run becomes done only on a listing that leaves nothing pending: at the
/// first listing every required model is listed, at a poll every model that
/// was still pending.
pub proof fn lemma_done_means_nothing_pending(
    stage: ProvisionStage,
    required: Seq<Seq<char>>,
    event: ProvisionEventModel,
)
    requires
        !(stage is Done),
        stage.advance(required, event).0 is Done,
    ensures
        event matches ProvisionEventModel::Listing(Ok(entries)) && match stage {
            ProvisionStage::Listing => missing(required, snapshot_of(entries)).len() == 0,
            ProvisionStage::Polling { pending, .. } => missing(pending, snapshot_of(entries)).len()
                == 0,
            _ => false,
        },
{
}

/// A poll that the network did not carry is absorbed: it leaves the pending
/// models as they are and costs one attempt, so that the next poll follows
/// after the pause, or the timeout with the pending models where it was the
/// sixtieth.
pub proof fn lemma_unanswered_poll_is_absorbed(
    pending: Seq<Seq<char>>,
    polls: nat,
    required: Seq<Seq<char>>,
    failure: InventoryFailure,
)
    requires
        failure.kind() == FailureKind::Transient,
    ensures
        (ProvisionStage::Polling { pending, polls }).advance(
            required,
            ProvisionEventModel::Listing(Err(failure)),
        ) == if polls + 1 < DMR_MODEL_POLL_ATTEMPTS {
            (
                ProvisionStage::Polling { pending, polls: polls + 1 },
                ProvisionActionModel::List { delay_ms: DMR_MODEL_POLL_DELAY_MS },
            )
        } else {
            (
                ProvisionStage::Failed(ProvisionFailure::TimedOut { still_pending: pending }),
                ProvisionActionModel::Finish,
            )
        },
{
}

/// Polling only ever removes models from the pending ones: what is pending
/// after a poll was pending before it, is missing from the listing just
/// seen, and there are no more of them than before.
pub proof fn lemma_pending_shrinks(
    pending: Seq<Seq<char>>,
    polls: nat,
    required: Seq<Seq<char>>,
    entries: Seq<Option<Seq<Seq<char>>>>,
)
    ensures
        (ProvisionStage::Polling { pending, polls }).advance(
            required,
            ProvisionEventModel::Listing(Ok(entries)),
        ).0 matches ProvisionStage::Polling { pending: rest, polls: count } ==> {
            &&& count == polls + 1
            &&& rest.len() <= pending.len()
            &&& forall|id: Seq<char>| #[trigger]
                rest.contains(id) ==> pending.contains(id) && !snapshot_of(entries).contains(id)
        },
{
    let rest = missing(pending, snapshot_of(entries));
    pending.lemma_filter_len(|id: Seq<char>| !snapshot_of(entries).contains(id));
    assert forall|id: Seq<char>| #[trigger] rest.contains(id) implies pending.contains(id)
        && !snapshot_of(entries).contains(id) by {
        lemma_missing_membership(pending, snapshot_of(entries), id);
    }
}

} // verus!

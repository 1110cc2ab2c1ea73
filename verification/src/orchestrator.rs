//! Bringing the agent to the ready state.
//!
//! A run makes sure the required models are available, starts the tunnel,
//! waits for the tunnel's public URL to show up in its output, and registers
//! the agent under that URL. Each of these is outside work: the caller
//! performs the action that [`ReadinessOrchestrator::step`] hands out and
//! reports what came of it. A run is never retried by itself.

use vstd::prelude::*;
use vstd::string::StringExecFns;
use crate::failure::FailureKind;
use crate::http::{is_success, status_is_success, HttpReply, HttpReplyModel};
use crate::inventory::{listing_of, missing, names, snapshot_of, ListingReply};
use crate::json::{lemma_members_view, members_view, JsonModel, JsonValue};
use crate::log_watcher::{
    lemma_step_keeps_bounds, LogPatternWatcher, PatternError, WATCH_ATTEMPTS, WatcherModel,
    WatchProgress, WatchStep, WatchStepModel,
};
use crate::pattern::{first_group_match, pattern_compiles};
use crate::provisioning::{
    lemma_advance_keeps_bounds, lemma_advance_makes_progress, lemma_done_means_nothing_pending,
    remaining_steps, ModelProvisioner, ProvisionAction, ProvisionActionModel, ProvisionError,
    ProvisionEvent, ProvisionEventModel, ProvisionFailure, ProvisionStage,
};
use crate::session::{SessionSlot, TunnelSession};
use crate::text::{blank, is_blank, trim, trimmed};

verus! {

/// The local port that the tunnel is pointed at.
pub const BACKEND_PORT: u16 = 41786;

/// The pattern whose first group is the tunnel's public URL.
pub const TUNNEL_URL_PATTERN: &'static str = "(https://[a-zA-Z0-9-]+\\.trycloudflare\\.com)";

/// The states of a run, by name.
#[derive(Clone, Copy, Debug, PartialEq, Eq, Structural)]
pub enum Phase {
    Idle,
    AwaitingInventory,
    RequestingProvisioning,
    PollingProvisioning,
    StartingTunnel,
    AwaitingTunnelUrl,
    Registering,
    Ready,
    Failed,
}

/// Why a run was given up.
#[derive(Debug, PartialEq, Eq)]
pub enum OrchestrationError {
    /// The screen name held nothing but whitespace.
    InvalidScreenName,
    /// The required models could not be made available.
    Provisioning(ProvisionError),
    /// The tunnel process could not be launched.
    TunnelLaunchFailed { detail: String },
    /// The tunnel's output could not be read.
    TunnelOutputUnreadable { detail: String },
    /// The tunnel's URL did not show up in time; `tail` is the end of its
    /// output.
    TunnelUrlTimedOut { tail: String },
    /// The registration could not be sent or answered.
    RegistrationFailed { detail: String },
    /// The registration was answered outside the success class.
    RegistrationRejected { status: u16, body: String },
    /// A report arrived that answers no action of the current state.
    OutOfTurn,
}

/// A failure of a run as a mathematical value.
pub enum OrchestrationFailure {
    InvalidScreenName,
    Provisioning(ProvisionFailure),
    TunnelLaunchFailed { detail: Seq<char> },
    TunnelOutputUnreadable { detail: Seq<char> },
    TunnelUrlTimedOut { tail: Seq<char> },
    RegistrationFailed { detail: Seq<char> },
    RegistrationRejected { status: u16, body: Seq<char> },
    OutOfTurn,
}

impl View for OrchestrationError {
    type V = OrchestrationFailure;

    open spec fn view(&self) -> OrchestrationFailure {
        match self {
            OrchestrationError::InvalidScreenName => OrchestrationFailure::InvalidScreenName,
            OrchestrationError::Provisioning(error) => OrchestrationFailure::Provisioning(error@),
            OrchestrationError::TunnelLaunchFailed {
                detail,
            } => OrchestrationFailure::TunnelLaunchFailed { detail: detail@ },
            OrchestrationError::TunnelOutputUnreadable {
                detail,
            } => OrchestrationFailure::TunnelOutputUnreadable { detail: detail@ },
            OrchestrationError::TunnelUrlTimedOut {
                tail,
            } => OrchestrationFailure::TunnelUrlTimedOut { tail: tail@ },
            OrchestrationError::RegistrationFailed {
                detail,
            } => OrchestrationFailure::RegistrationFailed { detail: detail@ },
            OrchestrationError::RegistrationRejected {
                status,
                body,
            } => OrchestrationFailure::RegistrationRejected { status: *status, body: body@ },
            OrchestrationError::OutOfTurn => OrchestrationFailure::OutOfTurn,
        }
    }
}

impl OrchestrationFailure {
    /// The kind of this failure. A failure of provisioning keeps its kind.
    pub open spec fn kind(self) -> FailureKind {
        match self {
            OrchestrationFailure::InvalidScreenName => FailureKind::InvalidInput,
            OrchestrationFailure::Provisioning(failure) => failure.kind(),
            OrchestrationFailure::TunnelLaunchFailed { .. } => FailureKind::Fatal,
            OrchestrationFailure::TunnelOutputUnreadable { .. } => FailureKind::Fatal,
            OrchestrationFailure::TunnelUrlTimedOut { .. } => FailureKind::Timeout,
            OrchestrationFailure::RegistrationFailed { .. } => FailureKind::Transient,
            OrchestrationFailure::RegistrationRejected { .. } => FailureKind::RemoteRejected,
            OrchestrationFailure::OutOfTurn => FailureKind::Fatal,
        }
    }
}

impl OrchestrationError {
    /// The kind of this failure.
    pub fn kind(&self) -> (kind: FailureKind)
        ensures
            kind == self@.kind(),
    {
        match self {
            OrchestrationError::InvalidScreenName => FailureKind::InvalidInput,
            OrchestrationError::Provisioning(error) => error.kind(),
            OrchestrationError::TunnelLaunchFailed { .. } => FailureKind::Fatal,
            OrchestrationError::TunnelOutputUnreadable { .. } => FailureKind::Fatal,
            OrchestrationError::TunnelUrlTimedOut { .. } => FailureKind::Timeout,
            OrchestrationError::RegistrationFailed { .. } => FailureKind::Transient,
            OrchestrationError::RegistrationRejected { .. } => FailureKind::RemoteRejected,
            OrchestrationError::OutOfTurn => FailureKind::Fatal,
        }
    }
}

/// The descriptor that registers the agent.
#[derive(Debug, PartialEq, Eq)]
pub struct RegisterAgentPayload {
    pub screen_name: String,
    pub tunnel_url: String,
    pub requires_nanobanana_key: bool,
    pub has_local_nanobanana_key: bool,
}

/// A registration descriptor as a mathematical value.
pub struct RegistrationModel {
    pub screen_name: Seq<char>,
    pub tunnel_url: Seq<char>,
    pub requires_nanobanana_key: bool,
    pub has_local_nanobanana_key: bool,
}

impl View for RegisterAgentPayload {
    type V = RegistrationModel;

    open spec fn view(&self) -> RegistrationModel {
        RegistrationModel {
            screen_name: self.screen_name@,
            tunnel_url: self.tunnel_url@,
            requires_nanobanana_key: self.requires_nanobanana_key,
            has_local_nanobanana_key: self.has_local_nanobanana_key,
        }
    }
}

/// The JSON document that carries a registration.
pub open spec fn registration_document(payload: RegistrationModel) -> JsonModel {
    JsonModel::Object(
        seq![
            ("screenName"@, JsonModel::Text(payload.screen_name)),
            ("tunnelUrl"@, JsonModel::Text(payload.tunnel_url)),
            ("requiresKey"@, JsonModel::Boolean(payload.requires_nanobanana_key)),
            ("hasLocalKey"@, JsonModel::Boolean(payload.has_local_nanobanana_key)),
        ],
    )
}

impl RegisterAgentPayload {
    /// The JSON document to post.
    pub fn to_document(&self) -> (document: JsonValue)
        ensures
            document@ == registration_document(self@),
    {
        let mut members: Vec<(String, JsonValue)> = Vec::new();
        members.push((String::from_str("screenName"), JsonValue::text(self.screen_name.as_str())));
        members.push((String::from_str("tunnelUrl"), JsonValue::text(self.tunnel_url.as_str())));
        members.push(
            (String::from_str("requiresKey"), JsonValue::Boolean(self.requires_nanobanana_key)),
        );
        members.push(
            (String::from_str("hasLocalKey"), JsonValue::Boolean(self.has_local_nanobanana_key)),
        );
        proof {
            lemma_members_view(members@);
            assert(members_view(members@) =~= registration_document(self@)->Object_0);
        }
        JsonValue::object(members)
    }
}

/// What the caller reports back.
#[derive(Debug, PartialEq, Eq)]
pub enum OrchestratorEvent {
    /// The run is to begin.
    Start,
    /// The reply to a listing of the inventory.
    Listing(ListingReply),
    /// The reply to a provisioning request.
    Requested(HttpReply),
    /// The tunnel process is running.
    TunnelLaunched,
    /// The tunnel process could not be launched.
    TunnelLaunchFailed { detail: String },
    /// Everything the tunnel has written so far.
    TunnelOutput { combined: String },
    /// The tunnel's output could not be read.
    TunnelOutputFailed { detail: String },
    /// The reply to the registration.
    Registration(HttpReply),
}

/// A report as a mathematical value.
pub enum OrchestratorEventModel {
    Start,
    Provision(ProvisionEventModel),
    TunnelLaunched,
    TunnelLaunchFailed { detail: Seq<char> },
    TunnelOutput { combined: Seq<char> },
    TunnelOutputFailed { detail: Seq<char> },
    Registration(HttpReplyModel),
}

impl View for OrchestratorEvent {
    type V = OrchestratorEventModel;

    open spec fn view(&self) -> OrchestratorEventModel {
        match self {
            OrchestratorEvent::Start => OrchestratorEventModel::Start,
            OrchestratorEvent::Listing(reply) => OrchestratorEventModel::Provision(
                ProvisionEventModel::Listing(listing_of(*reply)),
            ),
            OrchestratorEvent::Requested(reply) => OrchestratorEventModel::Provision(
                ProvisionEventModel::Requested(reply@),
            ),
            OrchestratorEvent::TunnelLaunched => OrchestratorEventModel::TunnelLaunched,
            OrchestratorEvent::TunnelLaunchFailed {
                detail,
            } => OrchestratorEventModel::TunnelLaunchFailed { detail: detail@ },
            OrchestratorEvent::TunnelOutput { combined } => OrchestratorEventModel::TunnelOutput {
                combined: combined@,
            },
            OrchestratorEvent::TunnelOutputFailed {
                detail,
            } => OrchestratorEventModel::TunnelOutputFailed { detail: detail@ },
            OrchestratorEvent::Registration(reply) => OrchestratorEventModel::Registration(reply@),
        }
    }
}

/// What the caller is to do next.
#[derive(Debug, PartialEq, Eq)]
pub enum OrchestratorAction {
    /// Pause for `delay_ms` milliseconds, then list the inventory.
    ListInventory { delay_ms: u64 },
    /// Ask for `model` to be provisioned.
    RequestProvisioning { model: String },
    /// Launch the tunnel process towards the local port `port`.
    StartTunnel { port: u16 },
    /// Note `progress` where it is set, pause for `delay_ms` milliseconds,
    /// then read everything the tunnel has written so far.
    ReadTunnelOutput { delay_ms: u64, progress: Option<WatchProgress> },
    /// Send the registration.
    Register { payload: RegisterAgentPayload },
    /// Nothing more: the run is over.
    Finish,
}

/// An action as a mathematical value.
pub enum OrchestratorActionModel {
    ListInventory { delay_ms: u64 },
    RequestProvisioning { model: Seq<char> },
    StartTunnel { port: u16 },
    ReadTunnelOutput { delay_ms: u64, progress: Option<WatchProgress> },
    Register { payload: RegistrationModel },
    Finish,
}

impl View for OrchestratorAction {
    type V = OrchestratorActionModel;

    open spec fn view(&self) -> OrchestratorActionModel {
        match self {
            OrchestratorAction::ListInventory {
                delay_ms,
            } => OrchestratorActionModel::ListInventory { delay_ms: *delay_ms },
            OrchestratorAction::RequestProvisioning {
                model,
            } => OrchestratorActionModel::RequestProvisioning { model: model@ },
            OrchestratorAction::StartTunnel { port } => OrchestratorActionModel::StartTunnel {
                port: *port,
            },
            OrchestratorAction::ReadTunnelOutput {
                delay_ms,
                progress,
            } => OrchestratorActionModel::ReadTunnelOutput {
                delay_ms: *delay_ms,
                progress: *progress,
            },
            OrchestratorAction::Register { payload } => OrchestratorActionModel::Register {
                payload: payload@,
            },
            OrchestratorAction::Finish => OrchestratorActionModel::Finish,
        }
    }
}

/// Where a run stands.
pub enum RunStage {
    Idle,
    Provisioning(ProvisionStage),
    StartingTunnel,
    AwaitingTunnelUrl,
    Registering,
    Ready,
    Failed(OrchestrationFailure),
}

/// A run as a mathematical value: what it was started with, whether a tunnel
/// process is running on its behalf, the watcher of the tunnel's output, the
/// tunnel's public URL once it was found, and where the run stands.
pub struct RunModel {
    pub screen_name: Seq<char>,
    pub required: Seq<Seq<char>>,
    pub has_local_key: bool,
    pub tunnel_running: bool,
    pub watcher: WatcherModel,
    pub tunnel_url: Option<Seq<char>>,
    pub stage: RunStage,
}

/// The action of the model provisioner as an action of the run.
pub open spec fn lifted(action: ProvisionActionModel) -> OrchestratorActionModel {
    match action {
        ProvisionActionModel::List { delay_ms } => OrchestratorActionModel::ListInventory {
            delay_ms,
        },
        ProvisionActionModel::Request { model } => OrchestratorActionModel::RequestProvisioning {
            model,
        },
        ProvisionActionModel::Finish => OrchestratorActionModel::Finish,
    }
}

/// What the reply to the registration amounts to: accepted, or the failure
/// to report.
pub open spec fn registration_failure(reply: HttpReplyModel) -> Option<OrchestrationFailure> {
    match reply {
        HttpReplyModel::RequestFailed { detail } => Some(
            OrchestrationFailure::RegistrationFailed { detail },
        ),
        HttpReplyModel::Received { status, body } => if status_is_success(status) {
            None
        } else {
            Some(
                OrchestrationFailure::RegistrationRejected {
                    status,
                    body: match body {
                        Some(body) => body,
                        None => Seq::empty(),
                    },
                },
            )
        },
    }
}

impl RunModel {
    /// A run that has not begun.
    pub open spec fn idle(
        screen_name: Seq<char>,
        required: Seq<Seq<char>>,
        has_local_key: bool,
    ) -> RunModel {
        RunModel {
            screen_name,
            required,
            has_local_key,
            tunnel_running: false,
            watcher: WatcherModel::fresh(TUNNEL_URL_PATTERN@),
            tunnel_url: None,
            stage: RunStage::Idle,
        }
    }

    /// The name of the state.
    pub open spec fn phase(self) -> Phase {
        match self.stage {
            RunStage::Idle => Phase::Idle,
            RunStage::Provisioning(
                ProvisionStage::Requesting { .. },
            ) => Phase::RequestingProvisioning,
            RunStage::Provisioning(ProvisionStage::Polling { .. }) => Phase::PollingProvisioning,
            RunStage::Provisioning(_) => Phase::AwaitingInventory,
            RunStage::StartingTunnel => Phase::StartingTunnel,
            RunStage::AwaitingTunnelUrl => Phase::AwaitingTunnelUrl,
            RunStage::Registering => Phase::Registering,
            RunStage::Ready => Phase::Ready,
            RunStage::Failed(_) => Phase::Failed,
        }
    }

    /// Whether the run is over.
    pub open spec fn is_terminal(self) -> bool {
        self.stage is Ready || self.stage is Failed
    }

    /// The result of the run as it stands: the URL where it is ready, the
    /// failure where it failed, and `OutOfTurn` where it is not over.
    pub open spec fn result(self) -> Result<Seq<char>, OrchestrationFailure> {
        match self.stage {
            RunStage::Ready => match self.tunnel_url {
                Some(tunnel_url) => Ok(tunnel_url),
                None => Err(OrchestrationFailure::OutOfTurn),
            },
            RunStage::Failed(failure) => Err(failure),
            _ => Err(OrchestrationFailure::OutOfTurn),
        }
    }

    /// The bounds that every state of a run keeps. The watcher looks for the
    /// tunnel's URL and stays within its reads; no tunnel runs before one was
    /// launched, and one runs from then on; no URL is known before one was
    /// found, and the one that was found is known from then on.
    pub open spec fn well_formed(self) -> bool {
        &&& self.watcher.source == TUNNEL_URL_PATTERN@
        &&& self.watcher.well_formed()
        &&& self.tunnel_url is Some ==> self.tunnel_running
        &&& match self.stage {
            RunStage::Idle => !self.tunnel_running,
            RunStage::Provisioning(stage) => stage.well_formed() && !stage.is_terminal()
                && !self.tunnel_running,
            RunStage::StartingTunnel => !self.tunnel_running,
            RunStage::AwaitingTunnelUrl => self.tunnel_running && self.tunnel_url is None,
            RunStage::Registering => self.tunnel_url is Some,
            RunStage::Ready => self.tunnel_url is Some,
            RunStage::Failed(_) => true,
        }
    }

    /// The run given up for `failure`.
    pub open spec fn failed(self, failure: OrchestrationFailure) -> (
        RunModel,
        OrchestratorActionModel,
    ) {
        (RunModel { stage: RunStage::Failed(failure), ..self }, OrchestratorActionModel::Finish)
    }

    /// The registration that the run sends for the URL it found.
    pub open spec fn registration(self, tunnel_url: Seq<char>) -> RegistrationModel {
        RegistrationModel {
            screen_name: trimmed(self.screen_name),
            tunnel_url,
            requires_nanobanana_key: true,
            has_local_nanobanana_key: self.has_local_key,
        }
    }

    /// The next state and the action that follows a report.
    ///
    /// Idle: on `Start`, a blank screen name ends the run before anything is
    /// asked of the network; otherwise provisioning begins. Provisioning
    /// goes as [`ProvisionStage::advance`] says; once it is done the tunnel
    /// is started, and its failure is the run's. Starting the tunnel: a
    /// failed launch ends the run; after a launch the output is read at
    /// once. Awaiting the URL goes as [`WatcherModel::step`] says: the URL
    /// that is found is registered, a timeout or an unreadable output ends
    /// the run and leaves the tunnel running. Registering: a reply in the
    /// success class makes the run ready, any other ends it. A run that is
    /// over stays as it is. A report that answers no action of the current
    /// state ends the run.
    pub open spec fn advance(self, event: OrchestratorEventModel) -> (
        RunModel,
        OrchestratorActionModel,
    ) {
        match self.stage {
            RunStage::Ready => (self, OrchestratorActionModel::Finish),
            RunStage::Failed(_) => (self, OrchestratorActionModel::Finish),
            RunStage::Idle => match event {
                OrchestratorEventModel::Start => if is_blank(self.screen_name) {
                    self.failed(OrchestrationFailure::InvalidScreenName)
                } else {
                    (
                        RunModel {
                            stage: RunStage::Provisioning(ProvisionStage::initial()),
                            ..self
                        },
                        OrchestratorActionModel::ListInventory { delay_ms: 0 },
                    )
                },
                _ => self.failed(OrchestrationFailure::OutOfTurn),
            },
            RunStage::Provisioning(stage) => match event {
                OrchestratorEventModel::Provision(report) => {
                    let (next, action) = stage.advance(self.required, report);
                    match next {
                        ProvisionStage::Done => (
                            RunModel { stage: RunStage::StartingTunnel, ..self },
                            OrchestratorActionModel::StartTunnel { port: BACKEND_PORT },
                        ),
                        ProvisionStage::Failed(failure) => self.failed(
                            OrchestrationFailure::Provisioning(failure),
                        ),
                        _ => (
                            RunModel { stage: RunStage::Provisioning(next), ..self },
                            lifted(action),
                        ),
                    }
                },
                _ => self.failed(OrchestrationFailure::OutOfTurn),
            },
            RunStage::StartingTunnel => match event {
                OrchestratorEventModel::TunnelLaunched => (
                    RunModel { stage: RunStage::AwaitingTunnelUrl, tunnel_running: true, ..self },
                    OrchestratorActionModel::ReadTunnelOutput { delay_ms: 0, progress: None },
                ),
                OrchestratorEventModel::TunnelLaunchFailed { detail } => self.failed(
                    OrchestrationFailure::TunnelLaunchFailed { detail },
                ),
                _ => self.failed(OrchestrationFailure::OutOfTurn),
            },
            RunStage::AwaitingTunnelUrl => match event {
                OrchestratorEventModel::TunnelOutput { combined } => {
                    let (watcher, step) = self.watcher.step(
                        combined,
                        first_group_match(self.watcher.source, combined),
                    );
                    match step {
                        WatchStepModel::Found(tunnel_url) => (
                            RunModel {
                                stage: RunStage::Registering,
                                tunnel_url: Some(tunnel_url),
                                watcher,
                                ..self
                            },
                            OrchestratorActionModel::Register {
                                payload: self.registration(tunnel_url),
                            },
                        ),
                        WatchStepModel::Again { delay_ms, progress } => (
                            RunModel { watcher, ..self },
                            OrchestratorActionModel::ReadTunnelOutput { delay_ms, progress },
                        ),
                        WatchStepModel::TimedOut { tail } => (RunModel { watcher, ..self }).failed(
                            OrchestrationFailure::TunnelUrlTimedOut { tail },
                        ),
                    }
                },
                OrchestratorEventModel::TunnelOutputFailed { detail } => self.failed(
                    OrchestrationFailure::TunnelOutputUnreadable { detail },
                ),
                _ => self.failed(OrchestrationFailure::OutOfTurn),
            },
            RunStage::Registering => match event {
                OrchestratorEventModel::Registration(reply) => match registration_failure(reply) {
                    Some(failure) => self.failed(failure),
                    None => (
                        RunModel { stage: RunStage::Ready, ..self },
                        OrchestratorActionModel::Finish,
                    ),
                },
                _ => self.failed(OrchestrationFailure::OutOfTurn),
            },
        }
    }
}

enum Stage {
    Idle { required: Vec<String> },
    Provisioning(ModelProvisioner),
    StartingTunnel,
    AwaitingTunnelUrl,
    Registering,
    Ready,
    Failed(OrchestrationError),
}

impl Stage {
    closed spec fn model(&self) -> RunStage {
        match self {
            Stage::Idle { required } => RunStage::Idle,
            Stage::Provisioning(provisioner) => RunStage::Provisioning(provisioner@.stage),
            Stage::StartingTunnel => RunStage::StartingTunnel,
            Stage::AwaitingTunnelUrl => RunStage::AwaitingTunnelUrl,
            Stage::Registering => RunStage::Registering,
            Stage::Ready => RunStage::Ready,
            Stage::Failed(error) => RunStage::Failed(error@),
        }
    }
}

/// What a run keeps from its start to its end.
struct Brief {
    screen_name: String,
    required: Ghost<Seq<Seq<char>>>,
    has_local_key: bool,
}

/// Sequences one run, one reported outcome at a time.
pub struct ReadinessOrchestrator {
    brief: Brief,
    tunnel_running: bool,
    watcher: LogPatternWatcher,
    tunnel_url: Option<String>,
    stage: Stage,
}

impl View for ReadinessOrchestrator {
    type V = RunModel;

    closed spec fn view(&self) -> RunModel {
        RunModel {
            screen_name: self.brief.screen_name@,
            required: self.brief.required@,
            has_local_key: self.brief.has_local_key,
            tunnel_running: self.tunnel_running,
            watcher: self.watcher@,
            tunnel_url: url_view(self.tunnel_url),
            stage: self.stage.model(),
        }
    }
}

/// How a run ended. `displaced` is the session that the run's tunnel took
/// the place of, where the run is ready; `unpublished` is the handle of the
/// run's tunnel where the run is not ready, so that the tunnel did not become
/// the live session and is the caller's to tear down.
pub struct RunConclusion<H> {
    pub result: Result<String, OrchestrationError>,
    pub displaced: Option<TunnelSession<H>>,
    pub unpublished: Option<H>,
}

/// The view of a run's result.
pub open spec fn result_view(result: Result<String, OrchestrationError>) -> Result<
    Seq<char>,
    OrchestrationFailure,
> {
    match result {
        Ok(url) => Ok(url@),
        Err(error) => Err(error@),
    }
}

/// The text of an optional URL.
pub open spec fn url_view(url: Option<String>) -> Option<Seq<char>> {
    match url {
        Some(url) => Some(url@),
        None => None,
    }
}

/// The failure of the registration, if its reply is one.
fn judge_registration(reply: HttpReply) -> (failure: Option<OrchestrationError>)
    ensures
        match failure {
            Some(error) => registration_failure(reply@) == Some(error@),
            None => registration_failure(reply@) is None,
        },
{
    match reply {
        HttpReply::RequestFailed { detail } => Some(
            OrchestrationError::RegistrationFailed { detail },
        ),
        HttpReply::Received { status, body } => {
            if is_success(status) {
                None
            } else {
                let body = match body {
                    Some(body) => body,
                    None => String::new(),
                };
                Some(OrchestrationError::RegistrationRejected { status, body })
            }
        },
    }
}

impl ReadinessOrchestrator {
    #[verifier::type_invariant]
    spec fn valid(&self) -> bool {
        &&& self@.well_formed()
        &&& match self.stage {
            Stage::Idle { required } => names(required@) == self.brief.required@,
            Stage::Provisioning(provisioner) => provisioner@.required == self.brief.required@,
            _ => true,
        }
    }

    /// A run that has not begun, for an agent shown as `screen_name` that
    /// needs the models `required`. `has_local_key` says whether a key for
    /// image generation is configured on this machine. Fails exactly where
    /// the pattern for the tunnel's URL is refused by the pattern compiler.
    pub fn new(screen_name: String, required: Vec<String>, has_local_key: bool) -> (made: Result<
        ReadinessOrchestrator,
        PatternError,
    >)
        ensures
            made is Ok <==> pattern_compiles(TUNNEL_URL_PATTERN@),
            made matches Ok(run) ==> run@ == RunModel::idle(
                screen_name@,
                names(required@),
                has_local_key,
            ),
    {
        Self::from_watcher(
            screen_name,
            required,
            has_local_key,
            LogPatternWatcher::new(TUNNEL_URL_PATTERN),
        )
    }

    /// The run for what making the watcher of the tunnel's URL came to: a
    /// run that has not begun where there is a watcher, and the complaint,
    /// as it is, where there is none.
    fn from_watcher(
        screen_name: String,
        required: Vec<String>,
        has_local_key: bool,
        watcher: Result<LogPatternWatcher, PatternError>,
    ) -> (made: Result<ReadinessOrchestrator, PatternError>)
        requires
            watcher matches Ok(ready) ==> ready@ == WatcherModel::fresh(TUNNEL_URL_PATTERN@),
        ensures
            match watcher {
                Ok(_) => made matches Ok(run) && run@ == RunModel::idle(
                    screen_name@,
                    names(required@),
                    has_local_key,
                ),
                Err(error) => made == Err::<ReadinessOrchestrator, PatternError>(error),
            },
    {
        match watcher {
            Ok(watcher) => Ok(Self::with_watcher(screen_name, required, has_local_key, watcher)),
            Err(error) => Err(error),
        }
    }

    /// A run that has not begun and will look for the tunnel's URL with
    /// `watcher`, which has read nothing yet.
    fn with_watcher(
        screen_name: String,
        required: Vec<String>,
        has_local_key: bool,
        watcher: LogPatternWatcher,
    ) -> (run: ReadinessOrchestrator)
        requires
            watcher@ == WatcherModel::fresh(TUNNEL_URL_PATTERN@),
        ensures
            run@ == RunModel::idle(screen_name@, names(required@), has_local_key),
    {
        ReadinessOrchestrator {
            brief: Brief { screen_name, required: Ghost(names(required@)), has_local_key },
            tunnel_running: false,
            watcher,
            tunnel_url: None,
            stage: Stage::Idle { required },
        }
    }

    /// The name of the state.
    pub fn phase(&self) -> (phase: Phase)
        ensures
            phase == self@.phase(),
            self@.well_formed(),
    {
        proof {
            use_type_invariant(self);
        }
        match &self.stage {
            Stage::Idle { .. } => Phase::Idle,
            Stage::Provisioning(provisioner) => {
                if provisioner.is_requesting() {
                    Phase::RequestingProvisioning
                } else if provisioner.is_polling() {
                    Phase::PollingProvisioning
                } else {
                    Phase::AwaitingInventory
                }
            },
            Stage::StartingTunnel => Phase::StartingTunnel,
            Stage::AwaitingTunnelUrl => Phase::AwaitingTunnelUrl,
            Stage::Registering => Phase::Registering,
            Stage::Ready => Phase::Ready,
            Stage::Failed(_) => Phase::Failed,
        }
    }

    /// Whether a tunnel process was launched for this run. It keeps running
    /// when the run fails; stopping it is the caller's business.
    pub fn tunnel_running(&self) -> (running: bool)
        ensures
            running == self@.tunnel_running,
    {
        self.tunnel_running
    }

    /// The tunnel's public URL, once it was found.
    pub fn tunnel_url(&self) -> (url: Option<&String>)
        ensures
            match url {
                Some(url) => self@.tunnel_url == Some(url@),
                None => self@.tunnel_url is None,
            },
    {
        self.tunnel_url.as_ref()
    }

    /// Ends the run and hands out its result: the tunnel's URL where the run
    /// is ready, the failure where it failed, and `OutOfTurn` where it is
    /// not over.
    pub fn finish(self) -> (result: Result<String, OrchestrationError>)
        ensures
            result_view(result) == self@.result(),
    {
        match self.stage {
            Stage::Ready => match self.tunnel_url {
                Some(tunnel_url) => Ok(tunnel_url),
                None => Err(OrchestrationError::OutOfTurn),
            },
            Stage::Failed(error) => Err(error),
            _ => Err(OrchestrationError::OutOfTurn),
        }
    }

    /// Whether the run is ready.
    pub fn is_ready(&self) -> (ready: bool)
        ensures
            ready == (self@.stage is Ready),
    {
        match &self.stage {
            Stage::Ready => true,
            _ => false,
        }
    }

    /// Whether the reads of the tunnel's output are used up, so that the
    /// next read is the one that a timeout reports the end of.
    pub fn watcher_exhausted(&self) -> (exhausted: bool)
        ensures
            exhausted == (self@.watcher.attempts >= WATCH_ATTEMPTS),
    {
        self.watcher.exhausted()
    }

    /// Ends the run and, where it is ready, hands the tunnel over. Where the
    /// run is ready and the caller holds the handle of the tunnel process
    /// that it launched for this run, that process becomes the live session,
    /// with the URL that was registered; the session that it displaces is
    /// handed back, still running. Where the run is not ready, or there is no
    /// handle, the slot stays as it is and the handle goes back to the
    /// caller.
    pub fn conclude<H>(self, handle: Option<H>, slot: &mut SessionSlot<H>) -> (conclusion:
        RunConclusion<H>)
        ensures
            result_view(conclusion.result) == self@.result(),
            match handle {
                Some(handle) if self@.stage is Ready => {
                    &&& final(slot)@ matches Some(session)
                    &&& session.handle == handle
                    &&& url_view(session.url) == self@.tunnel_url
                    &&& conclusion.displaced == old(slot)@
                    &&& conclusion.unpublished is None
                },
                _ => {
                    &&& final(slot)@ == old(slot)@
                    &&& conclusion.displaced is None
                    &&& conclusion.unpublished == handle
                },
            },
    {
        if !self.is_ready() {
            return RunConclusion { result: self.finish(), displaced: None, unpublished: handle };
        }
        let displaced = match handle {
            Some(handle) => {
                let url = match self.tunnel_url() {
                    Some(url) => Some(url.clone()),
                    None => None,
                };
                slot.publish(TunnelSession { handle, url })
            },
            None => None,
        };
        RunConclusion { result: self.finish(), displaced, unpublished: None }
    }

    /// Takes a report and says what to do next.
    pub fn step(self, event: OrchestratorEvent) -> (next: (
        ReadinessOrchestrator,
        OrchestratorAction,
    ))
        ensures
            (next.0@, next.1@) == self@.advance(event@),
    {
        proof {
            use_type_invariant(&self);
        }
        let ReadinessOrchestrator { brief, tunnel_running, watcher, tunnel_url, stage } = self;
        match stage {
            Stage::Ready => (
                ReadinessOrchestrator {
                    brief,
                    tunnel_running,
                    watcher,
                    tunnel_url,
                    stage: Stage::Ready,
                },
                OrchestratorAction::Finish,
            ),
            Stage::Failed(error) => Self::fail(brief, tunnel_running, watcher, tunnel_url, error),
            Stage::Idle { required } => match event {
                OrchestratorEvent::Start => {
                    if blank(brief.screen_name.as_str()) {
                        Self::fail(
                            brief,
                            tunnel_running,
                            watcher,
                            tunnel_url,
                            OrchestrationError::InvalidScreenName,
                        )
                    } else {
                        let (provisioner, action) = ModelProvisioner::new(required);
                        (
                            ReadinessOrchestrator {
                                brief,
                                tunnel_running,
                                watcher,
                                tunnel_url,
                                stage: Stage::Provisioning(provisioner),
                            },
                            Self::lift(action),
                        )
                    }
                },
                _ => Self::fail(
                    brief,
                    tunnel_running,
                    watcher,
                    tunnel_url,
                    OrchestrationError::OutOfTurn,
                ),
            },
            Stage::Provisioning(provisioner) => {
                let report = match event {
                    OrchestratorEvent::Listing(reply) => ProvisionEvent::Listing(reply),
                    OrchestratorEvent::Requested(reply) => ProvisionEvent::Requested(reply),
                    _ => {
                        return Self::fail(
                            brief,
                            tunnel_running,
                            watcher,
                            tunnel_url,
                            OrchestrationError::OutOfTurn,
                        );
                    },
                };
                let (provisioner, action) = provisioner.step(report);
                if provisioner.is_done() {
                    (
                        ReadinessOrchestrator {
                            brief,
                            tunnel_running,
                            watcher,
                            tunnel_url,
                            stage: Stage::StartingTunnel,
                        },
                        OrchestratorAction::StartTunnel { port: BACKEND_PORT },
                    )
                } else if provisioner.is_finished() {
                    let error = match provisioner.finish() {
                        Err(error) => OrchestrationError::Provisioning(error),
                        Ok(_) => OrchestrationError::OutOfTurn,
                    };
                    Self::fail(brief, tunnel_running, watcher, tunnel_url, error)
                } else {
                    (
                        ReadinessOrchestrator {
                            brief,
                            tunnel_running,
                            watcher,
                            tunnel_url,
                            stage: Stage::Provisioning(provisioner),
                        },
                        Self::lift(action),
                    )
                }
            },
            Stage::StartingTunnel => match event {
                OrchestratorEvent::TunnelLaunched => (
                    ReadinessOrchestrator {
                        brief,
                        tunnel_running: true,
                        watcher,
                        tunnel_url,
                        stage: Stage::AwaitingTunnelUrl,
                    },
                    OrchestratorAction::ReadTunnelOutput { delay_ms: 0, progress: None },
                ),
                OrchestratorEvent::TunnelLaunchFailed { detail } => Self::fail(
                    brief,
                    tunnel_running,
                    watcher,
                    tunnel_url,
                    OrchestrationError::TunnelLaunchFailed { detail },
                ),
                _ => Self::fail(
                    brief,
                    tunnel_running,
                    watcher,
                    tunnel_url,
                    OrchestrationError::OutOfTurn,
                ),
            },
            Stage::AwaitingTunnelUrl => match event {
                OrchestratorEvent::TunnelOutput { combined } => {
                    let mut watcher = watcher;
                    match watcher.observe(combined.as_str()) {
                        WatchStep::Found(found) => {
                            let payload = RegisterAgentPayload {
                                screen_name: String::from_str(trim(brief.screen_name.as_str())),
                                tunnel_url: found.clone(),
                                requires_nanobanana_key: true,
                                has_local_nanobanana_key: brief.has_local_key,
                            };
                            (
                                ReadinessOrchestrator {
                                    brief,
                                    tunnel_running,
                                    watcher,
                                    tunnel_url: Some(found),
                                    stage: Stage::Registering,
                                },
                                OrchestratorAction::Register { payload },
                            )
                        },
                        WatchStep::Again { delay_ms, progress } => (
                            ReadinessOrchestrator {
                                brief,
                                tunnel_running,
                                watcher,
                                tunnel_url,
                                stage: Stage::AwaitingTunnelUrl,
                            },
                            OrchestratorAction::ReadTunnelOutput { delay_ms, progress },
                        ),
                        WatchStep::TimedOut { tail } => Self::fail(
                            brief,
                            tunnel_running,
                            watcher,
                            tunnel_url,
                            OrchestrationError::TunnelUrlTimedOut { tail },
                        ),
                    }
                },
                OrchestratorEvent::TunnelOutputFailed { detail } => Self::fail(
                    brief,
                    tunnel_running,
                    watcher,
                    tunnel_url,
                    OrchestrationError::TunnelOutputUnreadable { detail },
                ),
                _ => Self::fail(
                    brief,
                    tunnel_running,
                    watcher,
                    tunnel_url,
                    OrchestrationError::OutOfTurn,
                ),
            },
            Stage::Registering => match event {
                OrchestratorEvent::Registration(reply) => match judge_registration(reply) {
                    Some(error) => Self::fail(brief, tunnel_running, watcher, tunnel_url, error),
                    None => (
                        ReadinessOrchestrator {
                            brief,
                            tunnel_running,
                            watcher,
                            tunnel_url,
                            stage: Stage::Ready,
                        },
                        OrchestratorAction::Finish,
                    ),
                },
                _ => Self::fail(
                    brief,
                    tunnel_running,
                    watcher,
                    tunnel_url,
                    OrchestrationError::OutOfTurn,
                ),
            },
        }
    }

    fn lift(action: ProvisionAction) -> (lifted_action: OrchestratorAction)
        ensures
            lifted_action@ == lifted(action@),
    {
        match action {
            ProvisionAction::List { delay_ms } => OrchestratorAction::ListInventory { delay_ms },
            ProvisionAction::Request { model } => OrchestratorAction::RequestProvisioning { model },
            ProvisionAction::Finish => OrchestratorAction::Finish,
        }
    }

    fn fail(
        brief: Brief,
        tunnel_running: bool,
        watcher: LogPatternWatcher,
        tunnel_url: Option<String>,
        error: OrchestrationError,
    ) -> (next: (ReadinessOrchestrator, OrchestratorAction))
        requires
            watcher@.source == TUNNEL_URL_PATTERN@,
            watcher@.well_formed(),
            tunnel_url is Some ==> tunnel_running,
        ensures
            next.0@ == (RunModel {
                screen_name: brief.screen_name@,
                required: brief.required@,
                has_local_key: brief.has_local_key,
                tunnel_running,
                watcher: watcher@,
                tunnel_url: url_view(tunnel_url),
                stage: RunStage::Failed(error@),
            }),
            next.1@ == OrchestratorActionModel::Finish,
    {
        (
            ReadinessOrchestrator {
                brief,
                tunnel_running,
                watcher,
                tunnel_url,
                stage: Stage::Failed(error),
            },
            OrchestratorAction::Finish,
        )
    }
}

/// An upper bound on the reports that a run can still take before it is
/// over.
pub open spec fn remaining_reports(run: RunModel) -> nat {
    match run.stage {
        RunStage::Idle => remaining_steps(ProvisionStage::initial(), run.required)
            + WATCH_ATTEMPTS as nat + 5,
        RunStage::Provisioning(stage) => remaining_steps(stage, run.required)
            + WATCH_ATTEMPTS as nat + 3,
        RunStage::StartingTunnel => WATCH_ATTEMPTS as nat + 3,
        RunStage::AwaitingTunnelUrl => (WATCH_ATTEMPTS - run.watcher.attempts) as nat + 2,
        RunStage::Registering => 1,
        RunStage::Ready => 0,
        RunStage::Failed(_) => 0,
    }
}

/// Every report keeps the run within its bounds, and leaves what the run was
/// started with as it is.
pub proof fn lemma_run_keeps_bounds(run: RunModel, event: OrchestratorEventModel)
    requires
        run.well_formed(),
    ensures
        run.advance(event).0.well_formed(),
        run.advance(event).0.screen_name == run.screen_name,
        run.advance(event).0.required == run.required,
        run.advance(event).0.has_local_key == run.has_local_key,
{
    match run.stage {
        RunStage::Provisioning(stage) => {
            if let OrchestratorEventModel::Provision(report) = event {
                lemma_advance_keeps_bounds(stage, run.required, report);
            }
        },
        RunStage::AwaitingTunnelUrl => {
            if let OrchestratorEventModel::TunnelOutput { combined } = event {
                lemma_step_keeps_bounds(
                    run.watcher,
                    combined,
                    first_group_match(run.watcher.source, combined),
                );
            }
        },
        _ => {},
    }
}

/// A run that is over stays as it is, whatever is reported.
pub proof fn lemma_finished_run_stays(run: RunModel, event: OrchestratorEventModel)
    requires
        run.is_terminal(),
    ensures
        run.advance(event) == (run, OrchestratorActionModel::Finish),
{
}

/// Every report brings a run that is not over closer to its end: a run ends,
/// ready or failed, after at most `remaining_reports` reports.
pub proof fn lemma_run_makes_progress(run: RunModel, event: OrchestratorEventModel)
    requires
        run.well_formed(),
        !run.is_terminal(),
    ensures
        remaining_reports(run.advance(event).0) < remaining_reports(run),
{
    match run.stage {
        RunStage::Provisioning(stage) => {
            if let OrchestratorEventModel::Provision(report) = event {
                lemma_advance_makes_progress(stage, run.required, report);
                lemma_advance_keeps_bounds(stage, run.required, report);
            }
        },
        _ => {},
    }
}

/// A run is over exactly when the action is to finish.
pub proof fn lemma_finish_means_over(run: RunModel, event: OrchestratorEventModel)
    requires
        run.well_formed(),
    ensures
        run.advance(event).1 is Finish <==> run.advance(event).0.is_terminal(),
{
    match run.stage {
        RunStage::Provisioning(stage) => {
            if let OrchestratorEventModel::Provision(report) = event {
                lemma_advance_keeps_bounds(stage, run.required, report);
            }
        },
        _ => {},
    }
}

/// A blank screen name ends the run at its start, before any request is
/// made.
pub proof fn lemma_blank_screen_name_is_refused(
    screen_name: Seq<char>,
    required: Seq<Seq<char>>,
    has_local_key: bool,
)
    requires
        is_blank(screen_name),
    ensures
        RunModel::idle(screen_name, required, has_local_key).advance(
            OrchestratorEventModel::Start,
        ).0.stage == RunStage::Failed(OrchestrationFailure::InvalidScreenName),
        RunModel::idle(screen_name, required, has_local_key).advance(
            OrchestratorEventModel::Start,
        ).1 == OrchestratorActionModel::Finish,
{
}

/// The tunnel is started only once nothing is pending: the report that leads
/// to it is a listing that holds every model that was still missing.
pub proof fn lemma_tunnel_starts_when_nothing_pending(run: RunModel, event: OrchestratorEventModel)
    requires
        run.well_formed(),
        !(run.stage is StartingTunnel),
        run.advance(event).0.stage is StartingTunnel,
    ensures
        run.advance(event).1 == (OrchestratorActionModel::StartTunnel { port: BACKEND_PORT }),
        ({
            &&& run.stage matches RunStage::Provisioning(stage)
            &&& event matches OrchestratorEventModel::Provision(
                ProvisionEventModel::Listing(Ok(entries)),
            )
            &&& match stage {
                ProvisionStage::Listing => missing(run.required, snapshot_of(entries)).len() == 0,
                ProvisionStage::Polling { pending, .. } => missing(
                    pending,
                    snapshot_of(entries),
                ).len() == 0,
                _ => false,
            }
        }),
{
    if let RunStage::Provisioning(stage) = run.stage {
        if let OrchestratorEventModel::Provision(report) = event {
            lemma_done_means_nothing_pending(stage, run.required, report);
        }
    }
}

/// A run becomes ready only when the registration is answered in the success
/// class, and then for the URL that was registered.
pub proof fn lemma_ready_means_registered(run: RunModel, event: OrchestratorEventModel)
    requires
        !(run.stage is Ready),
        run.advance(event).0.stage is Ready,
    ensures
        ({
            &&& run.stage is Registering
            &&& run.advance(event).0.tunnel_url == run.tunnel_url
            &&& event matches OrchestratorEventModel::Registration(
                HttpReplyModel::Received { status, .. },
            )
            &&& status_is_success(status)
        }),
{
}

/// The URL of the tunnel is the text that the watcher found in the tunnel's
/// output, and once it is known it stays as it is.
pub proof fn lemma_tunnel_url_is_what_was_found(run: RunModel, event: OrchestratorEventModel)
    requires
        run.well_formed(),
    ensures
        run.tunnel_url is Some ==> run.advance(event).0.tunnel_url == run.tunnel_url,
        run.tunnel_url is None && run.advance(event).0.tunnel_url is Some ==> {
            &&& run.stage is AwaitingTunnelUrl
            &&& event matches OrchestratorEventModel::TunnelOutput { combined }
            &&& run.advance(event).0.tunnel_url == first_group_match(run.watcher.source, combined)
        },
{
}

/// A tunnel that runs keeps running through every report, and one runs only
/// after its launch was reported.
pub proof fn lemma_tunnel_is_left_running(run: RunModel, event: OrchestratorEventModel)
    ensures
        run.tunnel_running ==> run.advance(event).0.tunnel_running,
        !run.tunnel_running && run.advance(event).0.tunnel_running ==> run.stage is StartingTunnel
            && event is TunnelLaunched,
{
}

} // verus!

//! The container-runtime driver's verified core: deterministic naming,
//! the desired container specification, the lookup decision tables, and
//! the reconciliation flow that `run_server` follows.
//!
//! Everything here is free of engine calls.  The surrounding runtime
//! performs each emitted [`Action`] against the engine and feeds the
//! outcome back as an [`Event`]; every decision in between is verified
//! against the model in [`crate::model`].

use vstd::prelude::*;

use crate::exec::Execution;
use crate::model::ActionM;
use crate::model::ContainerDecisionM;
use crate::model::ContainerSpecM;
use crate::model::DriverErrorM;
use crate::model::EngineErrorM;
use crate::model::EventM;
use crate::model::ExecutionM;
use crate::model::FlowM;
use crate::model::MountM;
use crate::model::VolumeDecisionM;
use crate::model::container_decision_m;
use crate::model::flow_begin;
use crate::model::flow_done;
use crate::model::flow_step;
use crate::model::spec_config_rel_path;
use crate::model::spec_desired_container;
use crate::model::spec_executions;
use crate::model::spec_image;
use crate::model::spec_is_managed_name;
use crate::model::spec_profile_volume;
use crate::model::spec_volume_name;
use crate::model::stop_result_m;
use crate::model::volume_decision_m;
use crate::server::ServerConfig;

verus! {

// ---------------------------------------------------------------------
// Naming: the deterministic convention that makes lookups idempotent.
// ---------------------------------------------------------------------

/// The fixed image reference that every managed container runs.
pub fn image_ref() -> (r: &'static str)
    ensures
        r@ == spec_image(),
{
    "kexanone/reforger-server:latest"
}

/// The name of the container that holds the server with the given
/// logical identifier: the fixed prefix followed by the identifier.
pub fn container_name(id: &str) -> (r: String)
    ensures
        r@ == crate::spec_container_name(id@),
{
    let mut s = String::from_str("swndr-");
    s.append(id);
    s
}

/// The deterministic name of the volume for one storage role of a
/// server.
pub fn volume_name(id: &str, role: &str) -> (r: String)
    ensures
        r@ == spec_volume_name(id@, role@),
{
    let mut s = String::from_str("swndr-");
    s.append(id);
    s.append("-");
    s.append(role);
    proof {
        assert(s@ =~= spec_volume_name(id@, role@));
    }
    s
}

/// The name of the one persistent profile volume of a server.
pub fn profile_volume_name(id: &str) -> (r: String)
    ensures
        r@ == spec_profile_volume(id@),
{
    volume_name(id, "profile")
}

/// The per-server path of the configuration file, relative to the
/// configuration directory.
pub fn config_rel_path(id: &str) -> (r: String)
    ensures
        r@ == spec_config_rel_path(id@),
{
    let mut s = String::from_str("servers/");
    s.append(id);
    s.append(".json");
    proof {
        assert(s@ =~= spec_config_rel_path(id@));
    }
    s
}

// ---------------------------------------------------------------------
// Engine-facing values.
// ---------------------------------------------------------------------

/// A named persistent volume, as the engine reports it.
#[derive(Clone, Debug, PartialEq, Eq)]
pub struct VolumeHandle {
    pub name: String,
}

impl View for VolumeHandle {
    type V = Seq<char>;

    open spec fn view(&self) -> Seq<char> {
        self.name@
    }
}

/// The per-server volumes, one per storage role.
#[derive(Debug)]
pub struct ServerVolumes {
    profile: VolumeHandle,
}

impl View for ServerVolumes {
    type V = Seq<char>;

    closed spec fn view(&self) -> Seq<char> {
        self.profile.name@
    }
}

impl ServerVolumes {
    pub fn new(profile: VolumeHandle) -> (r: Self)
        ensures
            r@ == profile@,
    {
        Self { profile }
    }

    pub fn get_profile(&self) -> (r: VolumeHandle)
        ensures
            r@ == self@,
    {
        VolumeHandle { name: self.profile.name.clone() }
    }
}

/// A structured engine failure: a status reply distinguishable from a
/// transport-level failure, as the engine API reports them.
#[derive(Clone, Debug, PartialEq, Eq)]
pub enum EngineError {
    Server { status_code: u16, message: String },
    Transport { message: String },
}

impl View for EngineError {
    type V = EngineErrorM;

    open spec fn view(&self) -> EngineErrorM {
        match self {
            EngineError::Server { status_code, message } => EngineErrorM::Status {
                code: *status_code,
                message: message@,
            },
            EngineError::Transport { message } => EngineErrorM::Transport { message: message@ },
        }
    }
}

/// A driver-level failure, by originating step.
#[derive(Clone, Debug, PartialEq, Eq)]
pub enum DriverError {
    /// Persisting the configuration file failed before any engine call.
    ConfigWrite { message: String },
    /// A volume lookup failed with a status other than not-found.
    VolumeLookup { message: String },
    /// A container lookup failed with a status other than not-found.
    ContainerLookup { message: String },
    /// Any other engine failure, surfaced as the engine reported it.
    Engine { error: EngineError },
    /// An event arrived that the current phase cannot accept.
    Protocol,
}

impl View for DriverError {
    type V = DriverErrorM;

    open spec fn view(&self) -> DriverErrorM {
        match self {
            DriverError::ConfigWrite { message } => DriverErrorM::ConfigWrite {
                message: message@,
            },
            DriverError::VolumeLookup { message } => DriverErrorM::VolumeLookup {
                message: message@,
            },
            DriverError::ContainerLookup { message } => DriverErrorM::ContainerLookup {
                message: message@,
            },
            DriverError::Engine { error } => DriverErrorM::Engine { error: error@ },
            DriverError::Protocol => DriverErrorM::Protocol,
        }
    }
}

/// How a mount attaches to the container.
#[derive(Clone, Copy, Debug, PartialEq, Eq)]
pub enum MountKind {
    /// A named volume managed by the engine.
    Volume,
    /// A path bind-mounted from the host.
    Bind,
}

/// One mount of the desired container.
#[derive(Clone, Debug, PartialEq, Eq)]
pub struct MountSpec {
    pub target: String,
    pub source: String,
    pub kind: MountKind,
    pub read_only: bool,
}

impl View for MountSpec {
    type V = MountM;

    open spec fn view(&self) -> MountM {
        MountM {
            target: self.target@,
            source: self.source@,
            kind: self.kind,
            read_only: self.read_only,
        }
    }
}

/// The desired container: image, mounts and launch arguments.
#[derive(Clone, Debug, PartialEq, Eq)]
pub struct ContainerSpec {
    pub image: String,
    pub mounts: Vec<MountSpec>,
    pub cmd: Vec<String>,
}

impl View for ContainerSpec {
    type V = ContainerSpecM;

    open spec fn view(&self) -> ContainerSpecM {
        ContainerSpecM {
            image: self.image@,
            mounts: self.mounts@.map_values(|m: MountSpec| m@),
            cmd: self.cmd@.map_values(|s: String| s@),
        }
    }
}

/// The phase a reconciliation run is in: which action is outstanding.
#[derive(Clone, Copy, Debug, PartialEq, Eq)]
pub enum Phase {
    AwaitConfig,
    AwaitImage,
    AwaitVolumeInspect,
    AwaitVolumeCreate,
    AwaitContainerInspect,
    AwaitStop,
    AwaitRemove,
    AwaitCreate,
    AwaitStart,
    Done,
}

// ---------------------------------------------------------------------
// The desired container specification.
// ---------------------------------------------------------------------

/// Builds the desired container for the given volume source and
/// configuration file path.  The configuration itself feeds the run
/// only through its serialized file; it does not shape the container.
pub fn get_container_config(
    _cfg: &ServerConfig,
    volumes: &ServerVolumes,
    config_secret_path: &str,
) -> (r: ContainerSpec)
    ensures
        r@ == spec_desired_container(volumes@, config_secret_path@),
{
    desired_container(volumes.get_profile().name.as_str(), config_secret_path)
}

/// The desired container as a pure function of the resolved volume
/// source and the configuration file path.
fn desired_container(volume_source: &str, config_path: &str) -> (r: ContainerSpec)
    ensures
        r@ == spec_desired_container(volume_source@, config_path@),
{
    let mut mounts: Vec<MountSpec> = Vec::new();
    mounts.push(
        MountSpec {
            target: String::from_str("/reforger/profile"),
            source: volume_source.to_owned(),
            kind: MountKind::Volume,
            read_only: false,
        },
    );
    mounts.push(
        MountSpec {
            target: String::from_str("/reforger/config.json"),
            source: config_path.to_owned(),
            kind: MountKind::Bind,
            read_only: false,
        },
    );
    let mut cmd: Vec<String> = Vec::new();
    cmd.push(String::from_str("-config"));
    cmd.push(String::from_str("/reforger/config.json"));
    cmd.push(String::from_str("-profile"));
    cmd.push(String::from_str("/reforger/profile"));
    cmd.push(String::from_str("-maxFPS"));
    cmd.push(String::from_str("60"));
    let r = ContainerSpec { image: String::from_str("kexanone/reforger-server:latest"), mounts, cmd };
    proof {
        assert(r@.mounts =~= spec_desired_container(volume_source@, config_path@).mounts);
        assert(r@.cmd =~= spec_desired_container(volume_source@, config_path@).cmd);
    }
    r
}

// ---------------------------------------------------------------------
// The decision tables.
// ---------------------------------------------------------------------

/// What to do with the result of a volume lookup.
#[derive(Clone, Debug, PartialEq, Eq)]
pub enum VolumeDecision {
    /// The volume exists: reuse it as-is.
    Reuse { volume: VolumeHandle },
    /// The engine reported not-found: create the volume.
    Create,
    /// Any other failure aborts the run.
    Fail { error: DriverError },
}

impl View for VolumeDecision {
    type V = VolumeDecisionM;

    open spec fn view(&self) -> VolumeDecisionM {
        match self {
            VolumeDecision::Reuse { volume } => VolumeDecisionM::Reuse { name: volume@ },
            VolumeDecision::Create => VolumeDecisionM::Create,
            VolumeDecision::Fail { error } => VolumeDecisionM::Fail { error: error@ },
        }
    }
}

/// The view of a volume lookup result.
pub open spec fn volume_lookup_view(r: Result<VolumeHandle, EngineError>) -> Result<
    Seq<char>,
    EngineErrorM,
> {
    match r {
        Result::Ok(v) => Result::Ok(v@),
        Result::Err(e) => Result::Err(e@),
    }
}

/// The view of a lookup result that carries no value.
pub open spec fn unit_lookup_view(r: Result<(), EngineError>) -> Result<(), EngineErrorM> {
    match r {
        Result::Ok(u) => Result::Ok(u),
        Result::Err(e) => Result::Err(e@),
    }
}

/// Applies the volume decision table: found means reuse, a not-found
/// status means create under the same name, anything else aborts.
pub fn decide_volume(lookup: Result<VolumeHandle, EngineError>) -> (r: VolumeDecision)
    ensures
        r@ == volume_decision_m(volume_lookup_view(lookup)),
{
    match lookup {
        Result::Ok(volume) => VolumeDecision::Reuse { volume },
        Result::Err(EngineError::Server { status_code, message }) => {
            if status_code == 404 {
                VolumeDecision::Create
            } else {
                VolumeDecision::Fail { error: DriverError::VolumeLookup { message } }
            }
        },
        Result::Err(EngineError::Transport { message }) => VolumeDecision::Fail {
            error: DriverError::Engine { error: EngineError::Transport { message } },
        },
    }
}

/// What to do with the result of a container lookup.
#[derive(Clone, Debug, PartialEq, Eq)]
pub enum ContainerDecision {
    /// A container holds the name: stop it, remove it, recreate it.
    Replace,
    /// No container holds the name: create it fresh.
    CreateFresh,
    /// Any other failure aborts the run.
    Fail { error: DriverError },
}

impl View for ContainerDecision {
    type V = ContainerDecisionM;

    open spec fn view(&self) -> ContainerDecisionM {
        match self {
            ContainerDecision::Replace => ContainerDecisionM::Replace,
            ContainerDecision::CreateFresh => ContainerDecisionM::CreateFresh,
            ContainerDecision::Fail { error } => ContainerDecisionM::Fail { error: error@ },
        }
    }
}

/// Applies the container decision table: found means replace, a
/// not-found status means create fresh, anything else aborts.
pub fn decide_container(lookup: Result<(), EngineError>) -> (r: ContainerDecision)
    ensures
        r@ == container_decision_m(unit_lookup_view(lookup)),
{
    match lookup {
        Result::Ok(_u) => ContainerDecision::Replace,
        Result::Err(EngineError::Server { status_code, message }) => {
            if status_code == 404 {
                ContainerDecision::CreateFresh
            } else {
                ContainerDecision::Fail { error: DriverError::ContainerLookup { message } }
            }
        },
        Result::Err(EngineError::Transport { message }) => ContainerDecision::Fail {
            error: DriverError::Engine { error: EngineError::Transport { message } },
        },
    }
}

/// Maps a stop request's engine outcome to the driver's result: engine
/// errors — a not-found target included — surface to the caller.
pub fn stop_result(r: Result<(), EngineError>) -> (s: Result<(), DriverError>)
    ensures
        (match s {
            Result::Ok(u) => Result::<(), DriverErrorM>::Ok(u),
            Result::Err(e) => Result::<(), DriverErrorM>::Err(e@),
        }) == stop_result_m(unit_lookup_view(r)),
{
    match r {
        Result::Ok(u) => Result::Ok(u),
        Result::Err(e) => Result::Err(DriverError::Engine { error: e }),
    }
}

// ---------------------------------------------------------------------
// The reconciliation flow.
// ---------------------------------------------------------------------

/// One engine request that the flow asks the runtime to perform.
#[derive(Debug, PartialEq, Eq)]
pub enum Action {
    WriteConfig { rel_path: String, contents: String },
    PullImage { image: String },
    InspectVolume { name: String },
    CreateVolume { name: String },
    InspectContainer { name: String },
    StopContainer { name: String },
    RemoveContainer { name: String },
    CreateContainer { name: String, spec: ContainerSpec },
    StartContainer { id: String },
    Finish { result: Result<Execution, DriverError> },
}

impl View for Action {
    type V = ActionM;

    open spec fn view(&self) -> ActionM {
        match self {
            Action::WriteConfig { rel_path, contents } => ActionM::WriteConfig {
                rel_path: rel_path@,
                contents: contents@,
            },
            Action::PullImage { image } => ActionM::PullImage { image: image@ },
            Action::InspectVolume { name } => ActionM::InspectVolume { name: name@ },
            Action::CreateVolume { name } => ActionM::CreateVolume { name: name@ },
            Action::InspectContainer { name } => ActionM::InspectContainer { name: name@ },
            Action::StopContainer { name } => ActionM::StopContainer { name: name@ },
            Action::RemoveContainer { name } => ActionM::RemoveContainer { name: name@ },
            Action::CreateContainer { name, spec } => ActionM::CreateContainer {
                name: name@,
                spec: spec@,
            },
            Action::StartContainer { id } => ActionM::StartContainer { id: id@ },
            Action::Finish { result } => ActionM::Finish {
                result: (match result {
                    Result::Ok(e) => Result::Ok(e@),
                    Result::Err(e) => Result::Err(e@),
                }),
            },
        }
    }
}

/// The outcome of one performed action, handed back to the flow.
#[derive(Debug, PartialEq, Eq)]
pub enum Event {
    ConfigWritten { result: Result<String, String> },
    ImagePulled { result: Result<(), EngineError> },
    VolumeInspected { result: Result<VolumeHandle, EngineError> },
    VolumeCreated { result: Result<VolumeHandle, EngineError> },
    ContainerInspected { result: Result<(), EngineError> },
    ContainerStopped { result: Result<(), EngineError> },
    ContainerRemoved { result: Result<(), EngineError> },
    ContainerCreated { result: Result<String, EngineError> },
    ContainerStarted { result: Result<(), EngineError> },
}

impl View for Event {
    type V = EventM;

    open spec fn view(&self) -> EventM {
        match self {
            Event::ConfigWritten { result } => EventM::ConfigWritten {
                result: (match result {
                    Result::Ok(p) => Result::Ok(p@),
                    Result::Err(m) => Result::Err(m@),
                }),
            },
            Event::ImagePulled { result } => EventM::ImagePulled {
                result: unit_lookup_view(*result),
            },
            Event::VolumeInspected { result } => EventM::VolumeInspected {
                result: volume_lookup_view(*result),
            },
            Event::VolumeCreated { result } => EventM::VolumeCreated {
                result: volume_lookup_view(*result),
            },
            Event::ContainerInspected { result } => EventM::ContainerInspected {
                result: unit_lookup_view(*result),
            },
            Event::ContainerStopped { result } => EventM::ContainerStopped {
                result: unit_lookup_view(*result),
            },
            Event::ContainerRemoved { result } => EventM::ContainerRemoved {
                result: unit_lookup_view(*result),
            },
            Event::ContainerCreated { result } => EventM::ContainerCreated {
                result: (match result {
                    Result::Ok(id) => Result::Ok(id@),
                    Result::Err(e) => Result::Err(e@),
                }),
            },
            Event::ContainerStarted { result } => EventM::ContainerStarted {
                result: unit_lookup_view(*result),
            },
        }
    }
}

/// One `run_server` reconciliation in progress: the state between the
/// engine call that is outstanding and the decision that follows it.
#[derive(Debug)]
pub struct RunFlow {
    id: String,
    config_path: String,
    volume_source: String,
    runtime_id: String,
    phase: Phase,
}

impl View for RunFlow {
    type V = FlowM;

    closed spec fn view(&self) -> FlowM {
        FlowM {
            id: self.id@,
            config_path: self.config_path@,
            volume_source: self.volume_source@,
            runtime_id: self.runtime_id@,
            phase: self.phase,
        }
    }
}

impl RunFlow {
    /// Starts a reconciliation run for `id`: the first action persists
    /// the canonical serialized configuration, before any engine call.
    pub fn begin(id: String, config: &ServerConfig) -> (r: (RunFlow, Action))
        ensures
            r.0@ == flow_begin(id@, crate::json::spec_server_config_json(*config)).0,
            r.1@ == flow_begin(id@, crate::json::spec_server_config_json(*config)).1,
    {
        let contents = config.to_json();
        let rel_path = config_rel_path(id.as_str());
        (
            RunFlow {
                id,
                config_path: String::new(),
                volume_source: String::new(),
                runtime_id: String::new(),
                phase: Phase::AwaitConfig,
            },
            Action::WriteConfig { rel_path, contents },
        )
    }

    /// Ends the run with the given failure.
    fn fail(self, error: DriverError) -> (r: (RunFlow, Action))
        ensures
            r.0@ == flow_done(self@, Result::Err(error@)).0,
            r.1@ == flow_done(self@, Result::Err(error@)).1,
    {
        (
            RunFlow {
                id: self.id,
                config_path: self.config_path,
                volume_source: self.volume_source,
                runtime_id: self.runtime_id,
                phase: Phase::Done,
            },
            Action::Finish { result: Result::Err(error) },
        )
    }

    /// Feeds the outcome of the last action into the flow and returns
    /// the next state and the next action, as the transition function
    /// of the model prescribes.
    pub fn on_event(self, ev: Event) -> (r: (RunFlow, Action))
        ensures
            r.0@ == flow_step(self@, ev@).0,
            r.1@ == flow_step(self@, ev@).1,
    {
        match (self.phase, ev) {
            (Phase::AwaitConfig, Event::ConfigWritten { result }) => match result {
                Result::Ok(path) => (
                    RunFlow {
                        id: self.id,
                        config_path: path,
                        volume_source: self.volume_source,
                        runtime_id: self.runtime_id,
                        phase: Phase::AwaitImage,
                    },
                    Action::PullImage { image: String::from_str("kexanone/reforger-server:latest") },
                ),
                Result::Err(message) => self.fail(DriverError::ConfigWrite { message }),
            },
            (Phase::AwaitImage, Event::ImagePulled { result }) => match result {
                Result::Ok(_u) => {
                    let name = profile_volume_name(self.id.as_str());
                    (
                        RunFlow {
                            id: self.id,
                            config_path: self.config_path,
                            volume_source: self.volume_source,
                            runtime_id: self.runtime_id,
                            phase: Phase::AwaitVolumeInspect,
                        },
                        Action::InspectVolume { name },
                    )
                },
                Result::Err(error) => self.fail(DriverError::Engine { error }),
            },
            (Phase::AwaitVolumeInspect, Event::VolumeInspected { result }) => match decide_volume(
                result,
            ) {
                VolumeDecision::Reuse { volume } => {
                    let name = container_name(self.id.as_str());
                    (
                        RunFlow {
                            id: self.id,
                            config_path: self.config_path,
                            volume_source: volume.name,
                            runtime_id: self.runtime_id,
                            phase: Phase::AwaitContainerInspect,
                        },
                        Action::InspectContainer { name },
                    )
                },
                VolumeDecision::Create => {
                    let name = profile_volume_name(self.id.as_str());
                    (
                        RunFlow {
                            id: self.id,
                            config_path: self.config_path,
                            volume_source: self.volume_source,
                            runtime_id: self.runtime_id,
                            phase: Phase::AwaitVolumeCreate,
                        },
                        Action::CreateVolume { name },
                    )
                },
                VolumeDecision::Fail { error } => self.fail(error),
            },
            (Phase::AwaitVolumeCreate, Event::VolumeCreated { result }) => match result {
                Result::Ok(volume) => {
                    let name = container_name(self.id.as_str());
                    (
                        RunFlow {
                            id: self.id,
                            config_path: self.config_path,
                            volume_source: volume.name,
                            runtime_id: self.runtime_id,
                            phase: Phase::AwaitContainerInspect,
                        },
                        Action::InspectContainer { name },
                    )
                },
                Result::Err(error) => self.fail(DriverError::Engine { error }),
            },
            (Phase::AwaitContainerInspect, Event::ContainerInspected { result }) => match decide_container(
                result,
            ) {
                ContainerDecision::Replace => {
                    let name = container_name(self.id.as_str());
                    (
                        RunFlow {
                            id: self.id,
                            config_path: self.config_path,
                            volume_source: self.volume_source,
                            runtime_id: self.runtime_id,
                            phase: Phase::AwaitStop,
                        },
                        Action::StopContainer { name },
                    )
                },
                ContainerDecision::CreateFresh => {
                    let name = container_name(self.id.as_str());
                    let spec = desired_container(
                        self.volume_source.as_str(),
                        self.config_path.as_str(),
                    );
                    (
                        RunFlow {
                            id: self.id,
                            config_path: self.config_path,
                            volume_source: self.volume_source,
                            runtime_id: self.runtime_id,
                            phase: Phase::AwaitCreate,
                        },
                        Action::CreateContainer { name, spec },
                    )
                },
                ContainerDecision::Fail { error } => self.fail(error),
            },
            (Phase::AwaitStop, Event::ContainerStopped { result }) => match result {
                Result::Ok(_u) => {
                    let name = container_name(self.id.as_str());
                    (
                        RunFlow {
                            id: self.id,
                            config_path: self.config_path,
                            volume_source: self.volume_source,
                            runtime_id: self.runtime_id,
                            phase: Phase::AwaitRemove,
                        },
                        Action::RemoveContainer { name },
                    )
                },
                Result::Err(error) => self.fail(DriverError::Engine { error }),
            },
            (Phase::AwaitRemove, Event::ContainerRemoved { result }) => match result {
                Result::Ok(_u) => {
                    let name = container_name(self.id.as_str());
                    let spec = desired_container(
                        self.volume_source.as_str(),
                        self.config_path.as_str(),
                    );
                    (
                        RunFlow {
                            id: self.id,
                            config_path: self.config_path,
                            volume_source: self.volume_source,
                            runtime_id: self.runtime_id,
                            phase: Phase::AwaitCreate,
                        },
                        Action::CreateContainer { name, spec },
                    )
                },
                Result::Err(error) => self.fail(DriverError::Engine { error }),
            },
            (Phase::AwaitCreate, Event::ContainerCreated { result }) => match result {
                Result::Ok(id) => {
                    let start_id = id.clone();
                    (
                        RunFlow {
                            id: self.id,
                            config_path: self.config_path,
                            volume_source: self.volume_source,
                            runtime_id: id,
                            phase: Phase::AwaitStart,
                        },
                        Action::StartContainer { id: start_id },
                    )
                },
                Result::Err(error) => self.fail(DriverError::Engine { error }),
            },
            (Phase::AwaitStart, Event::ContainerStarted { result }) => match result {
                Result::Ok(_u) => (
                    RunFlow {
                        id: self.id.clone(),
                        config_path: self.config_path,
                        volume_source: self.volume_source,
                        runtime_id: self.runtime_id.clone(),
                        phase: Phase::Done,
                    },
                    Action::Finish {
                        result: Result::Ok(
                            Execution { id: self.runtime_id, server_id: self.id },
                        ),
                    },
                ),
                Result::Err(error) => self.fail(DriverError::Engine { error }),
            },
            (_, _) => self.fail(DriverError::Protocol),
        }
    }
}

// ---------------------------------------------------------------------
// Listing the managed containers.
// ---------------------------------------------------------------------

/// Whether a container name carries the managed prefix.
fn has_managed_prefix(s: &str) -> (b: bool)
    ensures
        b == spec_is_managed_name(s@),
{
    proof {
        reveal_strlit("swndr-");
    }
    let n = s.unicode_len();
    if n < 6 {
        return false;
    }
    let b = s.get_char(0) == 's' && s.get_char(1) == 'w' && s.get_char(2) == 'n' && s.get_char(3)
        == 'd' && s.get_char(4) == 'r' && s.get_char(5) == '-';
    proof {
        if b {
            assert(s@.subrange(0, 6) =~= "swndr-"@);
        } else {
            assert(s@.subrange(0, 6)[0] == s@[0]);
            assert(s@.subrange(0, 6)[1] == s@[1]);
            assert(s@.subrange(0, 6)[2] == s@[2]);
            assert(s@.subrange(0, 6)[3] == s@[3]);
            assert(s@.subrange(0, 6)[4] == s@[4]);
            assert(s@.subrange(0, 6)[5] == s@[5]);
        }
    }
    b
}

/// Maps the engine's container records — name and runtime identifier
/// pairs — to execution handles: exactly those records whose name
/// follows the managed naming convention are kept, each yielding the
/// runtime identifier and the server identifier that the name endcodes
/// after its fixed prefix.
pub fn executions_from_names(entries: &Vec<(String, String)>) -> (r: Vec<Execution>)
    ensures
        r@.map_values(|x: Execution| x@) == spec_executions(
            entries@.map_values(|p: (String, String)| (p.0@, p.1@)),
        ),
{
    broadcast use vstd::prelude::Seq::lemma_filter_push;
    broadcast use vstd::prelude::Seq::lemma_push_map_commute;

    let ghost m = entries@.map_values(|p: (String, String)| (p.0@, p.1@));
    let mut r: Vec<Execution> = Vec::new();
    let mut i: usize = 0;
    while i < entries.len()
        invariant
            i <= entries.len(),
            m == entries@.map_values(|p: (String, String)| (p.0@, p.1@)),
            m.len() == entries@.len(),
            forall|j: int| 0 <= j < entries@.len() ==> m[j] == (entries@[j].0@, entries@[j].1@),
            r@.map_values(|x: Execution| x@) == spec_executions(m.take(i as int)),
        decreases entries.len() - i,
    {
        let name = &entries[i].0;
        let n = name.as_str().unicode_len();
        let ghost t = m.take(i as int);
        let ghost x = m[i as int];
        let ghost r_old = r@;
        proof {
            assert(m.take(i + 1) =~= t.push(x));
        }
        if has_managed_prefix(name.as_str()) {
            let server_id = name.as_str().substring_char(6, n).to_owned();
            let exec = Execution { id: entries[i].1.clone(), server_id };
            proof {
                assert(exec@.server_id =~= x.0.skip(6));
                assert(exec@ == (ExecutionM { id: x.1, server_id: x.0.skip(6) }));
            }
            r.push(exec);
            proof {
                let pred = |p: (Seq<char>, Seq<char>)| spec_is_managed_name(p.0);
                let f = |p: (Seq<char>, Seq<char>)| ExecutionM { id: p.1, server_id: p.0.skip(6) };
                assert(pred(x));
                t.lemma_filter_push(x, pred);
                assert(t.push(x).filter(pred) == t.filter(pred).push(x));
                assert(t.filter(pred).push(x).map_values(f) == t.filter(pred).map_values(f).push(
                    f(x),
                ));
                assert(spec_executions(t.push(x)) == spec_executions(t).push(exec@));
                assert(r@ == r_old.push(exec));
                assert(r_old.push(exec).map_values(|q: Execution| q@) == r_old.map_values(
                    |q: Execution| q@,
                ).push(exec@));
            }
        } else {
            proof {
                let pred = |p: (Seq<char>, Seq<char>)| spec_is_managed_name(p.0);
                assert(!pred(x));
                t.lemma_filter_push(x, pred);
                assert(t.push(x).filter(pred) == t.filter(pred));
                assert(spec_executions(t.push(x)) == spec_executions(t));
            }
        }
        proof {
            assert(r@.map_values(|q: Execution| q@) == spec_executions(m.take(i + 1)));
        }
        i += 1;
    }
    proof {
        assert(m.take(entries@.len() as int) =~= m);
    }
    r
}

} // verus!

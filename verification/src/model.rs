//! The mathematical model of the reconciliation protocol.
//!
//! A driver run is a conversation: the flow emits one engine action at a
//! time, the surrounding runtime performs it and hands the outcome back
//! as an event, and the flow decides the next action.  [`flow_step`] is
//! that decision function; [`engine_step`] models an engine that answers
//! each action according to its documented behaviour; [`run_model`]
//! composes the two until the flow finishes.  The proof functions at the
//! end state the convergence and idempotence laws of the protocol.

use vstd::prelude::*;

use crate::docker::MountKind;
use crate::docker::Phase;
use crate::spec_container_name;

verus! {

// ---------------------------------------------------------------------
// Model values: plain mathematical counterparts of the exec types.
// ---------------------------------------------------------------------

/// A handle to a running instance: the runtime-assigned identifier and
/// the caller's logical server identifier.
pub struct ExecutionM {
    pub id: Seq<char>,
    pub server_id: Seq<char>,
}

/// A structured engine failure: an HTTP-style status reply, or a
/// transport-level failure with only a message.
pub enum EngineErrorM {
    Status { code: u16, message: Seq<char> },
    Transport { message: Seq<char> },
}

/// A driver-level failure, by originating step.
pub enum DriverErrorM {
    /// Persisting the configuration file failed before any engine call.
    ConfigWrite { message: Seq<char> },
    /// A volume lookup failed with a status other than not-found.
    VolumeLookup { message: Seq<char> },
    /// A container lookup failed with a status other than not-found.
    ContainerLookup { message: Seq<char> },
    /// Any other engine failure, surfaced as the engine reported it.
    Engine { error: EngineErrorM },
    /// An event arrived that the current phase cannot accept.
    Protocol,
}

/// One mount of the desired container: a named volume or a bind path.
pub struct MountM {
    pub target: Seq<char>,
    pub source: Seq<char>,
    pub kind: MountKind,
    pub read_only: bool,
}

/// The desired container: image, mounts and launch arguments.
pub struct ContainerSpecM {
    pub image: Seq<char>,
    pub mounts: Seq<MountM>,
    pub cmd: Seq<Seq<char>>,
}

/// One engine request that the flow asks the runtime to perform.
pub enum ActionM {
    WriteConfig { rel_path: Seq<char>, contents: Seq<char> },
    PullImage { image: Seq<char> },
    InspectVolume { name: Seq<char> },
    CreateVolume { name: Seq<char> },
    InspectContainer { name: Seq<char> },
    StopContainer { name: Seq<char> },
    RemoveContainer { name: Seq<char> },
    CreateContainer { name: Seq<char>, spec: ContainerSpecM },
    StartContainer { id: Seq<char> },
    Finish { result: Result<ExecutionM, DriverErrorM> },
}

/// The outcome of one performed action, handed back to the flow.
pub enum EventM {
    ConfigWritten { result: Result<Seq<char>, Seq<char>> },
    ImagePulled { result: Result<(), EngineErrorM> },
    VolumeInspected { result: Result<Seq<char>, EngineErrorM> },
    VolumeCreated { result: Result<Seq<char>, EngineErrorM> },
    ContainerInspected { result: Result<(), EngineErrorM> },
    ContainerStopped { result: Result<(), EngineErrorM> },
    ContainerRemoved { result: Result<(), EngineErrorM> },
    ContainerCreated { result: Result<Seq<char>, EngineErrorM> },
    ContainerStarted { result: Result<(), EngineErrorM> },
}

/// The flow's own state between two engine calls.
pub struct FlowM {
    pub id: Seq<char>,
    pub config_path: Seq<char>,
    pub volume_source: Seq<char>,
    pub runtime_id: Seq<char>,
    pub phase: Phase,
}

// ---------------------------------------------------------------------
// Naming and the desired container specification.
// ---------------------------------------------------------------------

/// The fixed image reference that every managed container runs.
pub open spec fn spec_image() -> Seq<char> {
    "kexanone/reforger-server:latest"@
}

/// The deterministic volume name for a server identifier and role.
pub open spec fn spec_volume_name(id: Seq<char>, role: Seq<char>) -> Seq<char> {
    "swndr-"@ + id + "-"@ + role
}

/// The name of the one persistent profile volume of a server.
pub open spec fn spec_profile_volume(id: Seq<char>) -> Seq<char> {
    spec_volume_name(id, "profile"@)
}

/// The per-server path of the configuration file, relative to the
/// configuration directory.
pub open spec fn spec_config_rel_path(id: Seq<char>) -> Seq<char> {
    "servers/"@ + id + ".json"@
}

/// The desired container: a pure function of the resolved volume source
/// and the configuration file path — nothing else feeds it.
pub open spec fn spec_desired_container(
    volume_source: Seq<char>,
    config_path: Seq<char>,
) -> ContainerSpecM {
    ContainerSpecM {
        image: spec_image(),
        mounts: seq![
            MountM {
                target: "/reforger/profile"@,
                source: volume_source,
                kind: MountKind::Volume,
                read_only: false,
            },
            MountM {
                target: "/reforger/config.json"@,
                source: config_path,
                kind: MountKind::Bind,
                read_only: false,
            },
        ],
        cmd: seq![
            "-config"@,
            "/reforger/config.json"@,
            "-profile"@,
            "/reforger/profile"@,
            "-maxFPS"@,
            "60"@,
        ],
    }
}

// ---------------------------------------------------------------------
// The decision tables.
// ---------------------------------------------------------------------

/// What to do with the result of a volume lookup.
pub enum VolumeDecisionM {
    /// The volume exists: reuse it under the returned name.
    Reuse { name: Seq<char> },
    /// The engine reported not-found: create the volume.
    Create,
    /// Any other failure aborts the run.
    Fail { error: DriverErrorM },
}

/// The decision table for a volume lookup: found means reuse, a
/// not-found status means create, anything else aborts.
pub open spec fn volume_decision_m(r: Result<Seq<char>, EngineErrorM>) -> VolumeDecisionM {
    match r {
        Result::Ok(name) => VolumeDecisionM::Reuse { name },
        Result::Err(EngineErrorM::Status { code, message }) => if code == 404 {
            VolumeDecisionM::Create
        } else {
            VolumeDecisionM::Fail { error: DriverErrorM::VolumeLookup { message } }
        },
        Result::Err(EngineErrorM::Transport { message }) => VolumeDecisionM::Fail {
            error: DriverErrorM::Engine { error: EngineErrorM::Transport { message } },
        },
    }
}

/// What to do with the result of a container lookup.
pub enum ContainerDecisionM {
    /// A container holds the name: stop it, remove it, recreate it.
    Replace,
    /// No container holds the name: create it fresh.
    CreateFresh,
    /// Any other failure aborts the run.
    Fail { error: DriverErrorM },
}

/// The decision table for a container lookup: found means replace, a
/// not-found status means create fresh, anything else aborts.
pub open spec fn container_decision_m(r: Result<(), EngineErrorM>) -> ContainerDecisionM {
    match r {
        Result::Ok(u) => ContainerDecisionM::Replace,
        Result::Err(EngineErrorM::Status { code, message }) => if code == 404 {
            ContainerDecisionM::CreateFresh
        } else {
            ContainerDecisionM::Fail { error: DriverErrorM::ContainerLookup { message } }
        },
        Result::Err(EngineErrorM::Transport { message }) => ContainerDecisionM::Fail {
            error: DriverErrorM::Engine { error: EngineErrorM::Transport { message } },
        },
    }
}

/// How a stop request's engine outcome maps to the driver's result:
/// every engine error — a not-found target included — surfaces.
pub open spec fn stop_result_m(r: Result<(), EngineErrorM>) -> Result<(), DriverErrorM> {
    match r {
        Result::Ok(u) => Result::Ok(u),
        Result::Err(e) => Result::Err(DriverErrorM::Engine { error: e }),
    }
}

// ---------------------------------------------------------------------
// The flow: one reconciliation run as a state machine.
// ---------------------------------------------------------------------

/// A finished flow state with the given result.
pub open spec fn flow_done(f: FlowM, r: Result<ExecutionM, DriverErrorM>) -> (FlowM, ActionM) {
    (
        FlowM {
            id: f.id,
            config_path: f.config_path,
            volume_source: f.volume_source,
            runtime_id: f.runtime_id,
            phase: Phase::Done,
        },
        ActionM::Finish { result: r },
    )
}

/// The first state and action of a run: persist the configuration
/// before anything touches the engine.
pub open spec fn flow_begin(id: Seq<char>, contents: Seq<char>) -> (FlowM, ActionM) {
    (
        FlowM {
            id: id,
            config_path: Seq::<char>::empty(),
            volume_source: Seq::<char>::empty(),
            runtime_id: Seq::<char>::empty(),
            phase: Phase::AwaitConfig,
        },
        ActionM::WriteConfig { rel_path: spec_config_rel_path(id), contents: contents },
    )
}

/// The transition function of a run: from the current state and the
/// outcome of the last action to the next state and action.
pub open spec fn flow_step(f: FlowM, ev: EventM) -> (FlowM, ActionM) {
    match (f.phase, ev) {
        (Phase::AwaitConfig, EventM::ConfigWritten { result }) => match result {
            Result::Ok(path) => (
                FlowM {
                    id: f.id,
                    config_path: path,
                    volume_source: f.volume_source,
                    runtime_id: f.runtime_id,
                    phase: Phase::AwaitImage,
                },
                ActionM::PullImage { image: spec_image() },
            ),
            Result::Err(message) => flow_done(
                f,
                Result::Err(DriverErrorM::ConfigWrite { message }),
            ),
        },
        (Phase::AwaitImage, EventM::ImagePulled { result }) => match result {
            Result::Ok(u) => (
                FlowM {
                    id: f.id,
                    config_path: f.config_path,
                    volume_source: f.volume_source,
                    runtime_id: f.runtime_id,
                    phase: Phase::AwaitVolumeInspect,
                },
                ActionM::InspectVolume { name: spec_profile_volume(f.id) },
            ),
            Result::Err(error) => flow_done(f, Result::Err(DriverErrorM::Engine { error })),
        },
        (Phase::AwaitVolumeInspect, EventM::VolumeInspected { result }) => match volume_decision_m(
            result,
        ) {
            VolumeDecisionM::Reuse { name } => (
                FlowM {
                    id: f.id,
                    config_path: f.config_path,
                    volume_source: name,
                    runtime_id: f.runtime_id,
                    phase: Phase::AwaitContainerInspect,
                },
                ActionM::InspectContainer { name: spec_container_name(f.id) },
            ),
            VolumeDecisionM::Create => (
                FlowM {
                    id: f.id,
                    config_path: f.config_path,
                    volume_source: f.volume_source,
                    runtime_id: f.runtime_id,
                    phase: Phase::AwaitVolumeCreate,
                },
                ActionM::CreateVolume { name: spec_profile_volume(f.id) },
            ),
            VolumeDecisionM::Fail { error } => flow_done(f, Result::Err(error)),
        },
        (Phase::AwaitVolumeCreate, EventM::VolumeCreated { result }) => match result {
            Result::Ok(name) => (
                FlowM {
                    id: f.id,
                    config_path: f.config_path,
                    volume_source: name,
                    runtime_id: f.runtime_id,
                    phase: Phase::AwaitContainerInspect,
                },
                ActionM::InspectContainer { name: spec_container_name(f.id) },
            ),
            Result::Err(error) => flow_done(f, Result::Err(DriverErrorM::Engine { error })),
        },
        (Phase::AwaitContainerInspect, EventM::ContainerInspected { result }) => match container_decision_m(
            result,
        ) {
            ContainerDecisionM::Replace => (
                FlowM {
                    id: f.id,
                    config_path: f.config_path,
                    volume_source: f.volume_source,
                    runtime_id: f.runtime_id,
                    phase: Phase::AwaitStop,
                },
                ActionM::StopContainer { name: spec_container_name(f.id) },
            ),
            ContainerDecisionM::CreateFresh => (
                FlowM {
                    id: f.id,
                    config_path: f.config_path,
                    volume_source: f.volume_source,
                    runtime_id: f.runtime_id,
                    phase: Phase::AwaitCreate,
                },
                ActionM::CreateContainer {
                    name: spec_container_name(f.id),
                    spec: spec_desired_container(f.volume_source, f.config_path),
                },
            ),
            ContainerDecisionM::Fail { error } => flow_done(f, Result::Err(error)),
        },
        (Phase::AwaitStop, EventM::ContainerStopped { result }) => match result {
            Result::Ok(u) => (
                FlowM {
                    id: f.id,
                    config_path: f.config_path,
                    volume_source: f.volume_source,
                    runtime_id: f.runtime_id,
                    phase: Phase::AwaitRemove,
                },
                ActionM::RemoveContainer { name: spec_container_name(f.id) },
            ),
            Result::Err(error) => flow_done(f, Result::Err(DriverErrorM::Engine { error })),
        },
        (Phase::AwaitRemove, EventM::ContainerRemoved { result }) => match result {
            Result::Ok(u) => (
                FlowM {
                    id: f.id,
                    config_path: f.config_path,
                    volume_source: f.volume_source,
                    runtime_id: f.runtime_id,
                    phase: Phase::AwaitCreate,
                },
                ActionM::CreateContainer {
                    name: spec_container_name(f.id),
                    spec: spec_desired_container(f.volume_source, f.config_path),
                },
            ),
            Result::Err(error) => flow_done(f, Result::Err(DriverErrorM::Engine { error })),
        },
        (Phase::AwaitCreate, EventM::ContainerCreated { result }) => match result {
            Result::Ok(id) => (
                FlowM {
                    id: f.id,
                    config_path: f.config_path,
                    volume_source: f.volume_source,
                    runtime_id: id,
                    phase: Phase::AwaitStart,
                },
                ActionM::StartContainer { id: id },
            ),
            Result::Err(error) => flow_done(f, Result::Err(DriverErrorM::Engine { error })),
        },
        (Phase::AwaitStart, EventM::ContainerStarted { result }) => match result {
            Result::Ok(u) => flow_done(
                f,
                Result::Ok(ExecutionM { id: f.runtime_id, server_id: f.id }),
            ),
            Result::Err(error) => flow_done(f, Result::Err(DriverErrorM::Engine { error })),
        },
        _ => flow_done(f, Result::Err(DriverErrorM::Protocol)),
    }
}


/// Whether a container name follows the managed naming convention:
/// the fixed prefix followed by a server identifier.
pub open spec fn spec_is_managed_name(n: Seq<char>) -> bool {
    n.len() >= 6 && n.subrange(0, 6) == "swndr-"@
}

/// The executions that a set of engine container records denotes: one
/// per record whose name carries the managed prefix, its server
/// identifier recovered by stripping that prefix.
pub open spec fn spec_executions(entries: Seq<(Seq<char>, Seq<char>)>) -> Seq<ExecutionM> {
    entries.filter(|p: (Seq<char>, Seq<char>)| spec_is_managed_name(p.0)).map_values(
        |p: (Seq<char>, Seq<char>)| ExecutionM { id: p.1, server_id: p.0.skip(6) },
    )
}

// ---------------------------------------------------------------------
// The engine model: an engine that answers each action as the runtime
// API documents it.
// ---------------------------------------------------------------------

/// One container as the engine holds it.
pub struct ContainerRec {
    pub runtime_id: Seq<char>,
    pub spec: ContainerSpecM,
    pub running: bool,
}

/// The modelled engine: its files, volumes and containers, and the
/// identifier it will assign to the next created container.
pub struct EngineM {
    pub files: Map<Seq<char>, Seq<char>>,
    pub volumes: Set<Seq<char>>,
    pub containers: Map<Seq<char>, ContainerRec>,
    pub fresh_id: Seq<char>,
}

/// How the engine answers one action: volumes and containers are found
/// iff present, creation stores the desired specification unchanged,
/// and lookups that find nothing report a not-found status.
pub open spec fn engine_step(e: EngineM, a: ActionM) -> (EngineM, EventM) {
    match a {
        ActionM::WriteConfig { rel_path, contents } => (
            EngineM {
                files: e.files.insert(rel_path, contents),
                volumes: e.volumes,
                containers: e.containers,
                fresh_id: e.fresh_id,
            },
            EventM::ConfigWritten { result: Result::Ok(rel_path) },
        ),
        ActionM::PullImage { image } => (e, EventM::ImagePulled { result: Result::Ok(()) }),
        ActionM::InspectVolume { name } => (
            e,
            EventM::VolumeInspected {
                result: if e.volumes.contains(name) {
                    Result::Ok(name)
                } else {
                    Result::Err(EngineErrorM::Status { code: 404, message: "no such volume"@ })
                },
            },
        ),
        ActionM::CreateVolume { name } => (
            EngineM {
                files: e.files,
                volumes: e.volumes.insert(name),
                containers: e.containers,
                fresh_id: e.fresh_id,
            },
            EventM::VolumeCreated { result: Result::Ok(name) },
        ),
        ActionM::InspectContainer { name } => (
            e,
            EventM::ContainerInspected {
                result: if e.containers.dom().contains(name) {
                    Result::Ok(())
                } else {
                    Result::Err(EngineErrorM::Status { code: 404, message: "no such container"@ })
                },
            },
        ),
        ActionM::StopContainer { name } => if e.containers.dom().contains(name) {
            (
                EngineM {
                    files: e.files,
                    volumes: e.volumes,
                    containers: e.containers.insert(
                        name,
                        ContainerRec {
                            runtime_id: e.containers[name].runtime_id,
                            spec: e.containers[name].spec,
                            running: false,
                        },
                    ),
                    fresh_id: e.fresh_id,
                },
                EventM::ContainerStopped { result: Result::Ok(()) },
            )
        } else {
            (
                e,
                EventM::ContainerStopped {
                    result: Result::Err(
                        EngineErrorM::Status { code: 404, message: "no such container"@ },
                    ),
                },
            )
        },
        ActionM::RemoveContainer { name } => if e.containers.dom().contains(name) {
            (
                EngineM {
                    files: e.files,
                    volumes: e.volumes,
                    containers: e.containers.remove(name),
                    fresh_id: e.fresh_id,
                },
                EventM::ContainerRemoved { result: Result::Ok(()) },
            )
        } else {
            (
                e,
                EventM::ContainerRemoved {
                    result: Result::Err(
                        EngineErrorM::Status { code: 404, message: "no such container"@ },
                    ),
                },
            )
        },
        ActionM::CreateContainer { name, spec } => if !e.containers.dom().contains(name) {
            (
                EngineM {
                    files: e.files,
                    volumes: e.volumes,
                    containers: e.containers.insert(
                        name,
                        ContainerRec { runtime_id: e.fresh_id, spec: spec, running: false },
                    ),
                    fresh_id: e.fresh_id,
                },
                EventM::ContainerCreated { result: Result::Ok(e.fresh_id) },
            )
        } else {
            (
                e,
                EventM::ContainerCreated {
                    result: Result::Err(
                        EngineErrorM::Status { code: 409, message: "name already in use"@ },
                    ),
                },
            )
        },
        ActionM::StartContainer { id } => (
            EngineM {
                files: e.files,
                volumes: e.volumes,
                containers: Map::new(
                    |n: Seq<char>| e.containers.dom().contains(n),
                    |n: Seq<char>|
                        if e.containers[n].runtime_id == id {
                            ContainerRec {
                                runtime_id: e.containers[n].runtime_id,
                                spec: e.containers[n].spec,
                                running: true,
                            }
                        } else {
                            e.containers[n]
                        },
                ),
                fresh_id: e.fresh_id,
            },
            EventM::ContainerStarted {
                result: if (exists|n: Seq<char>|
                    #[trigger] e.containers.dom().contains(n) && e.containers[n].runtime_id
                        == id) {
                    Result::Ok(())
                } else {
                    Result::Err(
                        EngineErrorM::Status { code: 404, message: "no such container"@ },
                    )
                },
            },
        ),
        ActionM::Finish { result } => (e, EventM::ImagePulled { result: Result::Ok(()) }),
    }
}

/// Runs the conversation between flow and engine until the flow
/// finishes or the fuel runs out.
pub open spec fn drive(f: FlowM, a: ActionM, e: EngineM, fuel: nat) -> (
    EngineM,
    Option<Result<ExecutionM, DriverErrorM>>,
)
    decreases fuel,
{
    match a {
        ActionM::Finish { result } => (e, Some(result)),
        _ => if fuel == 0 {
            (e, None)
        } else {
            let stepped = engine_step(e, a);
            let next = flow_step(f, stepped.1);
            drive(next.0, next.1, stepped.0, (fuel - 1) as nat)
        },
    }
}

/// One whole `run_server` reconciliation against the modelled engine.
pub open spec fn run_model(e: EngineM, id: Seq<char>, contents: Seq<char>) -> (
    EngineM,
    Option<Result<ExecutionM, DriverErrorM>>,
)
{
    let begun = flow_begin(id, contents);
    drive(begun.0, begun.1, e, 12)
}

// ---------------------------------------------------------------------
// Laws.
// ---------------------------------------------------------------------

/// A not-found status from a lookup is recovered locally — it selects
/// the create branch — while every other failure aborts the run: a
/// non-not-found status carries its message, and a transport failure
/// passes through unchanged.
pub proof fn lemma_not_found_recovered(code: u16, message: Seq<char>)
    ensures
        code == 404 ==> volume_decision_m(
            Result::Err(EngineErrorM::Status { code, message }),
        ) == VolumeDecisionM::Create,
        code == 404 ==> container_decision_m(
            Result::Err(EngineErrorM::Status { code, message }),
        ) == ContainerDecisionM::CreateFresh,
        code != 404 ==> volume_decision_m(Result::Err(EngineErrorM::Status { code, message }))
            == (VolumeDecisionM::Fail { error: DriverErrorM::VolumeLookup { message } }),
        code != 404 ==> container_decision_m(Result::Err(EngineErrorM::Status { code, message }))
            == (ContainerDecisionM::Fail { error: DriverErrorM::ContainerLookup { message } }),
        volume_decision_m(Result::Err(EngineErrorM::Transport { message })) == (
        VolumeDecisionM::Fail {
            error: DriverErrorM::Engine { error: EngineErrorM::Transport { message } },
        }),
{
}

/// Ensuring the profile volume: the engine state after the lookup and
/// the create that a not-found answer selects, the volume name used,
/// and how many create calls were made.
pub open spec fn ensure_volume_model(e: EngineM, id: Seq<char>) -> (EngineM, Seq<char>, nat) {
    let name = spec_profile_volume(id);
    let inspected = engine_step(e, ActionM::InspectVolume { name });
    match inspected.1 {
        EventM::VolumeInspected { result } => match volume_decision_m(result) {
            VolumeDecisionM::Reuse { name: found } => (inspected.0, found, 0),
            VolumeDecisionM::Create => (
                engine_step(inspected.0, ActionM::CreateVolume { name }).0,
                name,
                1,
            ),
            VolumeDecisionM::Fail { error } => (inspected.0, name, 0),
        },
        _ => (inspected.0, name, 0),
    }
}

/// Volume creation is idempotent: ensuring the profile volume twice
/// yields the same volume identity both times, the second pass creates
/// nothing and leaves the engine untouched, and one create call is
/// made in total when the volume did not exist before.
pub proof fn lemma_ensure_volume_idempotent(e: EngineM, id: Seq<char>)
    ensures
        ensure_volume_model(e, id).1 == spec_profile_volume(id),
        !e.volumes.contains(spec_profile_volume(id)) ==> ensure_volume_model(e, id).2 == 1,
        e.volumes.contains(spec_profile_volume(id)) ==> ensure_volume_model(e, id).2 == 0,
        ensure_volume_model(ensure_volume_model(e, id).0, id).1 == ensure_volume_model(e, id).1,
        ensure_volume_model(ensure_volume_model(e, id).0, id).2 == 0,
        ensure_volume_model(ensure_volume_model(e, id).0, id).0 == ensure_volume_model(e, id).0,
{
}

/// One reconciliation run converges: whatever partial prior state the
/// engine holds — a leftover volume, a leftover container under the
/// deterministic name, both, or neither — the run succeeds, exactly
/// one container stands under the name afterwards, its specification
/// is exactly the freshly computed desired one, it is running, the
/// profile volume exists under its deterministic name, and the
/// canonical configuration text was written to the per-server path.
/// The one assumption: no *other* container already carries the
/// identifier the engine will assign next.
pub proof fn lemma_run_converges(e: EngineM, id: Seq<char>, contents: Seq<char>)
    requires
        forall|n: Seq<char>|
            #[trigger] e.containers.dom().contains(n) && n != spec_container_name(id)
                ==> e.containers[n].runtime_id != e.fresh_id,
    ensures
        run_model(e, id, contents).1 == Some(
            Result::<ExecutionM, DriverErrorM>::Ok(
                ExecutionM { id: e.fresh_id, server_id: id },
            ),
        ),
        run_model(e, id, contents).0.containers =~= e.containers.insert(
            spec_container_name(id),
            ContainerRec {
                runtime_id: e.fresh_id,
                spec: spec_desired_container(
                    spec_profile_volume(id),
                    spec_config_rel_path(id),
                ),
                running: true,
            },
        ),
        run_model(e, id, contents).0.volumes =~= e.volumes.insert(spec_profile_volume(id)),
        run_model(e, id, contents).0.files =~= e.files.insert(
            spec_config_rel_path(id),
            contents,
        ),
        run_model(e, id, contents).0.fresh_id == e.fresh_id,
{
    reveal_with_fuel(drive, 13);
    let cname = spec_container_name(id);
    let vname = spec_profile_volume(id);
    let rel = spec_config_rel_path(id);
    let desired = spec_desired_container(vname, rel);
    let begun = flow_begin(id, contents);
    let s1 = engine_step(e, begun.1);
    let n1 = flow_step(begun.0, s1.1);
    let s2 = engine_step(s1.0, n1.1);
    let n2 = flow_step(n1.0, s2.1);
    let s3 = engine_step(s2.0, n2.1);
    let n3 = flow_step(n2.0, s3.1);
    assert(s1.0.files =~= e.files.insert(rel, contents));
    if e.volumes.contains(vname) {
        assert(n3.1 == ActionM::InspectContainer { name: cname });
        lemma_container_phase(n3.0, s3.0, e, id, contents, 8);
    } else {
        let s4 = engine_step(s3.0, n3.1);
        let n4 = flow_step(n3.0, s4.1);
        assert(s4.0.volumes =~= e.volumes.insert(vname));
        assert(n4.1 == ActionM::InspectContainer { name: cname });
        lemma_container_phase(n4.0, s4.0, e, id, contents, 7);
    }
}

/// The container half of a run: from the inspect of the deterministic
/// name, the flow replaces or freshly creates the container, starts
/// it, and finishes with the engine-assigned identifier.
proof fn lemma_container_phase(f: FlowM, en: EngineM, e0: EngineM, id: Seq<char>, contents: Seq<char>, fuel: nat)
    requires
        6 <= fuel <= 11,
        f.phase == Phase::AwaitContainerInspect,
        f.id == id,
        f.volume_source == spec_profile_volume(id),
        f.config_path == spec_config_rel_path(id),
        en.fresh_id == e0.fresh_id,
        en.containers == e0.containers,
        forall|n: Seq<char>|
            #[trigger] e0.containers.dom().contains(n) && n != spec_container_name(id)
                ==> e0.containers[n].runtime_id != e0.fresh_id,
    ensures
        drive(f, ActionM::InspectContainer { name: spec_container_name(id) }, en, fuel).1
            == Some(
            Result::<ExecutionM, DriverErrorM>::Ok(
                ExecutionM { id: e0.fresh_id, server_id: id },
            ),
        ),
        drive(f, ActionM::InspectContainer { name: spec_container_name(id) }, en, fuel).0.containers
            =~= en.containers.insert(
            spec_container_name(id),
            ContainerRec {
                runtime_id: e0.fresh_id,
                spec: spec_desired_container(
                    spec_profile_volume(id),
                    spec_config_rel_path(id),
                ),
                running: true,
            },
        ),
        drive(f, ActionM::InspectContainer { name: spec_container_name(id) }, en, fuel).0.volumes
            == en.volumes,
        drive(f, ActionM::InspectContainer { name: spec_container_name(id) }, en, fuel).0.files
            == en.files,
        drive(f, ActionM::InspectContainer { name: spec_container_name(id) }, en, fuel).0.fresh_id
            == en.fresh_id,
{
    reveal_with_fuel(drive, 12);
    let cname = spec_container_name(id);
    let desired = spec_desired_container(spec_profile_volume(id), spec_config_rel_path(id));
    let a0 = ActionM::InspectContainer { name: cname };
    let s1 = engine_step(en, a0);
    let n1 = flow_step(f, s1.1);
    if en.containers.dom().contains(cname) {
        // replace: stop, remove, then create fresh
        assert(n1.1 == ActionM::StopContainer { name: cname });
        let s2 = engine_step(s1.0, n1.1);
        let n2 = flow_step(n1.0, s2.1);
        assert(n2.1 == ActionM::RemoveContainer { name: cname });
        let s3 = engine_step(s2.0, n2.1);
        let n3 = flow_step(n2.0, s3.1);
        assert(s3.0.containers =~= en.containers.remove(cname));
        assert(n3.1 == (ActionM::CreateContainer { name: cname, spec: desired }));
        let s4 = engine_step(s3.0, n3.1);
        let n4 = flow_step(n3.0, s4.1);
        assert(s4.0.containers =~= en.containers.insert(
            cname,
            ContainerRec { runtime_id: en.fresh_id, spec: desired, running: false },
        ));
        assert(n4.1 == ActionM::StartContainer { id: en.fresh_id });
        let s5 = engine_step(s4.0, n4.1);
        assert(s4.0.containers.dom().contains(cname) && s4.0.containers[cname].runtime_id
            == en.fresh_id);
        let n5 = flow_step(n4.0, s5.1);
        assert(s5.0.containers =~= en.containers.insert(
            cname,
            ContainerRec { runtime_id: e0.fresh_id, spec: desired, running: true },
        ));
    } else {
        // create fresh directly
        assert(n1.1 == (ActionM::CreateContainer { name: cname, spec: desired }));
        let s2 = engine_step(s1.0, n1.1);
        let n2 = flow_step(n1.0, s2.1);
        assert(s2.0.containers =~= en.containers.insert(
            cname,
            ContainerRec { runtime_id: en.fresh_id, spec: desired, running: false },
        ));
        assert(n2.1 == ActionM::StartContainer { id: en.fresh_id });
        let s3 = engine_step(s2.0, n2.1);
        assert(s2.0.containers.dom().contains(cname) && s2.0.containers[cname].runtime_id
            == en.fresh_id);
        let n3 = flow_step(n2.0, s3.1);
        assert(s3.0.containers =~= en.containers.insert(
            cname,
            ContainerRec { runtime_id: e0.fresh_id, spec: desired, running: true },
        ));
    }
}

/// Serialized reconciliations for the same identifier — the driver's
/// lock admits no two at once — leave exactly one well-formed running
/// container under the deterministic name, matching the configuration
/// of the later run; the profile volume is created at most once and
/// reused unchanged.
pub proof fn lemma_serialized_runs(e: EngineM, id: Seq<char>, c1: Seq<char>, c2: Seq<char>)
    requires
        forall|n: Seq<char>|
            #[trigger] e.containers.dom().contains(n) && n != spec_container_name(id)
                ==> e.containers[n].runtime_id != e.fresh_id,
    ensures
        run_model(run_model(e, id, c1).0, id, c2).1 == Some(
            Result::<ExecutionM, DriverErrorM>::Ok(
                ExecutionM { id: e.fresh_id, server_id: id },
            ),
        ),
        run_model(run_model(e, id, c1).0, id, c2).0.containers =~= e.containers.insert(
            spec_container_name(id),
            ContainerRec {
                runtime_id: e.fresh_id,
                spec: spec_desired_container(
                    spec_profile_volume(id),
                    spec_config_rel_path(id),
                ),
                running: true,
            },
        ),
        run_model(run_model(e, id, c1).0, id, c2).0.volumes =~= e.volumes.insert(
            spec_profile_volume(id),
        ),
        run_model(run_model(e, id, c1).0, id, c2).0.files =~= e.files.insert(
            spec_config_rel_path(id),
            c2,
        ),
{
    lemma_run_converges(e, id, c1);
    let e1 = run_model(e, id, c1).0;
    lemma_run_converges(e1, id, c2);
}

} // verus!

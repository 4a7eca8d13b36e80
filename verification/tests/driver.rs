use sidewinder::docker::Action;
use sidewinder::docker::ContainerDecision;
use sidewinder::docker::DriverError;
use sidewinder::docker::EngineError;
use sidewinder::docker::Event;
use sidewinder::docker::RunFlow;
use sidewinder::docker::VolumeDecision;
use sidewinder::docker::VolumeHandle;
use sidewinder::docker::config_rel_path;
use sidewinder::docker::container_name;
use sidewinder::docker::decide_container;
use sidewinder::docker::decide_volume;
use sidewinder::docker::executions_from_names;
use sidewinder::docker::image_ref;
use sidewinder::docker::profile_volume_name;
use sidewinder::docker::stop_result;
use sidewinder::docker::volume_name;
use sidewinder::exec::Execution;
use sidewinder::server::ServerConfig;

#[test]
fn deterministic_names() {
    assert_eq!(container_name("server-1"), "swndr-server-1");
    assert_eq!(volume_name("server-1", "profile"), "swndr-server-1-profile");
    assert_eq!(profile_volume_name("abc"), "swndr-abc-profile");
    assert_eq!(config_rel_path("server-1"), "servers/server-1.json");
    assert_eq!(image_ref(), "kexanone/reforger-server:latest");
}

fn server_err(code: u16) -> EngineError {
    EngineError::Server {
        status_code: code,
        message: String::from("boom"),
    }
}

#[test]
fn volume_not_found_is_not_an_error() {
    match decide_volume(Err(server_err(404))) {
        VolumeDecision::Create => {}
        other => panic!("expected create, got {:?}", other),
    }
}

#[test]
fn volume_found_is_reused() {
    let v = VolumeHandle {
        name: String::from("swndr-a-profile"),
    };
    match decide_volume(Ok(v)) {
        VolumeDecision::Reuse { volume } => assert_eq!(volume.name, "swndr-a-profile"),
        other => panic!("expected reuse, got {:?}", other),
    }
}

#[test]
fn volume_other_status_fails() {
    match decide_volume(Err(server_err(500))) {
        VolumeDecision::Fail {
            error: DriverError::VolumeLookup { message },
        } => assert_eq!(message, "boom"),
        other => panic!("expected failure, got {:?}", other),
    }
}

#[test]
fn container_not_found_creates_fresh() {
    match decide_container(Err(server_err(404))) {
        ContainerDecision::CreateFresh => {}
        other => panic!("expected create-fresh, got {:?}", other),
    }
    match decide_container(Ok(())) {
        ContainerDecision::Replace => {}
        other => panic!("expected replace, got {:?}", other),
    }
    match decide_container(Err(server_err(502))) {
        ContainerDecision::Fail {
            error: DriverError::ContainerLookup { message },
        } => assert_eq!(message, "boom"),
        other => panic!("expected failure, got {:?}", other),
    }
}

#[test]
fn stop_unknown_execution_surfaces_error() {
    let r = stop_result(Err(server_err(404)));
    match r {
        Err(DriverError::Engine {
            error: EngineError::Server { status_code, .. },
        }) => assert_eq!(status_code, 404),
        other => panic!("expected surfaced engine error, got {:?}", other),
    }
    assert!(stop_result(Ok(())).is_ok());
}

#[test]
fn list_filters_by_prefix() {
    let entries = vec![
        (String::from("swndr-alpha"), String::from("cid-1")),
        (String::from("unrelated"), String::from("cid-2")),
        (String::from("swndr-beta"), String::from("cid-3")),
        (String::from("swn"), String::from("cid-4")),
    ];
    let execs = executions_from_names(&entries);
    assert_eq!(execs.len(), 2);
    assert_eq!(execs[0].server_id, "alpha");
    assert_eq!(execs[0].id, "cid-1");
    assert_eq!(execs[1].server_id, "beta");
    assert_eq!(execs[1].id, "cid-3");
}

fn ok_unit() -> Result<(), EngineError> {
    Ok(())
}

#[test]
fn fresh_start_scenario() {
    let cfg = ServerConfig::default();
    let json = cfg.to_json();
    let (flow, action) = RunFlow::begin(String::from("server-1"), &cfg);
    let (rel, contents) = match action {
        Action::WriteConfig { rel_path, contents } => (rel_path, contents),
        other => panic!("expected config write, got {:?}", other),
    };
    assert_eq!(rel, "servers/server-1.json");
    assert_eq!(contents, json);

    let (flow, action) = flow.on_event(Event::ConfigWritten {
        result: Ok(String::from("/cfg/servers/server-1.json")),
    });
    match &action {
        Action::PullImage { image } => assert_eq!(image, "kexanone/reforger-server:latest"),
        other => panic!("expected image pull, got {:?}", other),
    }

    let (flow, action) = flow.on_event(Event::ImagePulled { result: ok_unit() });
    match &action {
        Action::InspectVolume { name } => assert_eq!(name, "swndr-server-1-profile"),
        other => panic!("expected volume inspect, got {:?}", other),
    }

    // no prior volume: not-found drives the create branch
    let (flow, action) = flow.on_event(Event::VolumeInspected {
        result: Err(server_err(404)),
    });
    match &action {
        Action::CreateVolume { name } => assert_eq!(name, "swndr-server-1-profile"),
        other => panic!("expected volume create, got {:?}", other),
    }

    let (flow, action) = flow.on_event(Event::VolumeCreated {
        result: Ok(VolumeHandle {
            name: String::from("swndr-server-1-profile"),
        }),
    });
    match &action {
        Action::InspectContainer { name } => assert_eq!(name, "swndr-server-1"),
        other => panic!("expected container inspect, got {:?}", other),
    }

    // no prior container: created fresh from the desired spec
    let (flow, action) = flow.on_event(Event::ContainerInspected {
        result: Err(server_err(404)),
    });
    let spec = match action {
        Action::CreateContainer { name, spec } => {
            assert_eq!(name, "swndr-server-1");
            spec
        }
        other => panic!("expected container create, got {:?}", other),
    };
    assert_eq!(spec.image, "kexanone/reforger-server:latest");
    assert_eq!(spec.mounts.len(), 2);
    assert_eq!(spec.mounts[0].target, "/reforger/profile");
    assert_eq!(spec.mounts[0].source, "swndr-server-1-profile");
    assert_eq!(spec.mounts[1].target, "/reforger/config.json");
    assert_eq!(spec.mounts[1].source, "/cfg/servers/server-1.json");
    assert_eq!(
        spec.cmd,
        vec![
            String::from("-config"),
            String::from("/reforger/config.json"),
            String::from("-profile"),
            String::from("/reforger/profile"),
            String::from("-maxFPS"),
            String::from("60"),
        ]
    );

    let (flow, action) = flow.on_event(Event::ContainerCreated {
        result: Ok(String::from("cid-42")),
    });
    match &action {
        Action::StartContainer { id } => assert_eq!(id, "cid-42"),
        other => panic!("expected container start, got {:?}", other),
    }

    let (_flow, action) = flow.on_event(Event::ContainerStarted { result: ok_unit() });
    match action {
        Action::Finish { result: Ok(exec) } => {
            assert_eq!(
                exec,
                Execution {
                    id: String::from("cid-42"),
                    server_id: String::from("server-1"),
                }
            );
        }
        other => panic!("expected successful finish, got {:?}", other),
    }
}

#[test]
fn rerun_replaces_existing_container() {
    let cfg = ServerConfig::default();
    let (flow, _) = RunFlow::begin(String::from("server-1"), &cfg);
    let (flow, _) = flow.on_event(Event::ConfigWritten {
        result: Ok(String::from("/cfg/servers/server-1.json")),
    });
    let (flow, _) = flow.on_event(Event::ImagePulled { result: ok_unit() });
    // volume from the previous run is reused as-is
    let (flow, action) = flow.on_event(Event::VolumeInspected {
        result: Ok(VolumeHandle {
            name: String::from("swndr-server-1-profile"),
        }),
    });
    match &action {
        Action::InspectContainer { name } => assert_eq!(name, "swndr-server-1"),
        other => panic!("expected container inspect, got {:?}", other),
    }
    // an existing container is stopped, removed, and recreated
    let (flow, action) = flow.on_event(Event::ContainerInspected { result: Ok(()) });
    match &action {
        Action::StopContainer { name } => assert_eq!(name, "swndr-server-1"),
        other => panic!("expected stop, got {:?}", other),
    }
    let (flow, action) = flow.on_event(Event::ContainerStopped { result: ok_unit() });
    match &action {
        Action::RemoveContainer { name } => assert_eq!(name, "swndr-server-1"),
        other => panic!("expected remove, got {:?}", other),
    }
    let (_flow, action) = flow.on_event(Event::ContainerRemoved { result: ok_unit() });
    match action {
        Action::CreateContainer { name, spec } => {
            assert_eq!(name, "swndr-server-1");
            assert_eq!(spec.mounts[1].source, "/cfg/servers/server-1.json");
        }
        other => panic!("expected create, got {:?}", other),
    }
}

#[test]
fn volume_lookup_failure_aborts_run() {
    let cfg = ServerConfig::default();
    let (flow, _) = RunFlow::begin(String::from("s"), &cfg);
    let (flow, _) = flow.on_event(Event::ConfigWritten {
        result: Ok(String::from("/cfg/servers/s.json")),
    });
    let (flow, _) = flow.on_event(Event::ImagePulled { result: ok_unit() });
    let (_flow, action) = flow.on_event(Event::VolumeInspected {
        result: Err(server_err(500)),
    });
    match action {
        Action::Finish {
            result: Err(DriverError::VolumeLookup { message }),
        } => assert_eq!(message, "boom"),
        other => panic!("expected volume lookup failure, got {:?}", other),
    }
}

#[test]
fn config_write_failure_aborts_before_engine() {
    let cfg = ServerConfig::default();
    let (flow, _) = RunFlow::begin(String::from("s"), &cfg);
    let (_flow, action) = flow.on_event(Event::ConfigWritten {
        result: Err(String::from("disk full")),
    });
    match action {
        Action::Finish {
            result: Err(DriverError::ConfigWrite { message }),
        } => assert_eq!(message, "disk full"),
        other => panic!("expected config write failure, got {:?}", other),
    }
}

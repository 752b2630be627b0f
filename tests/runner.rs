use ockam_portal::config::{NodeConfig, OckamConfig};
use ockam_portal::portal::{CreateCommand, CreateTypeCommand, NodeOpts, PortalError};
use ockam_portal::protocol::{Exchange, PortalRequest, PortalStatus};
use ockam_portal::runner::{step_run, RunAction, RunEvent, RunState};
use ockam_portal::snippet::ComposableSnippet;
use ockam_portal::startup::StartupConfig;

fn registry() -> OckamConfig {
    let mut cfg = OckamConfig::default_values();
    cfg.insert_node(
        "n1".to_string(),
        NodeConfig { port: 4000, pid: None, state_dir: "/var/n1".to_string() },
    );
    cfg
}

fn outlet(node: &str) -> CreateCommand {
    CreateCommand {
        node_opts: NodeOpts { api_node: Some(node.to_string()) },
        create_subcommand: CreateTypeCommand::TcpOutlet {
            tcp_address: "127.0.0.1:9000".to_string(),
            worker_address: "worker_x".to_string(),
        },
        alias: None,
    }
}

fn reply(status: u16) -> RunEvent {
    RunEvent::Exchanged(Exchange::Reply {
        status,
        payload: PortalStatus { alias: "worker_x".to_string(), addr: "0#worker_x".to_string() },
    })
}

fn sent_state() -> RunState {
    let (state, action) = outlet("n1").run(&registry());
    match action {
        RunAction::Send { port, request } => {
            assert_eq!(port, 4000);
            assert!(matches!(request, PortalRequest::Outlet(_)));
        }
        other => panic!("expected a request to be sent, got {:?}", other),
    }
    state
}

#[test]
fn run_outlet_on_known_node_records_snippet() {
    let state = sent_state();
    let (state, action) = step_run(state, reply(200));
    match action {
        RunAction::LoadLog { node } => assert_eq!(node, Some("n1".to_string())),
        other => panic!("expected the log to be loaded, got {:?}", other),
    }
    let (state, action) = step_run(state, RunEvent::LogLoaded(Some(StartupConfig::default_values())));
    let written = match action {
        RunAction::WriteLog { node, log } => {
            assert_eq!(node, Some("n1".to_string()));
            log
        }
        other => panic!("expected the log to be written, got {:?}", other),
    };
    assert_eq!(written.commands.len(), 1);
    assert_eq!(written.commands[0].id, "_portal_outlet_tcp_worker\\ux_127.0.0.1:9000");
    let (state, action) = step_run(state, RunEvent::LogWritten(true));
    assert!(matches!(state, RunState::Done));
    match action {
        RunAction::Finish(Ok(created)) => {
            assert_eq!(created.alias, "worker_x");
            assert_eq!(created.addr, "0#worker_x");
        }
        other => panic!("expected success, got {:?}", other),
    }
}

#[test]
fn run_on_unknown_node_ends_not_found() {
    let (state, action) = outlet("n9").run(&registry());
    assert!(matches!(state, RunState::Done));
    assert!(matches!(action, RunAction::Finish(Err(PortalError::NotFound))));
}

#[test]
fn run_failed_exchange_writes_nothing() {
    for event in [reply(500), RunEvent::Exchanged(Exchange::TransportFailed), RunEvent::Exchanged(Exchange::Malformed)] {
        let (state, action) = step_run(sent_state(), event);
        assert!(matches!(state, RunState::Done));
        assert!(matches!(action, RunAction::Finish(Err(_))));
    }
}

#[test]
fn run_log_failures_are_reported() {
    let (state, _) = step_run(sent_state(), reply(200));
    let (_, action) = step_run(state, RunEvent::LogLoaded(None));
    assert!(matches!(action, RunAction::Finish(Err(PortalError::ConfigIoError))));

    let (state, _) = step_run(sent_state(), reply(200));
    let (state, _) = step_run(state, RunEvent::LogLoaded(Some(StartupConfig::default_values())));
    let (_, action) = step_run(state, RunEvent::LogWritten(false));
    assert!(matches!(action, RunAction::Finish(Err(PortalError::ConfigWriteError))));
}

#[test]
fn run_event_out_of_turn_is_internal_error() {
    let (_, action) = step_run(sent_state(), RunEvent::LogWritten(true));
    assert!(matches!(action, RunAction::Finish(Err(PortalError::InternalLogicError))));
    let (_, action) = step_run(RunState::Done, reply(200));
    assert!(matches!(action, RunAction::Finish(Err(PortalError::InternalLogicError))));
}

#[test]
fn run_upserts_into_existing_log() {
    let mut existing = StartupConfig::default_values();
    existing.add_composite(ComposableSnippet::portal(
        ockam_portal::snippet::PortalMode::Outlet,
        "worker_x".to_string(),
        "127.0.0.1:9000".to_string(),
    ));
    let (state, _) = step_run(sent_state(), reply(200));
    let (_, action) = step_run(state, RunEvent::LogLoaded(Some(existing)));
    match action {
        RunAction::WriteLog { log, .. } => assert_eq!(log.commands.len(), 1),
        other => panic!("expected the log to be written, got {:?}", other),
    }
}

fn outlet_to(tcp: &str) -> CreateCommand {
    let mut c = outlet("n1");
    c.create_subcommand = CreateTypeCommand::TcpOutlet {
        tcp_address: tcp.to_string(),
        worker_address: "worker_x".to_string(),
    };
    c
}

fn run_to_write(cmd: &CreateCommand, loaded: StartupConfig) -> StartupConfig {
    let (state, _) = cmd.run(&registry());
    let (state, _) = step_run(state, reply(200));
    match step_run(state, RunEvent::LogLoaded(Some(loaded))).1 {
        RunAction::WriteLog { log, .. } => log,
        other => panic!("expected the log to be written, got {:?}", other),
    }
}

#[test]
fn successive_runs_keep_their_order() {
    let mut l0 = StartupConfig::default_values();
    l0.add_composite(ComposableSnippet::portal(
        ockam_portal::snippet::PortalMode::Inlet,
        "127.0.0.1:7000".to_string(),
        "/ip4/10.0.0.1/tcp/4000".to_string(),
    ));
    let first = run_to_write(&outlet_to("127.0.0.1:9001"), l0);
    let second = run_to_write(&outlet_to("127.0.0.1:9000"), first);
    let ids: Vec<String> = second.commands.iter().map(|s| s.id.clone()).collect();
    assert_eq!(
        ids,
        vec![
            "_portal_inlet_tcp_127.0.0.1:7000_/ip4/10.0.0.1/tcp/4000".to_string(),
            "_portal_outlet_tcp_worker\\ux_127.0.0.1:9001".to_string(),
            "_portal_outlet_tcp_worker\\ux_127.0.0.1:9000".to_string(),
        ]
    );
}

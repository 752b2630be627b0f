use ockam_portal::config::{NodeConfig, OckamConfig};
use ockam_portal::portal::{
    create_inlet, create_outlet, exchange_outcome, exit_status, plan_portal,
    portal_request, record_outcome, settle_exchange, CreateCommand,
    CreateTypeCommand, NodeOpts, PortalCreated, PortalError,
};
use ockam_portal::protocol::{manager_route, Exchange, PortalRequest, PortalStatus, Route, NODEMANAGER_ADDR};
use ockam_portal::snippet::{portal_snippet_id, ComposableSnippet, Operation, PortalMode, Protocol};
use ockam_portal::startup::StartupConfig;

fn node(port: u16) -> NodeConfig {
    NodeConfig { port, pid: Some(42), state_dir: "/tmp/state".to_string() }
}

fn config_with(name: &str, port: u16) -> OckamConfig {
    let mut cfg = OckamConfig::default_values();
    cfg.insert_node(name.to_string(), node(port));
    cfg
}

fn outlet_command(node: Option<&str>) -> CreateCommand {
    CreateCommand {
        node_opts: NodeOpts { api_node: node.map(|n| n.to_string()) },
        create_subcommand: CreateTypeCommand::TcpOutlet {
            tcp_address: "127.0.0.1:9000".to_string(),
            worker_address: "worker_x".to_string(),
        },
        alias: None,
    }
}

fn inlet_command() -> CreateCommand {
    CreateCommand {
        node_opts: NodeOpts { api_node: Some("n1".to_string()) },
        create_subcommand: CreateTypeCommand::TcpInlet {
            bind: "127.0.0.1:7000".to_string(),
            outlet_addr: "/ip4/127.0.0.1/tcp/4000/ockam/outlet".to_string(),
        },
        alias: Some("web".to_string()),
    }
}

fn snippet(bind: &str, peer: &str) -> ComposableSnippet {
    ComposableSnippet::portal(PortalMode::Inlet, bind.to_string(), peer.to_string())
}

fn ok_reply(alias: &str, addr: &str) -> Exchange {
    Exchange::Reply {
        status: 200,
        payload: PortalStatus { alias: alias.to_string(), addr: addr.to_string() },
    }
}

#[test]
fn snippet_id_exact_format() {
    let id = portal_snippet_id(PortalMode::Outlet, Protocol::Tcp, "worker_x", "127.0.0.1:9000");
    assert_eq!(id, "_portal_outlet_tcp_worker\\ux_127.0.0.1:9000");
    let id = portal_snippet_id(PortalMode::Inlet, Protocol::Tcp, "127.0.0.1:7000", "/ip4/x");
    assert_eq!(id, "_portal_inlet_tcp_127.0.0.1:7000_/ip4/x");
}

#[test]
fn snippet_ids_equal_for_equal_operations_and_differ_otherwise() {
    let a = snippet("127.0.0.1:7000", "peer");
    let b = snippet("127.0.0.1:7000", "peer");
    assert_eq!(a.id, b.id);
    assert_ne!(a.id, snippet("127.0.0.1:7001", "peer").id);
    assert_ne!(a.id, snippet("127.0.0.1:7000", "other").id);
    let outlet = ComposableSnippet::portal(PortalMode::Outlet, "127.0.0.1:7000".to_string(), "peer".to_string());
    assert_ne!(a.id, outlet.id);
}

#[test]
fn snippet_ids_escape_separators() {
    let a = snippet("a_b", "c");
    let b = snippet("a", "b_c");
    assert_ne!(a.id, b.id);
    assert_eq!(a.id, "_portal_inlet_tcp_a\\ub_c");
    assert_eq!(b.id, "_portal_inlet_tcp_a_b\\uc");
    let slash = snippet("a\\", "b");
    assert_eq!(slash.id, "_portal_inlet_tcp_a\\\\_b");
    assert_ne!(slash.id, snippet("a", "\\b").id);
    assert_ne!(snippet("a\\u", "b").id, snippet("a_", "b").id);
}

#[test]
fn snippet_from_command_fields() {
    let s = ComposableSnippet::from_command(&inlet_command());
    assert_eq!(s.id, "_portal_inlet_tcp_127.0.0.1:7000_/ip4/127.0.0.1/tcp/4000/ockam/outlet");
    assert!(s.params.is_empty());
    match s.op {
        Operation::Portal { mode, protocol, bind, peer } => {
            assert_eq!(mode, PortalMode::Inlet);
            assert_eq!(protocol, Protocol::Tcp);
            assert_eq!(bind, "127.0.0.1:7000");
            assert_eq!(peer, "/ip4/127.0.0.1/tcp/4000/ockam/outlet");
        }
    }
}

#[test]
fn add_composite_same_id_replaces_in_place() {
    let mut log = StartupConfig::default_values();
    log.add_composite(snippet("a", "x"));
    log.add_composite(snippet("b", "y"));
    let mut again = snippet("a", "x");
    again.params.push("latest".to_string());
    log.add_composite(again);
    assert_eq!(log.commands.len(), 2);
    assert_eq!(log.commands[0].id, "_portal_inlet_tcp_a_x");
    assert_eq!(log.commands[0].params, vec!["latest".to_string()]);
    assert_eq!(log.commands[1].id, "_portal_inlet_tcp_b_y");
}

#[test]
fn add_composite_keeps_insertion_order() {
    let mut log = StartupConfig::default_values();
    for (b, p) in [("c", "1"), ("a", "2"), ("b", "3")] {
        log.add_composite(snippet(b, p));
    }
    let ids: Vec<String> = log.commands.iter().map(|s| s.id.clone()).collect();
    assert_eq!(ids, vec!["_portal_inlet_tcp_c_1", "_portal_inlet_tcp_a_2", "_portal_inlet_tcp_b_3"]);
}

#[test]
fn default_config_values() {
    let cfg = OckamConfig::default_values();
    assert_eq!(cfg.api_node, "default");
    assert!(cfg.nodes.is_empty());
    assert!(StartupConfig::default_values().commands.is_empty());
}

#[test]
fn select_node_default_and_unknown() {
    let mut cfg = config_with("default", 5000);
    cfg.insert_node("n1".to_string(), node(4000));
    assert_eq!(cfg.select_node(&None).map(|n| n.port), Some(5000));
    assert_eq!(cfg.select_node(&Some("default".to_string())).map(|n| n.port), Some(5000));
    assert_eq!(cfg.select_node(&Some("n1".to_string())).map(|n| n.port), Some(4000));
    assert!(cfg.select_node(&Some("missing".to_string())).is_none());
    assert!(OckamConfig::default_values().select_node(&None).is_none());
}

#[test]
fn insert_node_replaces_by_name() {
    let mut cfg = config_with("n1", 4000);
    cfg.insert_node("n2".to_string(), node(4001));
    cfg.insert_node("n1".to_string(), node(5000));
    assert_eq!(cfg.nodes.len(), 2);
    assert_eq!(cfg.select_node(&Some("n1".to_string())).map(|n| n.port), Some(5000));
    assert_eq!(cfg.select_node(&Some("n2".to_string())).map(|n| n.port), Some(4001));
    assert_eq!(cfg.api_node, "default");
}

#[test]
fn requests_follow_the_variant() {
    let inlet = create_inlet(&inlet_command()).unwrap();
    assert_eq!(inlet.bind, "127.0.0.1:7000");
    assert_eq!(inlet.alias, Some("web".to_string()));
    assert_eq!(create_outlet(&inlet_command()).unwrap_err(), PortalError::InternalLogicError);
    assert_eq!(create_inlet(&outlet_command(None)).unwrap_err(), PortalError::InternalLogicError);
    match portal_request(&outlet_command(None)).unwrap() {
        PortalRequest::Outlet(o) => {
            assert_eq!(o.tcp_address, "127.0.0.1:9000");
            assert_eq!(o.worker_address, "worker_x");
            assert_eq!(o.alias, None);
        }
        PortalRequest::Inlet(_) => panic!("outlet command built an inlet request"),
    }
}

#[test]
fn route_ends_at_the_manager() {
    let base = Route { hops: vec!["1#localhost:4000".to_string()] };
    let r = manager_route(base);
    assert_eq!(r.hops, vec!["1#localhost:4000".to_string(), NODEMANAGER_ADDR.to_string()]);
    assert_eq!(NODEMANAGER_ADDR, "_internal.nodeman");
}

#[test]
fn exchange_outcomes() {
    let ok = exchange_outcome(PortalMode::Outlet, ok_reply("w", "0#w")).unwrap();
    assert_eq!(ok.alias, "w");
    assert_eq!(ok.addr, "0#w");
    let bad = Exchange::Reply { status: 400, payload: PortalStatus { alias: "w".to_string(), addr: "a".to_string() } };
    assert_eq!(exchange_outcome(PortalMode::Outlet, bad).unwrap_err(), PortalError::ProtocolError);
    assert_eq!(exchange_outcome(PortalMode::Inlet, Exchange::Malformed).unwrap_err(), PortalError::DecodeError);
    assert_eq!(exchange_outcome(PortalMode::Inlet, Exchange::TransportFailed).unwrap_err(), PortalError::TransportError);
}

#[test]
fn failed_exchange_leaves_log_unchanged() {
    for ex in [
        Exchange::Reply { status: 500, payload: PortalStatus { alias: "w".to_string(), addr: "a".to_string() } },
        Exchange::TransportFailed,
        Exchange::Malformed,
    ] {
        let mut log = StartupConfig::default_values();
        log.add_composite(snippet("a", "x"));
        let r = settle_exchange(&mut log, snippet("b", "y"), PortalMode::Inlet, ex);
        assert!(r.is_err());
        assert_ne!(exit_status(&r), 0);
        assert_eq!(log.commands.len(), 1);
        assert_eq!(log.commands[0].id, "_portal_inlet_tcp_a_x");
    }
}

#[test]
fn outlet_created_on_known_node() {
    let cfg = config_with("n1", 4000);
    let cmd = outlet_command(Some("n1"));
    let plan = plan_portal(&cfg, &cmd).unwrap();
    assert_eq!(plan.port, 4000);
    assert_eq!(plan.node, Some("n1".to_string()));
    let mut log = StartupConfig::default_values();
    let r = settle_exchange(&mut log, plan.snippet, PortalMode::Outlet, ok_reply("worker_x", "0#worker_x"));
    assert_eq!(exit_status(&r), 0);
    let created = r.unwrap();
    assert_eq!(created.addr, "0#worker_x");
    assert_eq!(log.commands.len(), 1);
    assert_eq!(log.commands[0].id, "_portal_outlet_tcp_worker\\ux_127.0.0.1:9000");
    match &log.commands[0].op {
        Operation::Portal { peer, bind, .. } => {
            assert_eq!(peer, "127.0.0.1:9000");
            assert_eq!(bind, "worker_x");
        }
    }
}

#[test]
fn outlet_on_unknown_node_is_not_found() {
    let cfg = config_with("n2", 4000);
    let r = plan_portal(&cfg, &outlet_command(Some("n1")));
    assert_eq!(r.unwrap_err(), PortalError::NotFound);
    let done: Result<PortalCreated, PortalError> = Err(PortalError::NotFound);
    assert_ne!(exit_status(&done), 0);
    let mut log = StartupConfig::default_values();
    assert!(!record_outcome(&mut log, snippet("a", "b"), &done));
    assert!(log.commands.is_empty());
}

#[test]
fn record_outcome_on_success() {
    let mut log = StartupConfig::default_values();
    let done: Result<PortalCreated, PortalError> = Ok(PortalCreated {
        mode: PortalMode::Inlet,
        alias: "web".to_string(),
        addr: "127.0.0.1:7000".to_string(),
    });
    assert!(record_outcome(&mut log, snippet("a", "b"), &done));
    assert_eq!(log.commands.len(), 1);
}

#[test]
fn reports_and_messages() {
    let c = PortalCreated { mode: PortalMode::Outlet, alias: "worker_x".to_string(), addr: "0#worker_x".to_string() };
    assert_eq!(c.report(), "Portal outlet 'worker_x' created! You can send messages through it via this address:\n0#worker_x");
    let i = PortalCreated { mode: PortalMode::Inlet, alias: "web".to_string(), addr: "127.0.0.1:7000".to_string() };
    assert_eq!(i.report(), "Portal inlet 'web' created! You can send messages to it on this tcp address: \n127.0.0.1:7000");
    assert_eq!(PortalError::InternalLogicError.message(), "Internal logic error");
    assert!(PortalError::NotFound.message().starts_with("No such node"));
    assert_eq!(PortalMode::Outlet.word(), "outlet");
    assert_eq!(Protocol::Tcp.word(), "tcp");
}

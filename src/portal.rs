//! Creating a TCP portal on a node: the command, the request sent to the
//! node's manager, and what is decided from its answer.
use crate::config::OckamConfig;
use crate::snippet::{ComposableSnippet, PortalMode};
use crate::protocol::{
    Exchange, InletRequest, OutletRequest, PortalRequest, PortalStatus,
    STATUS_OK,
};
use crate::startup::{upserted, StartupConfig};
use vstd::prelude::*;
use vstd::string::*;

verus! {

/// Which node a command is addressed to.
#[derive(Clone, Debug)]
pub struct NodeOpts {
    /// The node's alias; `None` stands for the configured default node.
    pub api_node: Option<String>,
}

/// A portal creation variant.
#[derive(Clone, Debug)]
pub enum CreateTypeCommand {
    /// A TCP portal inlet bound to `bind`, forwarding to the outlet at the
    /// routing address `outlet_addr`.
    TcpInlet { bind: String, outlet_addr: String },
    /// A TCP portal outlet connecting to `tcp_address`, served by the
    /// worker at `worker_address`.
    TcpOutlet { tcp_address: String, worker_address: String },
}

/// A `portal create` command.
#[derive(Clone, Debug)]
pub struct CreateCommand {
    pub node_opts: NodeOpts,
    pub create_subcommand: CreateTypeCommand,
    /// The portal endpoint's name, if one was given.
    pub alias: Option<String>,
}

impl CreateTypeCommand {
    pub open spec fn spec_mode(self) -> PortalMode {
        match self {
            CreateTypeCommand::TcpInlet { .. } => PortalMode::Inlet,
            CreateTypeCommand::TcpOutlet { .. } => PortalMode::Outlet,
        }
    }

    /// The local side of the portal: the inlet's bind address, or the
    /// outlet's worker address.
    pub open spec fn spec_bind(self) -> Seq<char> {
        match self {
            CreateTypeCommand::TcpInlet { bind, .. } => bind@,
            CreateTypeCommand::TcpOutlet { worker_address, .. } => worker_address@,
        }
    }

    /// The far side of the portal: the inlet's outlet address, or the
    /// outlet's TCP address.
    pub open spec fn spec_peer(self) -> Seq<char> {
        match self {
            CreateTypeCommand::TcpInlet { outlet_addr, .. } => outlet_addr@,
            CreateTypeCommand::TcpOutlet { tcp_address, .. } => tcp_address@,
        }
    }

    pub fn mode(&self) -> (r: PortalMode)
        ensures
            r == self.spec_mode(),
    {
        match self {
            CreateTypeCommand::TcpInlet { .. } => PortalMode::Inlet,
            CreateTypeCommand::TcpOutlet { .. } => PortalMode::Outlet,
        }
    }

    pub fn bind(&self) -> (r: String)
        ensures
            r@ == self.spec_bind(),
    {
        match self {
            CreateTypeCommand::TcpInlet { bind, .. } => bind.clone(),
            CreateTypeCommand::TcpOutlet { worker_address, .. } => worker_address.clone(),
        }
    }

    pub fn peer(&self) -> (r: String)
        ensures
            r@ == self.spec_peer(),
    {
        match self {
            CreateTypeCommand::TcpInlet { outlet_addr, .. } => outlet_addr.clone(),
            CreateTypeCommand::TcpOutlet { tcp_address, .. } => tcp_address.clone(),
        }
    }
}

impl ComposableSnippet {
    /// The snippet that replays a portal creation command.
    pub fn from_command(cc: &CreateCommand) -> (r: ComposableSnippet)
        ensures
            r.is_portal(
                cc.create_subcommand.spec_mode(),
                cc.create_subcommand.spec_bind(),
                cc.create_subcommand.spec_peer(),
            ),
    {
        let bind = cc.create_subcommand.bind();
        let peer = cc.create_subcommand.peer();
        let mode = cc.create_subcommand.mode();
        ComposableSnippet::portal(mode, bind, peer)
    }
}

/// Why a portal creation command failed.
#[derive(Clone, Copy, Debug, PartialEq, Eq, Structural)]
pub enum PortalError {
    /// No node is registered under the selected alias.
    NotFound,
    /// Sending the request or receiving its response failed.
    TransportError,
    /// The node manager answered with a status other than success.
    ProtocolError,
    /// The response could not be decoded.
    DecodeError,
    /// The startup log could not be loaded.
    ConfigIoError,
    /// The startup log could not be written.
    ConfigWriteError,
    /// A request reached the handler of the other portal variant.
    InternalLogicError,
}

/// The diagnostic shown to the user for an error.
pub open spec fn error_message(e: PortalError) -> Seq<char> {
    match e {
        PortalError::NotFound => "No such node available.  Run `ockam node list` to list available nodes"@,
        PortalError::TransportError => "failed to reach the node manager"@,
        PortalError::ProtocolError => "An unknown error occurred while creating the portal..."@,
        PortalError::DecodeError => "failed to decode the node manager's response"@,
        PortalError::ConfigIoError => "failed to load startup configuration"@,
        PortalError::ConfigWriteError => "failed to update configuration"@,
        PortalError::InternalLogicError => "Internal logic error"@,
    }
}

impl PortalError {
    /// The diagnostic shown to the user.
    pub fn message(&self) -> (r: &'static str)
        ensures
            r@ == error_message(*self),
    {
        match self {
            PortalError::NotFound => "No such node available.  Run `ockam node list` to list available nodes",
            PortalError::TransportError => "failed to reach the node manager",
            PortalError::ProtocolError => "An unknown error occurred while creating the portal...",
            PortalError::DecodeError => "failed to decode the node manager's response",
            PortalError::ConfigIoError => "failed to load startup configuration",
            PortalError::ConfigWriteError => "failed to update configuration",
            PortalError::InternalLogicError => "Internal logic error",
        }
    }
}

/// Whether an inlet request carries exactly the fields of an inlet command.
pub open spec fn inlet_request_of(cmd: CreateCommand, r: InletRequest) -> bool {
    match cmd.create_subcommand {
        CreateTypeCommand::TcpInlet { bind, outlet_addr } => r.bind@ == bind@ && r.outlet_addr@
            == outlet_addr@ && r.alias == cmd.alias,
        CreateTypeCommand::TcpOutlet { .. } => false,
    }
}

/// Whether an outlet request carries exactly the fields of an outlet command.
pub open spec fn outlet_request_of(cmd: CreateCommand, r: OutletRequest) -> bool {
    match cmd.create_subcommand {
        CreateTypeCommand::TcpOutlet { tcp_address, worker_address } => r.tcp_address@
            == tcp_address@ && r.worker_address@ == worker_address@ && r.alias == cmd.alias,
        CreateTypeCommand::TcpInlet { .. } => false,
    }
}

/// Whether `r` is the request that command `cmd` sends.
pub open spec fn request_of(cmd: CreateCommand, r: PortalRequest) -> bool {
    match r {
        PortalRequest::Inlet(i) => inlet_request_of(cmd, i),
        PortalRequest::Outlet(o) => outlet_request_of(cmd, o),
    }
}

fn clone_alias(alias: &Option<String>) -> (r: Option<String>)
    ensures
        r == *alias,
{
    match alias {
        Some(a) => Some(a.clone()),
        None => None,
    }
}

/// The inlet request of an inlet command; an outlet command here is an
/// internal logic error.
pub fn create_inlet(cmd: &CreateCommand) -> (r: Result<InletRequest, PortalError>)
    ensures
        match r {
            Ok(req) => inlet_request_of(*cmd, req),
            Err(e) => e == PortalError::InternalLogicError && cmd.create_subcommand.spec_mode()
                == PortalMode::Outlet,
        },
        r is Ok <==> cmd.create_subcommand.spec_mode() == PortalMode::Inlet,
{
    match &cmd.create_subcommand {
        CreateTypeCommand::TcpInlet { bind, outlet_addr } => Ok(
            InletRequest {
                bind: bind.clone(),
                outlet_addr: outlet_addr.clone(),
                alias: clone_alias(&cmd.alias),
            },
        ),
        CreateTypeCommand::TcpOutlet { .. } => Err(PortalError::InternalLogicError),
    }
}

/// The outlet request of an outlet command; an inlet command here is an
/// internal logic error.
pub fn create_outlet(cmd: &CreateCommand) -> (r: Result<OutletRequest, PortalError>)
    ensures
        match r {
            Ok(req) => outlet_request_of(*cmd, req),
            Err(e) => e == PortalError::InternalLogicError && cmd.create_subcommand.spec_mode()
                == PortalMode::Inlet,
        },
        r is Ok <==> cmd.create_subcommand.spec_mode() == PortalMode::Outlet,
{
    match &cmd.create_subcommand {
        CreateTypeCommand::TcpInlet { .. } => Err(PortalError::InternalLogicError),
        CreateTypeCommand::TcpOutlet { tcp_address, worker_address } => Ok(
            OutletRequest {
                tcp_address: tcp_address.clone(),
                worker_address: worker_address.clone(),
                alias: clone_alias(&cmd.alias),
            },
        ),
    }
}

/// The request a command sends, built by the handler of its own variant.
pub fn portal_request(cmd: &CreateCommand) -> (r: Result<PortalRequest, PortalError>)
    ensures
        r matches Ok(req) && request_of(*cmd, req),
{
    match &cmd.create_subcommand {
        CreateTypeCommand::TcpInlet { .. } => match create_inlet(cmd) {
            Ok(req) => Ok(PortalRequest::Inlet(req)),
            Err(e) => Err(e),
        },
        CreateTypeCommand::TcpOutlet { .. } => match create_outlet(cmd) {
            Ok(req) => Ok(PortalRequest::Outlet(req)),
            Err(e) => Err(e),
        },
    }
}

/// What a command does once its node is resolved: where it connects, the
/// snippet that records it, and the request it sends.
#[derive(Clone, Debug)]
pub struct PortalPlan {
    /// The port of the node manager's endpoint.
    pub port: u16,
    /// The node whose startup log records the snippet.
    pub node: Option<String>,
    pub snippet: ComposableSnippet,
    pub request: PortalRequest,
}

/// Resolves the command's node and derives, before anything is sent, the
/// snippet and the request. Fails with `NotFound` exactly when no node is
/// registered under the selected alias.
pub fn plan_portal(cfg: &OckamConfig, cmd: &CreateCommand) -> (r: Result<PortalPlan, PortalError>)
    ensures
        match r {
            Ok(p) => {
                &&& cfg.selected(cmd.node_opts.api_node) is Some
                &&& p.port == cfg.selected(cmd.node_opts.api_node)->Some_0.port
                &&& p.node == cmd.node_opts.api_node
                &&& p.snippet.is_portal(
                    cmd.create_subcommand.spec_mode(),
                    cmd.create_subcommand.spec_bind(),
                    cmd.create_subcommand.spec_peer(),
                )
                &&& request_of(*cmd, p.request)
            },
            Err(e) => e == PortalError::NotFound && cfg.selected(cmd.node_opts.api_node) is None,
        },
{
    let port = match cfg.select_node(&cmd.node_opts.api_node) {
        Some(node) => node.port,
        None => return Err(PortalError::NotFound),
    };
    let snippet = ComposableSnippet::from_command(cmd);
    let request = match portal_request(cmd) {
        Ok(req) => req,
        Err(e) => return Err(e),
    };
    Ok(PortalPlan { port, node: clone_alias(&cmd.node_opts.api_node), snippet, request })
}

/// A portal that the node manager reports as created.
#[derive(Clone, Debug)]
pub struct PortalCreated {
    pub mode: PortalMode,
    pub alias: String,
    /// The inlet's bind address, or the outlet's worker address.
    pub addr: String,
}

/// The report shown to the user for a created portal.
pub open spec fn created_report(c: PortalCreated) -> Seq<char> {
    match c.mode {
        PortalMode::Inlet => "Portal inlet '"@ + c.alias@
            + "' created! You can send messages to it on this tcp address: \n"@ + c.addr@,
        PortalMode::Outlet => "Portal outlet '"@ + c.alias@
            + "' created! You can send messages through it via this address:\n"@ + c.addr@,
    }
}

impl PortalCreated {
    /// The report shown to the user.
    pub fn report(&self) -> (r: String)
        ensures
            r@ == created_report(*self),
    {
        let mut r = match self.mode {
            PortalMode::Inlet => String::from_str("Portal inlet '"),
            PortalMode::Outlet => String::from_str("Portal outlet '"),
        };
        r.append(self.alias.as_str());
        match self.mode {
            PortalMode::Inlet => r.append(
                "' created! You can send messages to it on this tcp address: \n",
            ),
            PortalMode::Outlet => r.append(
                "' created! You can send messages through it via this address:\n",
            ),
        }
        r.append(self.addr.as_str());
        r
    }
}

/// What an exchange's end means for the command: success with the reported
/// portal only on a well-formed response with the success status.
pub open spec fn outcome_of(mode: PortalMode, ex: Exchange, r: Result<PortalCreated, PortalError>) -> bool {
    match ex {
        Exchange::Reply { status, payload } => if status == STATUS_OK {
            match r {
                Ok(c) => c.mode == mode && c.alias@ == payload.alias@ && c.addr@ == payload.addr@,
                Err(_) => false,
            }
        } else {
            r == Err::<PortalCreated, PortalError>(PortalError::ProtocolError)
        },
        Exchange::Malformed => r == Err::<PortalCreated, PortalError>(PortalError::DecodeError),
        Exchange::TransportFailed => r == Err::<PortalCreated, PortalError>(
            PortalError::TransportError,
        ),
    }
}

/// Decides the command's result from how its one exchange ended.
pub fn exchange_outcome(mode: PortalMode, ex: Exchange) -> (r: Result<PortalCreated, PortalError>)
    ensures
        outcome_of(mode, ex, r),
{
    match ex {
        Exchange::Reply { status, payload } => {
            if status == STATUS_OK {
                let PortalStatus { alias, addr } = payload;
                Ok(PortalCreated { mode, alias, addr })
            } else {
                Err(PortalError::ProtocolError)
            }
        },
        Exchange::Malformed => Err(PortalError::DecodeError),
        Exchange::TransportFailed => Err(PortalError::TransportError),
    }
}

/// Records a command's snippet in the node's startup log when, and only
/// when, the command succeeded; returns whether the log changed and must be
/// written back.
pub fn record_outcome(
    log: &mut StartupConfig,
    snippet: ComposableSnippet,
    outcome: &Result<PortalCreated, PortalError>,
) -> (changed: bool)
    ensures
        changed == outcome is Ok,
        changed ==> final(log).commands@ == upserted(old(log).commands@, snippet),
        !changed ==> final(log).commands@ == old(log).commands@,
{
    match outcome {
        Ok(_) => {
            log.add_composite(snippet);
            true
        },
        Err(_) => false,
    }
}

/// Settles an exchange: decides the result and records the snippet in the
/// startup log on success only. On any failed exchange the log is left
/// unchanged and the result is an error.
pub fn settle_exchange(log: &mut StartupConfig, snippet: ComposableSnippet, mode: PortalMode, ex: Exchange) -> (r: Result<PortalCreated, PortalError>)
    ensures
        outcome_of(mode, ex, r),
        r is Ok ==> final(log).commands@ == upserted(old(log).commands@, snippet),
        r is Err ==> final(log).commands@ == old(log).commands@,
{
    let r = exchange_outcome(mode, ex);
    record_outcome(log, snippet, &r);
    r
}

/// A failed exchange (a non-success status, an undecodable response or a
/// transport failure) never counts as success: the command's result is an
/// error, so its snippet is not recorded and it exits with a non-zero status.
pub proof fn lemma_failed_exchange_contained(
    mode: PortalMode,
    ex: Exchange,
    r: Result<PortalCreated, PortalError>,
)
    requires
        !(ex matches Exchange::Reply { status, .. } && status == STATUS_OK),
        outcome_of(mode, ex, r),
    ensures
        r is Err,
{
}

/// The process exit status of a command's result: zero on success only.
pub fn exit_status(r: &Result<PortalCreated, PortalError>) -> (code: i32)
    ensures
        (code == 0) <==> r is Ok,
{
    match r {
        Ok(_) => 0,
        Err(_) => -1,
    }
}

} // verus!

//! One `portal create` command as a sequence of decisions: each step takes
//! what the last action produced and says what to do next. The caller
//! performs the actions (the exchange with the node, reading and writing the
//! startup log) and reports how each ended.
use crate::config::OckamConfig;
use crate::portal::{exchange_outcome, plan_portal, CreateCommand, PortalCreated, PortalError};
use crate::protocol::{Exchange, PortalRequest};
use crate::snippet::{ComposableSnippet, PortalMode};
use crate::startup::{has_id, upserted, StartupConfig};
use vstd::prelude::*;

verus! {

/// Where a command stands.
#[derive(Clone, Debug)]
pub enum RunState {
    /// The request was sent; its exchange has not ended yet.
    Sent { node: Option<String>, snippet: ComposableSnippet, mode: PortalMode },
    /// The portal was created; the node's startup log is being read.
    Loading { node: Option<String>, snippet: ComposableSnippet, created: PortalCreated },
    /// The updated startup log is being written.
    Writing { created: PortalCreated },
    /// The command has ended.
    Done,
}

/// What the caller does next.
#[derive(Debug)]
pub enum RunAction {
    /// Send `request` to the manager of the node listening on `port`.
    Send { port: u16, request: PortalRequest },
    /// Read the node's startup log.
    LoadLog { node: Option<String> },
    /// Replace the node's startup log by `log`, in one indivisible write.
    WriteLog { node: Option<String>, log: StartupConfig },
    /// Report the result and exit.
    Finish(Result<PortalCreated, PortalError>),
}

/// How the last action ended.
#[derive(Clone, Debug)]
pub enum RunEvent {
    Exchanged(Exchange),
    /// The startup log, or `None` where it could not be read.
    LogLoaded(Option<StartupConfig>),
    /// Whether the write succeeded.
    LogWritten(bool),
}

impl CreateCommand {
    /// Starts the command: an unknown node ends it with `NotFound`; otherwise
    /// the one request is sent, its snippet derived but not yet recorded.
    pub fn run(&self, cfg: &OckamConfig) -> (r: (RunState, RunAction))
        ensures
            cfg.selected(self.node_opts.api_node) is None <==> (r.0 is Done && r.1 == RunAction::Finish(
                Err(PortalError::NotFound),
            )),
            cfg.selected(self.node_opts.api_node) is Some ==> match r {
                (RunState::Sent { node, snippet, mode }, RunAction::Send { port, request }) => {
                    &&& port == cfg.selected(self.node_opts.api_node)->Some_0.port
                    &&& node == self.node_opts.api_node
                    &&& mode == self.create_subcommand.spec_mode()
                    &&& snippet.is_portal(
                        self.create_subcommand.spec_mode(),
                        self.create_subcommand.spec_bind(),
                        self.create_subcommand.spec_peer(),
                    )
                    &&& crate::portal::request_of(*self, request)
                },
                _ => false,
            },
    {
        match plan_portal(cfg, self) {
            Ok(plan) => (
                RunState::Sent { node: plan.node, snippet: plan.snippet, mode: self.create_subcommand.mode() },
                RunAction::Send { port: plan.port, request: plan.request },
            ),
            Err(e) => (RunState::Done, RunAction::Finish(Err(e))),
        }
}
}

/// The next state and action after `event`. The startup log is written only
/// after a successful exchange, and then holds the loaded log with the
/// command's snippet upserted; every failure ends the command with its error.
pub fn step_run(state: RunState, event: RunEvent) -> (r: (RunState, RunAction))
    ensures
        match (state, event) {
            (RunState::Sent { node, snippet, mode }, RunEvent::Exchanged(ex)) => {
                match r.1 {
                    RunAction::LoadLog { node: n } => {
                        &&& n == node
                        &&& r.0 matches RunState::Loading { node: n2, snippet: s2, created }
                        &&& n2 == node && s2 == snippet
                        &&& crate::portal::outcome_of(mode, ex, Ok(created))
                    },
                    RunAction::Finish(res) => r.0 is Done && res is Err
                        && crate::portal::outcome_of(mode, ex, res),
                    _ => false,
                }
            },
            (RunState::Loading { node, snippet, created }, RunEvent::LogLoaded(loaded)) => {
                match loaded {
                    Some(log) => match r {
                        (RunState::Writing { created: c }, RunAction::WriteLog { node: n, log: written }) => {
                            &&& c == created
                            &&& n == node
                            &&& written.commands@ == upserted(log.commands@, snippet)
                        },
                        _ => false,
                    },
                    None => r.0 is Done && r.1 == RunAction::Finish(Err(PortalError::ConfigIoError)),
                }
            },
            (RunState::Writing { created }, RunEvent::LogWritten(ok)) => {
                &&& r.0 is Done
                &&& ok ==> r.1 == RunAction::Finish(Ok(created))
                &&& !ok ==> r.1 == RunAction::Finish(Err(PortalError::ConfigWriteError))
            },
            _ => r.0 is Done && r.1 == RunAction::Finish(Err(PortalError::InternalLogicError)),
        },
{
    match (state, event) {
        (RunState::Sent { node, snippet, mode }, RunEvent::Exchanged(ex)) => {
            match exchange_outcome(mode, ex) {
                Ok(created) => {
                    let n = match &node {
                        Some(s) => Some(s.clone()),
                        None => None,
                    };
                    (RunState::Loading { node, snippet, created }, RunAction::LoadLog { node: n })
                },
                Err(e) => (RunState::Done, RunAction::Finish(Err(e))),
            }
        },
        (RunState::Loading { node, snippet, created }, RunEvent::LogLoaded(loaded)) => {
            match loaded {
                Some(log) => {
                    let mut log = log;
                    log.add_composite(snippet);
                    (RunState::Writing { created }, RunAction::WriteLog { node, log })
                },
                None => (RunState::Done, RunAction::Finish(Err(PortalError::ConfigIoError))),
            }
        },
        (RunState::Writing { created }, RunEvent::LogWritten(ok)) => {
            if ok {
                (RunState::Done, RunAction::Finish(Ok(created)))
            } else {
                (RunState::Done, RunAction::Finish(Err(PortalError::ConfigWriteError)))
            }
        },
        _ => (RunState::Done, RunAction::Finish(Err(PortalError::InternalLogicError))),
    }
}

/// Successive successful runs against one node keep their snippets in the
/// order the commands ran. Where `logs[0]` is the node's log before the
/// first run, each run writes the log the previous one wrote with its own
/// snippet upserted (as `step_run` does), and the snippets' ids differ from
/// each other and from every entry of `logs[0]`, each written log is
/// `logs[0]` followed by the snippets of the runs so far.
pub proof fn lemma_runs_keep_order(logs: Seq<Seq<ComposableSnippet>>, ss: Seq<ComposableSnippet>)
    requires
        logs.len() == ss.len() + 1,
        forall|i: int| 0 <= i < ss.len() ==> #[trigger] logs[i + 1] == upserted(logs[i], ss[i]),
        forall|i: int, j: int| 0 <= i < j < ss.len() ==> #[trigger] ss[i].id@ != #[trigger] ss[j].id@,
        forall|i: int, k: int|
            0 <= i < ss.len() && 0 <= k < logs[0].len() ==> #[trigger] ss[i].id@
                != #[trigger] logs[0][k].id@,
    ensures
        forall|i: int| 0 <= i < logs.len() ==> #[trigger] logs[i] == logs[0] + ss.take(i),
{
    assert forall|i: int| 0 <= i < logs.len() implies #[trigger] logs[i] == logs[0] + ss.take(i) by {
        lemma_runs_prefix(logs, ss, i);
    }
}

proof fn lemma_runs_prefix(logs: Seq<Seq<ComposableSnippet>>, ss: Seq<ComposableSnippet>, i: int)
    requires
        logs.len() == ss.len() + 1,
        forall|i: int| 0 <= i < ss.len() ==> #[trigger] logs[i + 1] == upserted(logs[i], ss[i]),
        forall|i: int, j: int| 0 <= i < j < ss.len() ==> #[trigger] ss[i].id@ != #[trigger] ss[j].id@,
        forall|i: int, k: int|
            0 <= i < ss.len() && 0 <= k < logs[0].len() ==> #[trigger] ss[i].id@
                != #[trigger] logs[0][k].id@,
        0 <= i < logs.len(),
    ensures
        logs[i] == logs[0] + ss.take(i),
    decreases i,
{
    if i == 0 {
        assert(logs[0] + ss.take(0) =~= logs[0]);
    } else {
        lemma_runs_prefix(logs, ss, i - 1);
        let prev = logs[i - 1];
        let s = ss[i - 1];
        assert(!has_id(prev, s.id@)) by {
            assert forall|k: int| 0 <= k < prev.len() implies #[trigger] prev[k].id@ != s.id@ by {
                if k < logs[0].len() {
                    assert(prev[k] == logs[0][k]);
                    assert(ss[i - 1].id@ != logs[0][k].id@);
                } else {
                    assert(prev[k] == ss[k - logs[0].len()]);
                    assert(ss[k - logs[0].len()].id@ != ss[i - 1].id@);
                }
            }
        }
        assert(logs[i] == upserted(logs[i - 1], ss[i - 1]));
        assert(prev.push(s) =~= logs[0] + ss.take(i));
    }
}

} // verus!

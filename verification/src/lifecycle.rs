//! The node lifecycle: an Idle/Running state machine around the external node
//! process. `start` decides whether a launch may happen and with which plan;
//! `launched` takes the launch outcome and transitions; `stop` tears down the
//! tailer and the process. The process handle itself and the actual spawn are
//! outside work performed by the caller; this module holds every decision.

use vstd::prelude::*;

use crate::status::StatusMessage;

verus! {

/// The two states of the node process: no process, or one launched process
/// (with its one log tailer task).
#[derive(Clone, Copy, PartialEq, Eq, Structural, Debug)]
pub enum NodeState {
    Idle,
    Running,
}

/// Everything the caller needs to spawn the node process: the command, its
/// ordered arguments, one environment override for the child only, and the
/// demand that standard output be captured (without a captured stdout the
/// later termination signal is ignored by the child).
pub struct LaunchPlan {
    pub command: String,
    pub args: Vec<String>,
    pub env_key: String,
    pub env_value: String,
    pub capture_stdout: bool,
}

/// The argument vector that starts a node joining the named network.
pub open spec fn run_node_args(name: Seq<char>) -> Seq<Seq<char>> {
    seq!["node"@, "join"@, "--network-name"@, name]
}

/// What a launch plan for the given network name must hold.
pub open spec fn plan_for(p: LaunchPlan, name: Seq<char>) -> bool {
    &&& p.command@ == "safe"@
    &&& p.args.deep_view() == run_node_args(name)
    &&& p.env_key@ == "RUST_LOG"@
    &&& p.env_value@ == "sn_node,sn_interface=trace"@
    &&& p.capture_stdout
}

/// Build the launch plan for one network name.
pub fn launch_plan(network_name: &str) -> (p: LaunchPlan)
    ensures
        plan_for(p, network_name@),
{
    let mut args: Vec<String> = Vec::new();
    args.push("node".to_owned());
    args.push("join".to_owned());
    args.push("--network-name".to_owned());
    args.push(network_name.to_owned());
    let p = LaunchPlan {
        command: "safe".to_owned(),
        args,
        env_key: "RUST_LOG".to_owned(),
        env_value: "sn_node,sn_interface=trace".to_owned(),
        capture_stdout: true,
    };
    proof {
        assert(p.args.deep_view() =~= run_node_args(network_name@));
    }
    p
}

/// What `start` decides: launch with this plan, refuse with this status
/// (no network selected), or nothing because a node is already running.
pub enum StartDecision {
    Launch(LaunchPlan),
    Refuse(StatusMessage),
    AlreadyRunning,
}

/// What `stop` decides: abort the tailer and send the termination signal,
/// or nothing because no node is running.
pub enum StopDecision {
    TearDown,
    AlreadyIdle,
}

/// The lifecycle state machine. The caller owns the process handle and the
/// tailer task; this value says at all times whether they must exist.
pub struct Lifecycle {
    state: NodeState,
    tailer_active: bool,
}

impl Lifecycle {
    /// The current state.
    pub closed spec fn spec_state(&self) -> NodeState {
        self.state
    }

    /// Whether the one log tailer task is active.
    pub closed spec fn spec_tailer_active(&self) -> bool {
        self.tailer_active
    }

    /// A tailer task exists only while the node runs.
    pub open spec fn wf(&self) -> bool {
        self.spec_state() is Idle ==> !self.spec_tailer_active()
    }

    /// The initial state: no process, no tailer.
    pub fn new() -> (lc: Lifecycle)
        ensures
            lc.spec_state() is Idle,
            !lc.spec_tailer_active(),
    {
        Lifecycle { state: NodeState::Idle, tailer_active: false }
    }

    pub fn state(&self) -> (s: NodeState)
        ensures
            s == self.spec_state(),
    {
        self.state
    }

    pub fn tailer_active(&self) -> (b: bool)
        ensures
            b == self.spec_tailer_active(),
    {
        self.tailer_active
    }

    /// Decide on a start request. While running it is a no-op; while idle it
    /// refuses without a selected network name, and otherwise hands out the
    /// launch plan for that name. The state itself does not change until the
    /// launch outcome is reported to `launched`.
    pub fn start(&self, network_name: &Option<String>) -> (d: StartDecision)
        ensures
            self.spec_state() is Running ==> d is AlreadyRunning,
            self.spec_state() is Idle && network_name is None ==> (d matches StartDecision::Refuse(
                m,
            ) && m.text@ == "Error: No default network set"@ && m.is_error),
            self.spec_state() is Idle ==> (network_name matches Some(n) ==> (d
                matches StartDecision::Launch(p) && plan_for(p, n@))),
    {
        match self.state {
            NodeState::Running => StartDecision::AlreadyRunning,
            NodeState::Idle => {
                match network_name {
                    None => StartDecision::Refuse(
                        StatusMessage::error("Error: No default network set"),
                    ),
                    Some(name) => StartDecision::Launch(launch_plan(name.as_str())),
                }
            },
        }
    }

    /// Take the outcome of the launch that `start` decided. On success the
    /// node is running and its one tailer is active; on failure nothing
    /// changed and the launch error is reported.
    pub fn launched(&mut self, outcome: Result<(), String>) -> (m: StatusMessage)
        requires
            old(self).spec_state() is Idle,
        ensures
            outcome is Ok ==> final(self).spec_state() is Running
                && final(self).spec_tailer_active() && m.text@ == "Node is running!"@
                && !m.is_error,
            outcome matches Err(e) ==> *final(self) == *old(self) && m.text@ == "Error: "@ + e@
                && m.is_error,
    {
        match outcome {
            Ok(()) => {
                self.state = NodeState::Running;
                self.tailer_active = true;
                StatusMessage::info("Node is running!")
            },
            Err(e) => {
                let text = "Error: ".to_owned().concat(e.as_str());
                StatusMessage { text, is_error: true }
            },
        }
    }

    /// Decide on a stop request. While idle it is a no-op with no observable
    /// effect; while running the tailer is aborted and the process must be
    /// sent its termination signal, and the state is idle again whatever
    /// becomes of that signal.
    pub fn stop(&mut self) -> (d: StopDecision)
        ensures
            old(self).spec_state() is Idle ==> d is AlreadyIdle && *final(self) == *old(self),
            old(self).spec_state() is Running ==> d is TearDown && final(self).spec_state() is Idle
                && !final(self).spec_tailer_active(),
    {
        match self.state {
            NodeState::Idle => StopDecision::AlreadyIdle,
            NodeState::Running => {
                self.state = NodeState::Idle;
                self.tailer_active = false;
                StopDecision::TearDown
            },
        }
    }

    /// The statuses to report after a tear-down, in order: a failed
    /// termination signal is reported exactly once and is not fatal, and the
    /// stop itself is always reported.
    pub fn teardown_statuses(kill_ok: bool) -> (v: Vec<StatusMessage>)
        ensures
            kill_ok ==> v@.len() == 1 && v@[0].text@ == "Node has been stopped!"@
                && !v@[0].is_error,
            !kill_ok ==> v@.len() == 2 && v@[0].text@ == "Error: Failed to kill node"@
                && v@[0].is_error && v@[1].text@ == "Node has been stopped!"@ && !v@[1].is_error,
    {
        let mut v: Vec<StatusMessage> = Vec::new();
        if !kill_ok {
            v.push(StatusMessage::error("Error: Failed to kill node"));
        }
        v.push(StatusMessage::info("Node has been stopped!"));
        v
    }
}

} // verus!

use vstd::prelude::*;

use crate::action::{moves_profile, Action};

verus! {

/// How the closure reaches the remote store.
#[derive(Clone, Copy, Debug, PartialEq, Eq, Structural)]
pub enum Transport {
    /// Push the closure to the remote store with the copy tool.
    DirectCopy,
    /// Serve the closure locally and let the host pull it through a tunnel.
    SubstituteServe,
}

/// Why a run failed.
#[derive(Clone, Copy, Debug, PartialEq, Eq, Structural)]
pub enum Failure {
    /// A local tool could not be started or reported failure.
    LocalInvocation,
    /// A command on the remote host reported failure.
    RemoteCommand,
    /// The local server exited right after it was started.
    PrematureExit,
    /// The local server could not be asked to terminate.
    Termination,
}

/// How a run ended.
#[derive(Clone, Copy, Debug, PartialEq, Eq, Structural)]
pub enum Outcome {
    Success,
    Failed(Failure),
}

/// A step of a run: the one that is to be performed next.
#[derive(Clone, Copy, Debug, PartialEq, Eq, Structural)]
pub enum Stage {
    /// Sign the closure locally.
    Sign,
    /// Copy the closure to the remote store.
    Copy,
    /// Point the remote profile at the new store path.
    SetProfile,
    /// Spawn the local server.
    StartServer,
    /// Wait a short while to see whether the server exits at once.
    CheckServer,
    /// Have the remote host pull the closure from the server.
    Fetch,
    /// Ask the server to terminate; `fetch_ok` records how the fetch went.
    StopServer { fetch_ok: bool },
    /// Run the remote activation binary.
    Activate,
    /// Reboot the remote host, without waiting for its answer.
    Reboot,
    /// Nothing is left to do.
    Finished(Outcome),
}

/// What became of the step that was performed last.
#[derive(Clone, Copy, Debug, PartialEq, Eq, Structural)]
pub enum Event {
    /// The command ran and reported success.
    Succeeded,
    /// The command could not run, or reported failure.
    Failed,
    /// The server exited within the liveness window.
    Exited,
    /// The server was still running at the end of the liveness window.
    Running,
}

/// What a run is to do: fixed once at its start.
#[derive(Clone, Copy, Debug, PartialEq, Eq, Structural)]
pub struct Plan {
    pub transport: Transport,
    /// Whether the closure is signed locally before it is copied.
    pub sign: bool,
    /// Whether the transport moves a profile to the new path.
    pub set_profile: bool,
    /// Whether the local server is watched for an early exit before the
    /// fetch; where it is not, the fetch alone tells how things went.
    pub check_server: bool,
    /// The activation to run after the transport, if any.
    pub activation: Option<Action>,
}

/// The stage that follows a transport that went well.
pub open spec fn after_transport(plan: Plan) -> Stage {
    match plan.activation {
        Some(_) => Stage::Activate,
        None => Stage::Finished(Outcome::Success),
    }
}

/// The stage that follows a copy that went well.
pub open spec fn after_copy(plan: Plan) -> Stage {
    if plan.set_profile {
        Stage::SetProfile
    } else {
        after_transport(plan)
    }
}

/// The first stage of a run.
pub open spec fn first_stage(plan: Plan) -> Stage {
    match plan.transport {
        Transport::DirectCopy => if plan.sign {
            Stage::Sign
        } else {
            Stage::Copy
        },
        Transport::SubstituteServe => Stage::StartServer,
    }
}

/// The stage that follows `s` once it has been performed with outcome `e`.
pub open spec fn next_stage(plan: Plan, s: Stage, e: Event) -> Stage {
    let ok = e == Event::Succeeded;
    match s {
        Stage::Sign => if ok {
            Stage::Copy
        } else {
            Stage::Finished(Outcome::Failed(Failure::LocalInvocation))
        },
        Stage::Copy => if ok {
            after_copy(plan)
        } else {
            Stage::Finished(Outcome::Failed(Failure::LocalInvocation))
        },
        Stage::SetProfile => if ok {
            after_transport(plan)
        } else {
            Stage::Finished(Outcome::Failed(Failure::RemoteCommand))
        },
        Stage::StartServer => if !ok {
            Stage::Finished(Outcome::Failed(Failure::LocalInvocation))
        } else if plan.check_server {
            Stage::CheckServer
        } else {
            Stage::Fetch
        },
        Stage::CheckServer => if e == Event::Running {
            Stage::Fetch
        } else {
            Stage::Finished(Outcome::Failed(Failure::PrematureExit))
        },
        Stage::Fetch => Stage::StopServer { fetch_ok: ok },
        Stage::StopServer { fetch_ok } => if !fetch_ok {
            Stage::Finished(Outcome::Failed(Failure::RemoteCommand))
        } else if ok {
            after_transport(plan)
        } else {
            Stage::Finished(Outcome::Failed(Failure::Termination))
        },
        Stage::Activate => if !ok {
            Stage::Finished(Outcome::Failed(Failure::RemoteCommand))
        } else if plan.activation == Some(Action::Reboot) {
            Stage::Reboot
        } else {
            Stage::Finished(Outcome::Success)
        },
        Stage::Reboot => Stage::Finished(Outcome::Success),
        Stage::Finished(o) => Stage::Finished(o),
    }
}

/// The stages that a run visits from `s` on when the events are `events`.
#[verifier::opaque]
pub open spec fn run_from(plan: Plan, s: Stage, events: Seq<Event>) -> Seq<Stage>
    decreases events.len(),
{
    if events.len() == 0 {
        seq![s]
    } else {
        seq![s] + run_from(plan, next_stage(plan, s, events[0]), events.drop_first())
    }
}

/// The stages that a whole run visits when the events are `events`.
pub open spec fn trace(plan: Plan, events: Seq<Event>) -> Seq<Stage> {
    run_from(plan, first_stage(plan), events)
}

/// The exit status of a process whose run ended with `o`.
pub open spec fn status_of(o: Outcome) -> i32 {
    match o {
        Outcome::Success => 0,
        Outcome::Failed(_) => 1,
    }
}

/// The plan of a system deployment that ends in `action`.
pub open spec fn system_plan(
    transport: Transport,
    signed: bool,
    check_server: bool,
    action: Action,
) -> Plan {
    Plan {
        transport,
        sign: signed && transport == Transport::DirectCopy,
        set_profile: moves_profile(action),
        check_server,
        activation: Some(action),
    }
}

/// The plan of a deployment of a store path, with no activation.
pub open spec fn path_plan(
    transport: Transport,
    signed: bool,
    check_server: bool,
    has_profile: bool,
) -> Plan {
    Plan {
        transport,
        sign: signed && transport == Transport::DirectCopy,
        set_profile: has_profile,
        check_server,
        activation: None,
    }
}

impl Plan {
    /// The plan of a system deployment that ends in `action`. The closure is
    /// signed beforehand only when it is copied: a local server signs what
    /// it serves itself.
    pub fn system(transport: Transport, signed: bool, check_server: bool, action: Action) -> (r: Plan)
        ensures
            r == system_plan(transport, signed, check_server, action),
    {
        let direct = match transport {
            Transport::DirectCopy => true,
            Transport::SubstituteServe => false,
        };
        Plan {
            transport,
            sign: signed && direct,
            set_profile: action.sets_profile(),
            check_server,
            activation: Some(action),
        }
    }

    /// The plan of a deployment of a store path, with no activation.
    pub fn path(transport: Transport, signed: bool, check_server: bool, has_profile: bool) -> (r: Plan)
        ensures
            r == path_plan(transport, signed, check_server, has_profile),
    {
        let direct = match transport {
            Transport::DirectCopy => true,
            Transport::SubstituteServe => false,
        };
        Plan {
            transport,
            sign: signed && direct,
            set_profile: has_profile,
            check_server,
            activation: None,
        }
    }

    /// The first stage of a run of this plan.
    pub fn start(&self) -> (r: Stage)
        ensures
            r == first_stage(*self),
    {
        match self.transport {
            Transport::DirectCopy => if self.sign {
                Stage::Sign
            } else {
                Stage::Copy
            },
            Transport::SubstituteServe => Stage::StartServer,
        }
    }

    fn after_transport(&self) -> (r: Stage)
        ensures
            r == after_transport(*self),
    {
        match self.activation {
            Some(_) => Stage::Activate,
            None => Stage::Finished(Outcome::Success),
        }
    }

    /// The stage that follows `s` once it has been performed with outcome `e`.
    pub fn step(&self, s: Stage, e: Event) -> (r: Stage)
        ensures
            r == next_stage(*self, s, e),
    {
        let ok = e == Event::Succeeded;
        match s {
            Stage::Sign => if ok {
                Stage::Copy
            } else {
                Stage::Finished(Outcome::Failed(Failure::LocalInvocation))
            },
            Stage::Copy => if !ok {
                Stage::Finished(Outcome::Failed(Failure::LocalInvocation))
            } else if self.set_profile {
                Stage::SetProfile
            } else {
                self.after_transport()
            },
            Stage::SetProfile => if ok {
                self.after_transport()
            } else {
                Stage::Finished(Outcome::Failed(Failure::RemoteCommand))
            },
            Stage::StartServer => if !ok {
                Stage::Finished(Outcome::Failed(Failure::LocalInvocation))
            } else if self.check_server {
                Stage::CheckServer
            } else {
                Stage::Fetch
            },
            Stage::CheckServer => if e == Event::Running {
                Stage::Fetch
            } else {
                Stage::Finished(Outcome::Failed(Failure::PrematureExit))
            },
            Stage::Fetch => Stage::StopServer { fetch_ok: ok },
            Stage::StopServer { fetch_ok } => if !fetch_ok {
                Stage::Finished(Outcome::Failed(Failure::RemoteCommand))
            } else if ok {
                self.after_transport()
            } else {
                Stage::Finished(Outcome::Failed(Failure::Termination))
            },
            Stage::Activate => if !ok {
                Stage::Finished(Outcome::Failed(Failure::RemoteCommand))
            } else if self.activation == Some(Action::Reboot) {
                Stage::Reboot
            } else {
                Stage::Finished(Outcome::Success)
            },
            Stage::Reboot => Stage::Finished(Outcome::Success),
            Stage::Finished(o) => Stage::Finished(o),
        }
    }
}

impl Outcome {
    /// The exit status of the process: zero on success, one on any failure.
    pub fn exit_status(&self) -> (r: i32)
        ensures
            r == status_of(*self),
    {
        match self {
            Outcome::Success => 0,
            Outcome::Failed(_) => 1,
        }
    }
}

} // verus!

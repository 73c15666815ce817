use vstd::prelude::*;
use vstd::string::StringExecFns;

use crate::action::{moves_profile, verb_of, Action};
use crate::command::{
    activation_command, activation_spec, copy_command, copy_spec, fetch_command, fetch_spec,
    get_ssh_tool, profile_set_command, profile_set_spec, reboot_command, reboot_spec,
    sign_command, sign_spec, ssh_tool_spec,
};
use crate::stage::{path_plan, status_of, system_plan, Failure, Outcome, Plan, Stage, Transport};
use crate::text::{borrow_opt, opt_text, str_opt, string_opt};

verus! {

/// Everything a run needs to know, fixed when it starts.
pub struct Deployment {
    pub target_host: String,
    /// The prefix of every remote command of the run.
    pub ssh_tool: String,
    /// The port of the local server and of the reverse tunnel.
    pub port: u16,
    pub use_substitutes: bool,
    /// The store path, resolved to its canonical form.
    pub path: String,
    pub signing_key: Option<String>,
    /// Another store root on the remote host.
    pub store: Option<String>,
    /// The profile moved to the new path, if any.
    pub profile: Option<String>,
    /// The activation that follows the transport, if any.
    pub action: Option<Action>,
    pub transport: Transport,
    /// Whether the local server is watched for an early exit.
    pub check_server: bool,
}

/// What the caller is to do for a stage.
#[derive(Debug)]
pub enum Directive {
    /// Run a local command line and report whether it succeeded.
    RunLocal(String),
    /// Run a remote command line and report whether it succeeded.
    RunRemote(String),
    /// Spawn the local server on `port`, handing it the signing key file.
    SpawnServer { port: u16, signing_key: Option<String> },
    /// Wait for the liveness window and report whether the server exited.
    CheckServer,
    /// Ask the local server to terminate and report whether that worked.
    StopServer,
    /// Start a command without waiting for its status beyond a short while.
    RunDetached(String),
    /// End the process with this status.
    Exit(i32),
}

/// The tunnel port of a run: only a local server needs one.
pub open spec fn tunnel_port(transport: Transport, port: u16) -> Option<u16> {
    match transport {
        Transport::DirectCopy => None,
        Transport::SubstituteServe => Some(port),
    }
}

/// The text of an optional value, empty where it is absent.
pub open spec fn or_empty(o: Option<Seq<char>>) -> Seq<char> {
    match o {
        Some(s) => s,
        None => Seq::empty(),
    }
}

impl Deployment {
    /// The plan of this deployment.
    pub open spec fn plan_spec(&self) -> Plan {
        Plan {
            transport: self.transport,
            sign: self.signing_key is Some && self.transport == Transport::DirectCopy,
            set_profile: self.profile is Some,
            check_server: self.check_server,
            activation: self.action,
        }
    }

    /// Where the activation binary is looked up: the profile where one was
    /// moved, else the store path itself.
    pub open spec fn activation_target(&self) -> Seq<char> {
        match self.profile {
            Some(p) => p@,
            None => self.path@,
        }
    }

    /// Whether `r` is what the caller is to do for stage `s`.
    pub open spec fn directs(&self, s: Stage, r: Directive) -> bool {
        match s {
            Stage::Sign => r matches Directive::RunLocal(c) && c@ == sign_spec(
                or_empty(string_opt(self.signing_key)),
                self.path@,
            ),
            Stage::Copy => r matches Directive::RunLocal(c) && c@ == copy_spec(
                self.target_host@,
                self.use_substitutes,
                self.signing_key is Some,
                self.path@,
            ),
            Stage::SetProfile => r matches Directive::RunRemote(c) && c@ == profile_set_spec(
                self.ssh_tool@,
                or_empty(string_opt(self.profile)),
                self.path@,
            ),
            Stage::StartServer => r matches Directive::SpawnServer { port, signing_key } && port
                == self.port && string_opt(signing_key) == string_opt(self.signing_key),
            Stage::CheckServer => r is CheckServer,
            Stage::Fetch => r matches Directive::RunRemote(c) && c@ == fetch_spec(
                self.ssh_tool@,
                self.port,
                self.use_substitutes,
                self.path@,
                self.signing_key is Some,
                string_opt(self.store),
                string_opt(self.profile),
            ),
            Stage::StopServer { .. } => r is StopServer,
            Stage::Activate => match self.action {
                Some(a) => r matches Directive::RunRemote(c) && c@ == activation_spec(
                    self.ssh_tool@,
                    self.activation_target(),
                    verb_of(a),
                ),
                None => r == Directive::Exit(status_of(Outcome::Failed(Failure::RemoteCommand))),
            },
            Stage::Reboot => r matches Directive::RunDetached(c) && c@ == reboot_spec(self.ssh_tool@),
            Stage::Finished(o) => r == Directive::Exit(status_of(o)),
        }
    }

    /// A deployment of a whole system that ends in `action`. The profile at
    /// `profile_path` is moved only by the actions that move it.
    pub fn system(
        target_host: &str,
        extra_ssh_options: Option<&str>,
        port: u16,
        use_substitutes: bool,
        use_remote_sudo: bool,
        path: &str,
        signing_key: Option<&str>,
        action: Action,
        profile_path: &str,
        transport: Transport,
        check_server: bool,
    ) -> (r: Deployment)
        ensures
            r.target_host@ == target_host@,
            r.ssh_tool@ == ssh_tool_spec(
                target_host@,
                opt_text(extra_ssh_options),
                tunnel_port(transport, port),
                use_remote_sudo,
            ),
            r.port == port,
            r.use_substitutes == use_substitutes,
            r.path@ == path@,
            string_opt(r.signing_key) == str_opt(signing_key),
            r.store is None,
            string_opt(r.profile) == (if moves_profile(action) {
                Some(profile_path@)
            } else {
                None
            }),
            r.action == Some(action),
            r.transport == transport,
            r.check_server == check_server,
            r.plan_spec() == system_plan(transport, signing_key is Some, check_server, action),
    {
        let profile = if action.sets_profile() {
            Some(String::from_str(profile_path))
        } else {
            None
        };
        Deployment::build(
            target_host,
            extra_ssh_options,
            port,
            use_substitutes,
            use_remote_sudo,
            path,
            signing_key,
            None,
            profile,
            Some(action),
            transport,
            check_server,
        )
    }

    /// A deployment of a store path with no activation, moving `profile` to
    /// it where one is given.
    pub fn path(
        target_host: &str,
        extra_ssh_options: Option<&str>,
        port: u16,
        use_substitutes: bool,
        use_remote_sudo: bool,
        path: &str,
        signing_key: Option<&str>,
        store: Option<&str>,
        profile: Option<&str>,
        transport: Transport,
        check_server: bool,
    ) -> (r: Deployment)
        ensures
            r.target_host@ == target_host@,
            r.ssh_tool@ == ssh_tool_spec(
                target_host@,
                opt_text(extra_ssh_options),
                tunnel_port(transport, port),
                use_remote_sudo,
            ),
            r.port == port,
            r.use_substitutes == use_substitutes,
            r.path@ == path@,
            string_opt(r.signing_key) == str_opt(signing_key),
            string_opt(r.store) == str_opt(store),
            string_opt(r.profile) == str_opt(profile),
            r.action is None,
            r.transport == transport,
            r.check_server == check_server,
            r.plan_spec() == path_plan(transport, signing_key is Some, check_server, profile is Some),
    {
        let profile = match profile {
            Some(p) => Some(String::from_str(p)),
            None => None,
        };
        let store = match store {
            Some(s) => Some(String::from_str(s)),
            None => None,
        };
        Deployment::build(
            target_host,
            extra_ssh_options,
            port,
            use_substitutes,
            use_remote_sudo,
            path,
            signing_key,
            store,
            profile,
            None,
            transport,
            check_server,
        )
    }

    fn build(
        target_host: &str,
        extra_ssh_options: Option<&str>,
        port: u16,
        use_substitutes: bool,
        use_remote_sudo: bool,
        path: &str,
        signing_key: Option<&str>,
        store: Option<String>,
        profile: Option<String>,
        action: Option<Action>,
        transport: Transport,
        check_server: bool,
    ) -> (r: Deployment)
        ensures
            r.target_host@ == target_host@,
            r.ssh_tool@ == ssh_tool_spec(
                target_host@,
                opt_text(extra_ssh_options),
                tunnel_port(transport, port),
                use_remote_sudo,
            ),
            r.port == port,
            r.use_substitutes == use_substitutes,
            r.path@ == path@,
            string_opt(r.signing_key) == str_opt(signing_key),
            string_opt(r.store) == string_opt(store),
            string_opt(r.profile) == string_opt(profile),
            r.action == action,
            r.transport == transport,
            r.check_server == check_server,
    {
        let tunnel = match transport {
            Transport::DirectCopy => None,
            Transport::SubstituteServe => Some(port),
        };
        let key = match signing_key {
            Some(k) => Some(String::from_str(k)),
            None => None,
        };
        Deployment {
            target_host: String::from_str(target_host),
            ssh_tool: get_ssh_tool(target_host, extra_ssh_options, tunnel, use_remote_sudo),
            port,
            use_substitutes,
            path: String::from_str(path),
            signing_key: key,
            store,
            profile,
            action,
            transport,
            check_server,
        }
    }

    /// The plan of this deployment.
    pub fn plan(&self) -> (r: Plan)
        ensures
            r == self.plan_spec(),
    {
        let direct = match self.transport {
            Transport::DirectCopy => true,
            Transport::SubstituteServe => false,
        };
        Plan {
            transport: self.transport,
            sign: self.signing_key.is_some() && direct,
            set_profile: self.profile.is_some(),
            check_server: self.check_server,
            activation: self.action,
        }
    }

    /// What the caller is to do for stage `s`.
    pub fn directive(&self, s: Stage) -> (r: Directive)
        ensures
            self.directs(s, r),
    {
        let path = self.path.as_str();
        let ssh = self.ssh_tool.as_str();
        match s {
            Stage::Sign => {
                let key = match &self.signing_key {
                    Some(k) => k.as_str(),
                    None => "",
                };
                proof {
                    reveal_strlit("");
                }
                Directive::RunLocal(sign_command(key, path))
            },
            Stage::Copy => Directive::RunLocal(
                copy_command(
                    self.target_host.as_str(),
                    self.use_substitutes,
                    self.signing_key.is_some(),
                    path,
                ),
            ),
            Stage::SetProfile => {
                let profile = match &self.profile {
                    Some(p) => p.as_str(),
                    None => "",
                };
                proof {
                    reveal_strlit("");
                }
                Directive::RunRemote(profile_set_command(ssh, profile, path))
            },
            Stage::StartServer => Directive::SpawnServer {
                port: self.port,
                signing_key: self.signing_key.clone(),
            },
            Stage::CheckServer => Directive::CheckServer,
            Stage::Fetch => Directive::RunRemote(
                fetch_command(
                    ssh,
                    self.port,
                    self.use_substitutes,
                    path,
                    self.signing_key.is_some(),
                    borrow_opt(&self.store),
                    borrow_opt(&self.profile),
                ),
            ),
            Stage::StopServer { .. } => Directive::StopServer,
            Stage::Activate => match self.action {
                Some(a) => {
                    let target = match &self.profile {
                        Some(p) => p.as_str(),
                        None => path,
                    };
                    Directive::RunRemote(activation_command(ssh, target, a.remote_verb()))
                },
                None => Directive::Exit(Outcome::Failed(Failure::RemoteCommand).exit_status()),
            },
            Stage::Reboot => Directive::RunDetached(reboot_command(ssh)),
            Stage::Finished(o) => Directive::Exit(o.exit_status()),
        }
    }
}

} // verus!

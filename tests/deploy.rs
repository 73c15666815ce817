use nix_simple_deploy::action::{Action, Verb};
use nix_simple_deploy::deploy::{Deployment, Directive};
use nix_simple_deploy::stage::{Event, Failure, Outcome, Plan, Stage, Transport};

fn remote(d: &Directive) -> String {
    match d {
        Directive::RunRemote(c) => c.clone(),
        other => panic!("expected a remote command, got {:?}", other),
    }
}

fn local(d: &Directive) -> String {
    match d {
        Directive::RunLocal(c) => c.clone(),
        other => panic!("expected a local command, got {:?}", other),
    }
}

fn system(action: Action, transport: Transport, key: Option<&str>) -> Deployment {
    Deployment::system(
        "root@host",
        None,
        9999,
        false,
        false,
        "/nix/store/abc-system",
        key,
        action,
        "/nix/var/nix/profiles/system",
        transport,
        true,
    )
}

/// Runs the plan of `d`, answering each stage with the next event, and
/// collects every directive until the run ends.
fn drive(d: &Deployment, events: &[Event]) -> (Vec<Stage>, Vec<Directive>) {
    let plan = d.plan();
    let mut stage = plan.start();
    let mut stages = vec![stage];
    let mut directives = Vec::new();
    let mut k = 0;
    loop {
        let directive = d.directive(stage);
        let done = matches!(directive, Directive::Exit(_));
        directives.push(directive);
        if done {
            break;
        }
        stage = plan.step(stage, events[k]);
        k += 1;
        stages.push(stage);
    }
    (stages, directives)
}

#[test]
fn remote_verb_of_each_action() {
    assert_eq!(Action::Switch.remote_verb(), Verb::Switch);
    assert_eq!(Action::Boot.remote_verb(), Verb::Boot);
    assert_eq!(Action::Test.remote_verb(), Verb::Test);
    assert_eq!(Action::DryActivate.remote_verb(), Verb::DryActivate);
    assert_eq!(Action::Reboot.remote_verb(), Verb::Boot);
    assert_eq!(Action::DryActivate.remote_verb().name(), "dry-activate");
}

#[test]
fn action_names_parse() {
    assert_eq!(Action::from_name("switch"), Some(Action::Switch));
    assert_eq!(Action::from_name("boot"), Some(Action::Boot));
    assert_eq!(Action::from_name("test"), Some(Action::Test));
    assert_eq!(Action::from_name("dry-activate"), Some(Action::DryActivate));
    assert_eq!(Action::from_name("reboot"), Some(Action::Reboot));
    assert_eq!(Action::from_name("halt"), None);
    assert_eq!(Action::from_name(""), None);
}

#[test]
fn switch_with_direct_copy_succeeds() {
    let d = system(Action::Switch, Transport::DirectCopy, Some("/etc/key"));
    let ok = [Event::Succeeded; 4];
    let (stages, directives) = drive(&d, &ok);
    assert_eq!(
        stages,
        vec![
            Stage::Sign,
            Stage::Copy,
            Stage::SetProfile,
            Stage::Activate,
            Stage::Finished(Outcome::Success)
        ]
    );
    assert_eq!(local(&directives[0]), "nix sign-paths -r -k /etc/key /nix/store/abc-system");
    assert_eq!(local(&directives[1]), "nix copy --to ssh://root@host /nix/store/abc-system");
    assert_eq!(
        remote(&directives[2]),
        "ssh  root@host nix-env -p /nix/var/nix/profiles/system --set /nix/store/abc-system"
    );
    assert_eq!(
        remote(&directives[3]),
        "ssh  root@host /nix/var/nix/profiles/system/bin/switch-to-configuration switch"
    );
    assert!(matches!(directives[4], Directive::Exit(0)));
}

#[test]
fn reboot_with_server_that_exits_early_aborts() {
    let d = system(Action::Reboot, Transport::SubstituteServe, None);
    let (stages, directives) = drive(&d, &[Event::Succeeded, Event::Exited]);
    assert_eq!(
        stages,
        vec![
            Stage::StartServer,
            Stage::CheckServer,
            Stage::Finished(Outcome::Failed(Failure::PrematureExit))
        ]
    );
    assert!(matches!(directives[0], Directive::SpawnServer { port: 9999, signing_key: None }));
    assert!(matches!(directives[1], Directive::CheckServer));
    assert!(matches!(directives[2], Directive::Exit(1)));
    assert!(!directives
        .iter()
        .any(|d| matches!(d, Directive::RunRemote(_) | Directive::StopServer)));
}

#[test]
fn test_action_activates_store_path() {
    for transport in [Transport::DirectCopy, Transport::SubstituteServe] {
        let d = system(Action::Test, transport, Some("/etc/key"));
        let events = match transport {
            Transport::DirectCopy => vec![Event::Succeeded; 3],
            Transport::SubstituteServe => vec![
                Event::Succeeded,
                Event::Running,
                Event::Succeeded,
                Event::Succeeded,
                Event::Succeeded,
            ],
        };
        let (stages, directives) = drive(&d, &events);
        assert_eq!(stages.last(), Some(&Stage::Finished(Outcome::Success)));
        assert!(!stages.contains(&Stage::SetProfile));
        let remote_cmds: Vec<String> = directives
            .iter()
            .filter_map(|d| match d {
                Directive::RunRemote(c) => Some(c.clone()),
                _ => None,
            })
            .collect();
        assert!(remote_cmds.iter().all(|c| !c.contains("nix-env")));
        let activation = remote_cmds.last().unwrap();
        assert!(activation.ends_with(
            " /nix/store/abc-system/bin/switch-to-configuration test"
        ));
        assert!(!activation.contains("profiles"));
    }
}

#[test]
fn reboot_with_server_runs_every_stage() {
    let d = system(Action::Reboot, Transport::SubstituteServe, None);
    let events = [
        Event::Succeeded,
        Event::Running,
        Event::Succeeded,
        Event::Succeeded,
        Event::Succeeded,
        Event::Failed,
    ];
    let (stages, directives) = drive(&d, &events);
    assert_eq!(
        stages,
        vec![
            Stage::StartServer,
            Stage::CheckServer,
            Stage::Fetch,
            Stage::StopServer { fetch_ok: true },
            Stage::Activate,
            Stage::Reboot,
            Stage::Finished(Outcome::Success)
        ]
    );
    let tool = "ssh  -R 9999:127.0.0.1:9999 root@host";
    assert_eq!(
        remote(&directives[2]),
        format!(
            "{} nix-env --option substituters http://127.0.0.1:9999 --option require-sigs false  -p /nix/var/nix/profiles/system --set /nix/store/abc-system",
            tool
        )
    );
    assert_eq!(
        remote(&directives[4]),
        format!("{} /nix/var/nix/profiles/system/bin/switch-to-configuration boot", tool)
    );
    match &directives[5] {
        Directive::RunDetached(c) => assert_eq!(c, &format!("{} reboot", tool)),
        other => panic!("expected a detached reboot, got {:?}", other),
    }
}

#[test]
fn failed_fetch_still_stops_server_once() {
    let d = system(Action::Switch, Transport::SubstituteServe, Some("/k"));
    let (stages, directives) =
        drive(&d, &[Event::Succeeded, Event::Running, Event::Failed, Event::Failed]);
    assert_eq!(
        stages,
        vec![
            Stage::StartServer,
            Stage::CheckServer,
            Stage::Fetch,
            Stage::StopServer { fetch_ok: false },
            Stage::Finished(Outcome::Failed(Failure::RemoteCommand))
        ]
    );
    let stops = directives.iter().filter(|d| matches!(d, Directive::StopServer)).count();
    assert_eq!(stops, 1);
    assert!(matches!(directives[4], Directive::Exit(1)));
}

#[test]
fn failed_termination_after_good_fetch() {
    let plan = Plan::path(Transport::SubstituteServe, false, true, false);
    let s = plan.step(Stage::StopServer { fetch_ok: true }, Event::Failed);
    assert_eq!(s, Stage::Finished(Outcome::Failed(Failure::Termination)));
    let s = plan.step(Stage::StopServer { fetch_ok: true }, Event::Succeeded);
    assert_eq!(s, Stage::Finished(Outcome::Success));
}

#[test]
fn each_failure_kind_has_an_input() {
    let plan = Plan::system(Transport::DirectCopy, true, true, Action::Boot);
    assert_eq!(
        plan.step(Stage::Sign, Event::Failed),
        Stage::Finished(Outcome::Failed(Failure::LocalInvocation))
    );
    assert_eq!(
        plan.step(Stage::Copy, Event::Failed),
        Stage::Finished(Outcome::Failed(Failure::LocalInvocation))
    );
    assert_eq!(
        plan.step(Stage::SetProfile, Event::Failed),
        Stage::Finished(Outcome::Failed(Failure::RemoteCommand))
    );
    assert_eq!(
        plan.step(Stage::Activate, Event::Failed),
        Stage::Finished(Outcome::Failed(Failure::RemoteCommand))
    );
    assert_eq!(
        plan.step(Stage::CheckServer, Event::Exited),
        Stage::Finished(Outcome::Failed(Failure::PrematureExit))
    );
    assert_eq!(Outcome::Failed(Failure::Termination).exit_status(), 1);
    assert_eq!(Outcome::Success.exit_status(), 0);
}

#[test]
fn activation_failure_skips_reboot() {
    let plan = Plan::system(Transport::DirectCopy, false, true, Action::Reboot);
    assert_eq!(plan.start(), Stage::Copy);
    assert_eq!(plan.step(Stage::Activate, Event::Succeeded), Stage::Reboot);
    assert_eq!(
        plan.step(Stage::Activate, Event::Failed),
        Stage::Finished(Outcome::Failed(Failure::RemoteCommand))
    );
    assert_eq!(plan.step(Stage::Reboot, Event::Failed), Stage::Finished(Outcome::Success));
}

#[test]
fn lenient_server_goes_straight_to_fetch() {
    let plan = Plan::path(Transport::SubstituteServe, true, false, true);
    assert_eq!(plan.start(), Stage::StartServer);
    assert_eq!(plan.step(Stage::StartServer, Event::Succeeded), Stage::Fetch);
    assert_eq!(
        plan.step(Stage::StartServer, Event::Failed),
        Stage::Finished(Outcome::Failed(Failure::LocalInvocation))
    );
    let strict = Plan::path(Transport::SubstituteServe, true, true, true);
    assert_eq!(strict.step(Stage::StartServer, Event::Succeeded), Stage::CheckServer);
    assert_eq!(strict.step(Stage::CheckServer, Event::Running), Stage::Fetch);
}

#[test]
fn unsigned_direct_copy_skips_signing() {
    let d = system(Action::Boot, Transport::DirectCopy, None);
    let (stages, directives) = drive(&d, &[Event::Succeeded; 3]);
    assert_eq!(
        stages,
        vec![Stage::Copy, Stage::SetProfile, Stage::Activate, Stage::Finished(Outcome::Success)]
    );
    assert_eq!(
        local(&directives[0]),
        "nix copy --no-check-sigs --to ssh://root@host /nix/store/abc-system"
    );
    assert!(remote(&directives[2]).ends_with("switch-to-configuration boot"));
}

use subgraph_service::address::listen_address;
use subgraph_service::bootstrap::{
    Action, Bootstrap, Outcome, Step, EXIT_FAILURE, EXIT_SUCCESS, EXIT_USAGE,
};
use subgraph_service::config::{Args, Severity, TraceSetup, TraceStyle};

fn actions_of(parsed: Option<Args>, outcomes: &[Outcome]) -> Vec<Action> {
    let mut state = Bootstrap::start(parsed);
    let mut seen = vec![state.action()];
    for outcome in outcomes {
        state = state.advance(*outcome);
        seen.push(state.action());
    }
    seen
}

#[test]
fn exit_codes_are_zero_one_and_two() {
    assert_eq!(EXIT_SUCCESS, 0);
    assert_eq!(EXIT_FAILURE, 1);
    assert_eq!(EXIT_USAGE, 2);
}

#[test]
fn steps_follow_one_another_in_order() {
    assert_eq!(Step::InstallTracing.next(), Some(Step::BuildSchema));
    assert_eq!(Step::BuildSchema.next(), Some(Step::BuildRouter));
    assert_eq!(Step::BuildRouter.next(), Some(Step::Bind));
    assert_eq!(Step::Bind.next(), Some(Step::Announce));
    assert_eq!(Step::Announce.next(), Some(Step::Serve));
    assert_eq!(Step::Serve.next(), None);
}

#[test]
fn startup_begins_with_tracing() {
    let args = Args { pretty_traces: true, port: 9000 };
    let state = Bootstrap::start(Some(args));
    assert_eq!(state, Bootstrap::Running { step: Step::InstallTracing, args });
    assert_eq!(
        state.action(),
        Action::InstallTracing(TraceSetup {
            default_level: Severity::Info,
            style: TraceStyle::Forest
        })
    );
}

#[test]
fn startup_without_failure_follows_the_plan() {
    let args = Args { pretty_traces: false, port: 8080 };
    let seen = actions_of(Some(args), &[Outcome::Done; 5]);
    assert_eq!(
        seen,
        vec![
            Action::InstallTracing(TraceSetup {
                default_level: Severity::Info,
                style: TraceStyle::Flat
            }),
            Action::BuildSchema,
            Action::BuildRouter,
            Action::Bind { port: 8080 },
            Action::Announce { port: 8080 },
            Action::Serve,
        ]
    );
}

#[test]
fn unparsable_port_exits_before_a_listener_is_bound() {
    let state = Bootstrap::start(None);
    assert_eq!(state, Bootstrap::Stopped { code: 2 });
    let seen = actions_of(None, &[Outcome::Done, Outcome::Done, Outcome::Failed, Outcome::Done]);
    for action in seen {
        assert_eq!(action, Action::Exit { code: 2 });
        assert!(!matches!(action, Action::Bind { .. }));
    }
}

#[test]
fn port_zero_starts_up_and_serves() {
    let args = Args { pretty_traces: false, port: 0 };
    let seen = actions_of(Some(args), &[Outcome::Done; 5]);
    assert_eq!(seen[3], Action::Bind { port: 0 });
    assert_eq!(seen[5], Action::Serve);
    assert_eq!(listen_address(0), "0.0.0.0:0");
}

#[test]
fn tracing_is_installed_once() {
    let args = Args { pretty_traces: true, port: 8080 };
    let outcomes = [
        Outcome::Done,
        Outcome::Done,
        Outcome::Done,
        Outcome::Done,
        Outcome::Done,
        Outcome::Done,
        Outcome::Done,
        Outcome::Failed,
    ];
    let seen = actions_of(Some(args), &outcomes);
    let installs = seen.iter().filter(|a| matches!(a, Action::InstallTracing(_))).count();
    assert_eq!(installs, 1);
    assert!(matches!(seen[0], Action::InstallTracing(_)));
}

#[test]
fn failed_bind_exits_with_failure() {
    let args = Args { pretty_traces: false, port: 80 };
    let seen = actions_of(
        Some(args),
        &[Outcome::Done, Outcome::Done, Outcome::Done, Outcome::Failed],
    );
    assert_eq!(seen[3], Action::Bind { port: 80 });
    assert_eq!(seen[4], Action::Exit { code: 1 });
}

#[test]
fn failed_bind_is_not_tried_again() {
    let args = Args { pretty_traces: false, port: 80 };
    let seen = actions_of(
        Some(args),
        &[Outcome::Done, Outcome::Done, Outcome::Done, Outcome::Failed, Outcome::Done, Outcome::Done],
    );
    assert_eq!(seen[4], Action::Exit { code: 1 });
    assert_eq!(seen[5], Action::Exit { code: 1 });
    assert_eq!(seen[6], Action::Exit { code: 1 });
    let binds = seen.iter().filter(|a| matches!(a, Action::Bind { .. })).count();
    assert_eq!(binds, 1);
}

#[test]
fn failed_serve_exits_with_failure() {
    let args = Args::default();
    let mut outcomes = vec![Outcome::Done; 5];
    outcomes.push(Outcome::Failed);
    let seen = actions_of(Some(args), &outcomes);
    assert_eq!(seen[5], Action::Serve);
    assert_eq!(seen[6], Action::Exit { code: 1 });
}

#[test]
fn ended_serve_exits_with_success() {
    let args = Args::default();
    let seen = actions_of(Some(args), &[Outcome::Done; 6]);
    assert_eq!(seen[6], Action::Exit { code: 0 });
}

#[test]
fn failure_at_any_step_stops_the_startup() {
    let args = Args::default();
    let mut k: usize = 0;
    while k < 6 {
        let mut outcomes = vec![Outcome::Done; k];
        outcomes.push(Outcome::Failed);
        let seen = actions_of(Some(args), &outcomes);
        assert_eq!(seen.len(), k + 2);
        assert!(!matches!(seen[k], Action::Exit { .. }));
        assert_eq!(seen[k + 1], Action::Exit { code: 1 });
        k += 1;
    }
}

#[test]
fn a_stopped_startup_stays_stopped() {
    for code in [0u8, 1, 2] {
        let stopped = Bootstrap::Stopped { code };
        assert_eq!(stopped.advance(Outcome::Done), stopped);
        assert_eq!(stopped.advance(Outcome::Failed), stopped);
        assert_eq!(stopped.action(), Action::Exit { code });
    }
}

#[test]
fn configuration_is_carried_through_the_startup() {
    let args = Args { pretty_traces: true, port: 4321 };
    let mut state = Bootstrap::start(Some(args));
    let mut n: usize = 0;
    while n < 5 {
        state = state.advance(Outcome::Done);
        match state {
            Bootstrap::Running { args: kept, .. } => assert_eq!(kept, args),
            Bootstrap::Stopped { .. } => panic!("stopped before serving"),
        }
        n += 1;
    }
    assert_eq!(state, Bootstrap::Running { step: Step::Serve, args });
}

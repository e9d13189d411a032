use topgrade::orchestrator::build_agenda;
use topgrade::orchestrator::reexec_in_tmux;
use topgrade::orchestrator::Orchestrator;
use topgrade::orchestrator::RunOutcome;
use topgrade::orchestrator::Task;
use topgrade::repos::RepositorySet;
use topgrade::steps::BuiltInStep;
use topgrade::steps::Platform;
use topgrade::steps::StepOutcome;

fn pair(name: &str, command: &str) -> (String, String) {
    (name.to_string(), command.to_string())
}

#[test]
fn agenda_order_on_linux() {
    let pre = vec![pair("p1", "true")];
    let mut repos = RepositorySet::new();
    repos.insert(Some("/home/u/.vim".to_string()));
    let custom = vec![pair("u1", "echo hi")];
    let agenda = build_agenda(Platform::Linux, false, &pre, &repos, &custom);

    assert_eq!(agenda.len(), 1 + 2 + 1 + 13 + 1 + 2);
    assert!(matches!(&agenda[0], Task::PreCommand(n, c) if n.as_str() == "p1" && c.as_str() == "true"));
    assert!(matches!(agenda[1], Task::BuiltIn(BuiltInStep::SystemUpgrade)));
    assert!(matches!(agenda[2], Task::BuiltIn(BuiltInStep::Homebrew)));
    assert!(matches!(&agenda[3], Task::PullRepo(p) if p.as_str() == "/home/u/.vim"));
    assert!(matches!(agenda[4], Task::BuiltIn(BuiltInStep::Zplug)));
    assert!(matches!(agenda[16], Task::BuiltIn(BuiltInStep::Snap)));
    assert!(matches!(&agenda[17], Task::Custom(n, c) if n.as_str() == "u1" && c.as_str() == "echo hi"));
    assert!(matches!(agenda[18], Task::BuiltIn(BuiltInStep::Fwupdmgr)));
    assert!(matches!(agenda[19], Task::BuiltIn(BuiltInStep::Needrestart)));
}

#[test]
fn failing_pre_command_aborts_before_anything_is_recorded() {
    let pre = vec![pair("p1", "false")];
    let repos = RepositorySet::new();
    let custom = vec![pair("u1", "echo hi")];
    let agenda = build_agenda(Platform::Linux, false, &pre, &repos, &custom);
    let mut orch = Orchestrator::new(agenda);

    assert!(matches!(orch.next_task(), Some(Task::PreCommand(_, _))));
    orch.apply_pre_command(false);

    assert!(orch.next_task().is_none());
    assert!(orch.is_done());
    assert!(!orch.should_render());
    assert_eq!(orch.report().data().len(), 0);
    let outcome = orch.outcome();
    assert_eq!(outcome, RunOutcome::Fatal);
    assert_eq!(outcome.exit_code(), 1);
}

#[test]
fn skipped_step_leaves_report_unchanged_and_run_continues() {
    let agenda = vec![
        Task::BuiltIn(BuiltInStep::Rustup),
        Task::BuiltIn(BuiltInStep::CargoUpdate),
    ];
    let mut orch = Orchestrator::new(agenda);

    assert!(matches!(orch.next_task(), Some(Task::BuiltIn(BuiltInStep::Rustup))));
    orch.apply_outcome(StepOutcome::Skipped);
    assert_eq!(orch.report().data().len(), 0);

    assert!(matches!(orch.next_task(), Some(Task::BuiltIn(BuiltInStep::CargoUpdate))));
    orch.apply_outcome(StepOutcome::Succeeded);
    assert!(orch.is_done());
    assert_eq!(orch.report().data()[0], ("Cargo".to_string(), true));
    assert_eq!(orch.outcome(), RunOutcome::Success);
}

#[test]
fn run_where_everything_was_skipped_succeeds_without_summary() {
    let agenda = vec![
        Task::BuiltIn(BuiltInStep::Rustup),
        Task::BuiltIn(BuiltInStep::Emacs),
    ];
    let mut orch = Orchestrator::new(agenda);
    orch.apply_outcome(StepOutcome::Skipped);
    orch.apply_outcome(StepOutcome::Skipped);
    assert!(orch.is_done());
    assert!(!orch.should_render());
    let outcome = orch.outcome();
    assert_eq!(outcome, RunOutcome::Success);
    assert_eq!(outcome.exit_code(), 0);
}

#[test]
fn one_failed_step_fails_the_run_but_not_the_pass() {
    let agenda = vec![
        Task::Custom("a".to_string(), "true".to_string()),
        Task::Custom("b".to_string(), "false".to_string()),
        Task::Custom("c".to_string(), "true".to_string()),
    ];
    let mut orch = Orchestrator::new(agenda);
    orch.apply_outcome(StepOutcome::Succeeded);
    orch.apply_outcome(StepOutcome::Failed);
    orch.apply_outcome(StepOutcome::Succeeded);
    assert!(orch.is_done());
    assert!(orch.should_render());

    let data = orch.report().data();
    assert_eq!(data.len(), 3);
    assert_eq!(data[0], ("a".to_string(), true));
    assert_eq!(data[1], ("b".to_string(), false));
    assert_eq!(data[2], ("c".to_string(), true));

    let outcome = orch.outcome();
    assert_eq!(outcome, RunOutcome::StepsFailed);
    assert_eq!(outcome.exit_code(), 1);
}

#[test]
fn pull_is_recorded_under_the_repository_path() {
    let agenda = vec![Task::PullRepo("/home/u/.vim".to_string())];
    let mut orch = Orchestrator::new(agenda);
    orch.apply_outcome(StepOutcome::Failed);
    assert_eq!(orch.report().data()[0], ("/home/u/.vim".to_string(), false));
    assert_eq!(orch.outcome(), RunOutcome::StepsFailed);
}

#[test]
fn successful_pre_commands_move_the_run_along() {
    let agenda = vec![
        Task::PreCommand("p1".to_string(), "true".to_string()),
        Task::Custom("u1".to_string(), "true".to_string()),
    ];
    let mut orch = Orchestrator::new(agenda);
    orch.apply_pre_command(true);
    assert_eq!(orch.report().data().len(), 0);
    assert!(matches!(orch.next_task(), Some(Task::Custom(_, _))));
    orch.apply_outcome(StepOutcome::Succeeded);
    assert!(orch.is_done());
    assert_eq!(orch.outcome(), RunOutcome::Success);
}

#[test]
fn tmux_reexec_gate() {
    assert!(reexec_in_tmux(true, false, Platform::Linux));
    assert!(!reexec_in_tmux(true, true, Platform::Linux));
    assert!(!reexec_in_tmux(false, false, Platform::Linux));
    assert!(!reexec_in_tmux(true, false, Platform::Windows));
    assert!(reexec_in_tmux(true, false, Platform::MacOs));
}

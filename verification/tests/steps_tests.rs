use topgrade::steps::builtin_outcome;
use topgrade::steps::custom_outcome;
use topgrade::steps::early_plan;
use topgrade::steps::late_plan;
use topgrade::steps::mid_plan;
use topgrade::steps::step_name;
use topgrade::steps::BuiltInStep;
use topgrade::steps::Platform;
use topgrade::steps::StepOutcome;

#[test]
fn early_plan_on_linux() {
    let plan = early_plan(Platform::Linux, false);
    assert_eq!(plan, vec![BuiltInStep::SystemUpgrade, BuiltInStep::Homebrew]);
}

#[test]
fn no_system_switch_drops_the_system_step() {
    let plan = early_plan(Platform::Linux, true);
    assert_eq!(plan, vec![BuiltInStep::Homebrew]);
}

#[test]
fn early_plan_on_windows() {
    let plan = early_plan(Platform::Windows, false);
    assert_eq!(plan, vec![BuiltInStep::PowershellModules, BuiltInStep::Chocolatey]);
}

#[test]
fn mid_plan_on_linux_keeps_segment_order() {
    let plan = mid_plan(Platform::Linux, false);
    assert_eq!(
        plan,
        vec![
            BuiltInStep::Zplug,
            BuiltInStep::Fisherman,
            BuiltInStep::TmuxPlugins,
            BuiltInStep::Rustup,
            BuiltInStep::CargoUpdate,
            BuiltInStep::Emacs,
            BuiltInStep::Vim,
            BuiltInStep::Neovim,
            BuiltInStep::Npm,
            BuiltInStep::Yarn,
            BuiltInStep::Apm,
            BuiltInStep::Flatpak,
            BuiltInStep::Snap,
        ]
    );
}

#[test]
fn mid_plan_on_windows_has_only_portable_steps() {
    let plan = mid_plan(Platform::Windows, false);
    assert_eq!(
        plan,
        vec![
            BuiltInStep::Rustup,
            BuiltInStep::CargoUpdate,
            BuiltInStep::Emacs,
            BuiltInStep::Vim,
            BuiltInStep::Neovim,
            BuiltInStep::Npm,
            BuiltInStep::Yarn,
            BuiltInStep::Apm,
        ]
    );
}

#[test]
fn late_plan_per_platform() {
    assert_eq!(late_plan(Platform::Linux, false), vec![
        BuiltInStep::Fwupdmgr,
        BuiltInStep::Needrestart,
    ]);
    assert_eq!(late_plan(Platform::MacOs, false), vec![BuiltInStep::MacOsUpgrade]);
    assert_eq!(late_plan(Platform::MacOs, true), Vec::<BuiltInStep>::new());
    assert_eq!(late_plan(Platform::Windows, false), vec![BuiltInStep::WindowsUpdate]);
    assert_eq!(late_plan(Platform::OtherUnix, false), Vec::<BuiltInStep>::new());
}

#[test]
fn builtin_outcome_mapping() {
    assert_eq!(builtin_outcome(false, false, true), StepOutcome::Skipped);
    assert_eq!(builtin_outcome(true, true, true), StepOutcome::Skipped);
    assert_eq!(builtin_outcome(true, false, true), StepOutcome::Succeeded);
    assert_eq!(builtin_outcome(true, false, false), StepOutcome::Failed);
}

#[test]
fn custom_outcome_never_skips() {
    assert_eq!(custom_outcome(true, true), StepOutcome::Succeeded);
    assert_eq!(custom_outcome(true, false), StepOutcome::Failed);
    assert_eq!(custom_outcome(false, true), StepOutcome::Failed);
    assert_eq!(custom_outcome(false, false), StepOutcome::Failed);
}

#[test]
fn step_names() {
    assert_eq!(step_name(BuiltInStep::CargoUpdate), "Cargo".to_string());
    assert_eq!(step_name(BuiltInStep::SystemUpgrade), "System upgrade".to_string());
    assert_eq!(step_name(BuiltInStep::Homebrew), "Homebrew".to_string());
    assert_eq!(step_name(BuiltInStep::TmuxPlugins), "tmux plugins".to_string());
}

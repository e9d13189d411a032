//! The fixed, platform-conditioned table of built-in upgrade steps.
//!
//! Which steps exist on an operating system is data here, not scattered
//! branching: each step is gated by the platform, and the three
//! system-package-manager steps are additionally gated by the
//! "no system upgrade" switch. The table is split into the three segments
//! the run interleaves with repository pulls and user-configured commands.

use vstd::prelude::*;

verus! {

/// The operating system the run happens on.
#[derive(Clone, Copy, PartialEq, Eq, Structural, Debug)]
pub enum Platform {
    Linux,
    MacOs,
    Windows,
    OtherUnix,
}

/// Outcome of one step. A skipped step (tool absent, or disabled by a
/// switch) is not an error and leaves no record.
#[derive(Clone, Copy, PartialEq, Eq, Structural, Debug)]
pub enum StepOutcome {
    Succeeded,
    Failed,
    Skipped,
}

/// One fixed, native upgrade routine.
#[derive(Clone, Copy, PartialEq, Eq, Structural, Debug)]
pub enum BuiltInStep {
    PowershellModules,
    SystemUpgrade,
    Chocolatey,
    Homebrew,
    Zplug,
    Fisherman,
    TmuxPlugins,
    Rustup,
    CargoUpdate,
    Emacs,
    Vim,
    Neovim,
    Npm,
    Yarn,
    Apm,
    Flatpak,
    Snap,
    Fwupdmgr,
    Needrestart,
    MacOsUpgrade,
    WindowsUpdate,
}

/// Whether a step exists at all on the given platform.
pub open spec fn spec_available(step: BuiltInStep, p: Platform) -> bool {
    match step {
        BuiltInStep::PowershellModules => p == Platform::Windows,
        BuiltInStep::SystemUpgrade => p == Platform::Linux,
        BuiltInStep::Chocolatey => p == Platform::Windows,
        BuiltInStep::Homebrew => p != Platform::Windows,
        BuiltInStep::Zplug => p != Platform::Windows,
        BuiltInStep::Fisherman => p != Platform::Windows,
        BuiltInStep::TmuxPlugins => p != Platform::Windows,
        BuiltInStep::Rustup => true,
        BuiltInStep::CargoUpdate => true,
        BuiltInStep::Emacs => true,
        BuiltInStep::Vim => true,
        BuiltInStep::Neovim => true,
        BuiltInStep::Npm => true,
        BuiltInStep::Yarn => true,
        BuiltInStep::Apm => true,
        BuiltInStep::Flatpak => p == Platform::Linux,
        BuiltInStep::Snap => p == Platform::Linux,
        BuiltInStep::Fwupdmgr => p == Platform::Linux,
        BuiltInStep::Needrestart => p == Platform::Linux,
        BuiltInStep::MacOsUpgrade => p == Platform::MacOs,
        BuiltInStep::WindowsUpdate => p == Platform::Windows,
    }
}

/// The steps the "no system upgrade" switch suppresses.
pub open spec fn spec_is_system(step: BuiltInStep) -> bool {
    ||| step == BuiltInStep::SystemUpgrade
    ||| step == BuiltInStep::MacOsUpgrade
    ||| step == BuiltInStep::WindowsUpdate
}

/// Whether a step takes part in the run at all.
pub open spec fn spec_enabled(step: BuiltInStep, p: Platform, no_system: bool) -> bool {
    spec_available(step, p) && !(no_system && spec_is_system(step))
}

pub fn available(step: BuiltInStep, p: Platform) -> (b: bool)
    ensures
        b == spec_available(step, p),
{
    match step {
        BuiltInStep::PowershellModules => p == Platform::Windows,
        BuiltInStep::SystemUpgrade => p == Platform::Linux,
        BuiltInStep::Chocolatey => p == Platform::Windows,
        BuiltInStep::Homebrew => p != Platform::Windows,
        BuiltInStep::Zplug => p != Platform::Windows,
        BuiltInStep::Fisherman => p != Platform::Windows,
        BuiltInStep::TmuxPlugins => p != Platform::Windows,
        BuiltInStep::Rustup => true,
        BuiltInStep::CargoUpdate => true,
        BuiltInStep::Emacs => true,
        BuiltInStep::Vim => true,
        BuiltInStep::Neovim => true,
        BuiltInStep::Npm => true,
        BuiltInStep::Yarn => true,
        BuiltInStep::Apm => true,
        BuiltInStep::Flatpak => p == Platform::Linux,
        BuiltInStep::Snap => p == Platform::Linux,
        BuiltInStep::Fwupdmgr => p == Platform::Linux,
        BuiltInStep::Needrestart => p == Platform::Linux,
        BuiltInStep::MacOsUpgrade => p == Platform::MacOs,
        BuiltInStep::WindowsUpdate => p == Platform::Windows,
    }
}

pub fn enabled(step: BuiltInStep, p: Platform, no_system: bool) -> (b: bool)
    ensures
        b == spec_enabled(step, p, no_system),
{
    let is_system = matches!(
        step,
        BuiltInStep::SystemUpgrade | BuiltInStep::MacOsUpgrade | BuiltInStep::WindowsUpdate
    );
    available(step, p) && !(no_system && is_system)
}

/// The name a step is recorded and reported under.
pub open spec fn spec_step_name(step: BuiltInStep) -> Seq<char> {
    match step {
        BuiltInStep::PowershellModules => "Powershell Modules"@,
        BuiltInStep::SystemUpgrade => "System upgrade"@,
        BuiltInStep::Chocolatey => "Chocolatey"@,
        BuiltInStep::Homebrew => "Homebrew"@,
        BuiltInStep::Zplug => "zplug"@,
        BuiltInStep::Fisherman => "fisherman"@,
        BuiltInStep::TmuxPlugins => "tmux plugins"@,
        BuiltInStep::Rustup => "rustup"@,
        BuiltInStep::CargoUpdate => "Cargo"@,
        BuiltInStep::Emacs => "Emacs"@,
        BuiltInStep::Vim => "Vim"@,
        BuiltInStep::Neovim => "Neovim"@,
        BuiltInStep::Npm => "NPM"@,
        BuiltInStep::Yarn => "Yarn"@,
        BuiltInStep::Apm => "Atom Package Manager"@,
        BuiltInStep::Flatpak => "Flatpak"@,
        BuiltInStep::Snap => "snap"@,
        BuiltInStep::Fwupdmgr => "Firmware upgrades"@,
        BuiltInStep::Needrestart => "Needed restarts"@,
        BuiltInStep::MacOsUpgrade => "macOS upgrade"@,
        BuiltInStep::WindowsUpdate => "Windows update"@,
    }
}

pub fn step_name(step: BuiltInStep) -> (r: String)
    ensures
        r@ == spec_step_name(step),
{
    match step {
        BuiltInStep::PowershellModules => "Powershell Modules".to_owned(),
        BuiltInStep::SystemUpgrade => "System upgrade".to_owned(),
        BuiltInStep::Chocolatey => "Chocolatey".to_owned(),
        BuiltInStep::Homebrew => "Homebrew".to_owned(),
        BuiltInStep::Zplug => "zplug".to_owned(),
        BuiltInStep::Fisherman => "fisherman".to_owned(),
        BuiltInStep::TmuxPlugins => "tmux plugins".to_owned(),
        BuiltInStep::Rustup => "rustup".to_owned(),
        BuiltInStep::CargoUpdate => "Cargo".to_owned(),
        BuiltInStep::Emacs => "Emacs".to_owned(),
        BuiltInStep::Vim => "Vim".to_owned(),
        BuiltInStep::Neovim => "Neovim".to_owned(),
        BuiltInStep::Npm => "NPM".to_owned(),
        BuiltInStep::Yarn => "Yarn".to_owned(),
        BuiltInStep::Apm => "Atom Package Manager".to_owned(),
        BuiltInStep::Flatpak => "Flatpak".to_owned(),
        BuiltInStep::Snap => "snap".to_owned(),
        BuiltInStep::Fwupdmgr => "Firmware upgrades".to_owned(),
        BuiltInStep::Needrestart => "Needed restarts".to_owned(),
        BuiltInStep::MacOsUpgrade => "macOS upgrade".to_owned(),
        BuiltInStep::WindowsUpdate => "Windows update".to_owned(),
    }
}

/// The steps that run before the repository pulls, in order.
pub open spec fn early_order() -> Seq<BuiltInStep> {
    seq![
        BuiltInStep::PowershellModules,
        BuiltInStep::SystemUpgrade,
        BuiltInStep::Chocolatey,
        BuiltInStep::Homebrew,
    ]
}

/// The steps that run between the pulls and the user's commands, in order.
pub open spec fn mid_order() -> Seq<BuiltInStep> {
    seq![
        BuiltInStep::Zplug,
        BuiltInStep::Fisherman,
        BuiltInStep::TmuxPlugins,
        BuiltInStep::Rustup,
        BuiltInStep::CargoUpdate,
        BuiltInStep::Emacs,
        BuiltInStep::Vim,
        BuiltInStep::Neovim,
        BuiltInStep::Npm,
        BuiltInStep::Yarn,
        BuiltInStep::Apm,
        BuiltInStep::Flatpak,
        BuiltInStep::Snap,
    ]
}

/// The steps that close the run, in order.
pub open spec fn late_order() -> Seq<BuiltInStep> {
    seq![
        BuiltInStep::Fwupdmgr,
        BuiltInStep::Needrestart,
        BuiltInStep::MacOsUpgrade,
        BuiltInStep::WindowsUpdate,
    ]
}

/// The given segment restricted to the steps that take part in the run,
/// keeping the segment's order.
pub open spec fn spec_plan(order: Seq<BuiltInStep>, p: Platform, no_system: bool) -> Seq<
    BuiltInStep,
>
    decreases order.len(),
{
    if order.len() == 0 {
        Seq::empty()
    } else {
        let rest = spec_plan(order.drop_last(), p, no_system);
        if spec_enabled(order.last(), p, no_system) {
            rest.push(order.last())
        } else {
            rest
        }
    }
}

/// Every step of a plan is enabled, and the plan holds every enabled step
/// of its segment.
pub proof fn lemma_plan_members(order: Seq<BuiltInStep>, p: Platform, no_system: bool)
    ensures
        forall|i: int|
            0 <= i < spec_plan(order, p, no_system).len() ==> spec_enabled(
                #[trigger] spec_plan(order, p, no_system)[i],
                p,
                no_system,
            ) && order.contains(spec_plan(order, p, no_system)[i]),
        forall|i: int|
            0 <= i < order.len() && spec_enabled(#[trigger] order[i], p, no_system) ==> spec_plan(
                order,
                p,
                no_system,
            ).contains(order[i]),
    decreases order.len(),
{
    if order.len() > 0 {
        lemma_plan_members(order.drop_last(), p, no_system);
        let plan = spec_plan(order, p, no_system);
        let rest = spec_plan(order.drop_last(), p, no_system);
        assert forall|i: int| 0 <= i < plan.len() implies spec_enabled(
            #[trigger] plan[i],
            p,
            no_system,
        ) && order.contains(plan[i]) by {
            if i < rest.len() {
                assert(order.drop_last().contains(rest[i]));
                let j = choose|j: int|
                    0 <= j < order.drop_last().len() && order.drop_last()[j] == rest[i];
                assert(order[j] == rest[i]);
            } else {
                assert(order[order.len() - 1] == plan[i]);
            }
        }
        assert forall|i: int|
            0 <= i < order.len() && spec_enabled(#[trigger] order[i], p, no_system) implies plan
            .contains(order[i]) by {
            if i < order.len() - 1 {
                assert(order.drop_last()[i] == order[i]);
                assert(rest.contains(order[i]));
                let j = choose|j: int| 0 <= j < rest.len() && rest[j] == order[i];
                assert(plan[j] == order[i]);
            } else {
                if spec_enabled(order.last(), p, no_system) {
                    assert(plan[plan.len() - 1] == order[i]);
                }
            }
        }
    }
}

fn plan_segment(order: &Vec<BuiltInStep>, p: Platform, no_system: bool) -> (r: Vec<BuiltInStep>)
    ensures
        r@ == spec_plan(order@, p, no_system),
{
    let mut r: Vec<BuiltInStep> = Vec::new();
    let mut i: usize = 0;
    proof {
        assert(order@.take(0) =~= Seq::<BuiltInStep>::empty());
        assert(r@ =~= spec_plan(order@.take(0), p, no_system));
    }
    while i < order.len()
        invariant
            i <= order.len(),
            r@ == spec_plan(order@.take(i as int), p, no_system),
        decreases order.len() - i,
    {
        proof {
            assert(order@.take(i + 1).drop_last() =~= order@.take(i as int));
            assert(order@.take(i + 1).last() == order@[i as int]);
        }
        if enabled(order[i], p, no_system) {
            r.push(order[i]);
        }
        i = i + 1;
    }
    proof {
        assert(order@.take(order@.len() as int) =~= order@);
    }
    r
}

fn early_table() -> (r: Vec<BuiltInStep>)
    ensures
        r@ == early_order(),
{
    let mut v: Vec<BuiltInStep> = Vec::new();
    v.push(BuiltInStep::PowershellModules);
    v.push(BuiltInStep::SystemUpgrade);
    v.push(BuiltInStep::Chocolatey);
    v.push(BuiltInStep::Homebrew);
    proof {
        assert(v@ =~= early_order());
    }
    v
}

fn mid_table() -> (r: Vec<BuiltInStep>)
    ensures
        r@ == mid_order(),
{
    let mut v: Vec<BuiltInStep> = Vec::new();
    v.push(BuiltInStep::Zplug);
    v.push(BuiltInStep::Fisherman);
    v.push(BuiltInStep::TmuxPlugins);
    v.push(BuiltInStep::Rustup);
    v.push(BuiltInStep::CargoUpdate);
    v.push(BuiltInStep::Emacs);
    v.push(BuiltInStep::Vim);
    v.push(BuiltInStep::Neovim);
    v.push(BuiltInStep::Npm);
    v.push(BuiltInStep::Yarn);
    v.push(BuiltInStep::Apm);
    v.push(BuiltInStep::Flatpak);
    v.push(BuiltInStep::Snap);
    proof {
        assert(v@ =~= mid_order());
    }
    v
}

fn late_table() -> (r: Vec<BuiltInStep>)
    ensures
        r@ == late_order(),
{
    let mut v: Vec<BuiltInStep> = Vec::new();
    v.push(BuiltInStep::Fwupdmgr);
    v.push(BuiltInStep::Needrestart);
    v.push(BuiltInStep::MacOsUpgrade);
    v.push(BuiltInStep::WindowsUpdate);
    proof {
        assert(v@ =~= late_order());
    }
    v
}

/// The enabled steps that precede the repository pulls.
pub fn early_plan(p: Platform, no_system: bool) -> (r: Vec<BuiltInStep>)
    ensures
        r@ == spec_plan(early_order(), p, no_system),
{
    let t = early_table();
    plan_segment(&t, p, no_system)
}

/// The enabled steps between the pulls and the user's commands.
pub fn mid_plan(p: Platform, no_system: bool) -> (r: Vec<BuiltInStep>)
    ensures
        r@ == spec_plan(mid_order(), p, no_system),
{
    let t = mid_table();
    plan_segment(&t, p, no_system)
}

/// The enabled steps that close the run.
pub fn late_plan(p: Platform, no_system: bool) -> (r: Vec<BuiltInStep>)
    ensures
        r@ == spec_plan(late_order(), p, no_system),
{
    let t = late_table();
    plan_segment(&t, p, no_system)
}

/// How a built-in step's raw result is reported: absent tool or a
/// disabling switch means the step is skipped, otherwise the underlying
/// tool's exit decides between success and failure.
pub open spec fn spec_builtin_outcome(tool_present: bool, disabled: bool, exit_ok: bool) -> StepOutcome {
    if !tool_present || disabled {
        StepOutcome::Skipped
    } else if exit_ok {
        StepOutcome::Succeeded
    } else {
        StepOutcome::Failed
    }
}

pub fn builtin_outcome(tool_present: bool, disabled: bool, exit_ok: bool) -> (o: StepOutcome)
    ensures
        o == spec_builtin_outcome(tool_present, disabled, exit_ok),
{
    if !tool_present || disabled {
        StepOutcome::Skipped
    } else if exit_ok {
        StepOutcome::Succeeded
    } else {
        StepOutcome::Failed
    }
}

/// How a user-configured command's raw result is reported: it either runs
/// or visibly fails. A shell that could not even be spawned counts as a
/// failure, never as a silent skip.
pub open spec fn spec_custom_outcome(spawned: bool, exit_ok: bool) -> StepOutcome {
    if spawned && exit_ok {
        StepOutcome::Succeeded
    } else {
        StepOutcome::Failed
    }
}

pub fn custom_outcome(spawned: bool, exit_ok: bool) -> (o: StepOutcome)
    ensures
        o == spec_custom_outcome(spawned, exit_ok),
        o != StepOutcome::Skipped,
{
    if spawned && exit_ok {
        StepOutcome::Succeeded
    } else {
        StepOutcome::Failed
    }
}

} // verus!

//! The run itself: a single linear pass over an ordered agenda of tasks.
//!
//! The agenda is fixed before the run starts: the user's pre-run commands,
//! then the platform's built-in steps interleaved with repository pulls
//! and the user's own commands. The orchestrator never reorders, retries
//! or short-circuits — an individual step's failure is recorded and the
//! run continues — with one exception: a failing pre-run command aborts
//! the whole run before anything is recorded or rendered.
//!
//! Performing a task (spawning the tool, pulling the repository) is the
//! surrounding program's job; it asks for the next task, performs it, and
//! hands the outcome back.

use vstd::prelude::*;

use crate::report::all_ok;
use crate::report::Report;
use crate::repos::RepositorySet;
use crate::steps::early_order;
use crate::steps::early_plan;
use crate::steps::late_order;
use crate::steps::late_plan;
use crate::steps::mid_order;
use crate::steps::mid_plan;
use crate::steps::spec_plan;
use crate::steps::spec_step_name;
use crate::steps::step_name;
use crate::steps::BuiltInStep;
use crate::steps::Platform;
use crate::steps::StepOutcome;

verus! {

/// One unit of the agenda.
#[derive(Clone)]
pub enum Task {
    /// A pre-run command: (name, shell command). Its failure is fatal.
    PreCommand(String, String),
    /// A fixed native routine.
    BuiltIn(BuiltInStep),
    /// Synchronizing one git repository root.
    PullRepo(String),
    /// A user-configured command: (name, shell command). Never skipped.
    Custom(String, String),
}

/// The mathematical shape of a task: names and commands as character
/// sequences.
#[verifier::ext_equal]
pub enum TaskSpec {
    PreCommand(Seq<char>, Seq<char>),
    BuiltIn(BuiltInStep),
    PullRepo(Seq<char>),
    Custom(Seq<char>, Seq<char>),
}

impl View for Task {
    type V = TaskSpec;

    open spec fn view(&self) -> TaskSpec {
        match self {
            Task::PreCommand(n, c) => TaskSpec::PreCommand(n@, c@),
            Task::BuiltIn(s) => TaskSpec::BuiltIn(*s),
            Task::PullRepo(p) => TaskSpec::PullRepo(p@),
            Task::Custom(n, c) => TaskSpec::Custom(n@, c@),
        }
    }
}

pub open spec fn agenda_view(v: Seq<Task>) -> Seq<TaskSpec> {
    v.map_values(|t: Task| t@)
}

/// The name a task is recorded under in the report.
pub open spec fn spec_task_name(t: TaskSpec) -> Seq<char> {
    match t {
        TaskSpec::PreCommand(n, _) => n,
        TaskSpec::BuiltIn(s) => spec_step_name(s),
        TaskSpec::PullRepo(p) => p,
        TaskSpec::Custom(n, _) => n,
    }
}

/// What a step's outcome contributes to the report: a skipped step
/// contributes nothing.
pub open spec fn spec_record_of(name: Seq<char>, o: StepOutcome) -> Option<(Seq<char>, bool)> {
    match o {
        StepOutcome::Succeeded => Option::Some((name, true)),
        StepOutcome::Failed => Option::Some((name, false)),
        StepOutcome::Skipped => Option::None,
    }
}

/// The view of a sequence of (name, command) pairs.
pub open spec fn pairs_view(v: Seq<(String, String)>) -> Seq<(Seq<char>, Seq<char>)> {
    v.map_values(|x: (String, String)| (x.0@, x.1@))
}

/// The whole agenda for one run, in execution order: pre-run commands,
/// the early built-in steps, one pull per collected repository, the
/// middle built-in steps, the user's commands, the closing built-in
/// steps.
pub open spec fn spec_agenda(
    p: Platform,
    no_system: bool,
    pre: Seq<(Seq<char>, Seq<char>)>,
    repos: Seq<Seq<char>>,
    custom: Seq<(Seq<char>, Seq<char>)>,
) -> Seq<TaskSpec> {
    pre.map_values(|pc: (Seq<char>, Seq<char>)| TaskSpec::PreCommand(pc.0, pc.1)) + spec_plan(
        early_order(),
        p,
        no_system,
    ).map_values(|s: BuiltInStep| TaskSpec::BuiltIn(s)) + repos.map_values(
        |r: Seq<char>| TaskSpec::PullRepo(r),
    ) + spec_plan(mid_order(), p, no_system).map_values(|s: BuiltInStep| TaskSpec::BuiltIn(s))
        + custom.map_values(|cc: (Seq<char>, Seq<char>)| TaskSpec::Custom(cc.0, cc.1)) + spec_plan(
        late_order(),
        p,
        no_system,
    ).map_values(|s: BuiltInStep| TaskSpec::BuiltIn(s))
}

/// The log grows by one task whose shape is `tv`.
proof fn lemma_agenda_push(v: Seq<Task>, w: Seq<Task>, s: Seq<TaskSpec>, tv: TaskSpec)
    requires
        agenda_view(v) == s,
        w.len() == v.len() + 1,
        forall|j: int| 0 <= j < v.len() ==> w[j] == v[j],
        w.last()@ == tv,
    ensures
        agenda_view(w) == s.push(tv),
{
    assert(agenda_view(w) =~= s.push(tv));
}

/// Extending a taken prefix by its next element.
proof fn lemma_take_step<A>(a: Seq<A>, b: Seq<A>, i: int)
    requires
        0 <= i < b.len(),
    ensures
        (a + b.take(i)).push(b[i]) == a + b.take(i + 1),
{
    assert((a + b.take(i)).push(b[i]) =~= a + b.take(i + 1));
}

fn extend_pre(r: &mut Vec<Task>, pre: &Vec<(String, String)>)
    ensures
        agenda_view(final(r)@) == agenda_view(old(r)@) + pairs_view(pre@).map_values(
            |pc: (Seq<char>, Seq<char>)| TaskSpec::PreCommand(pc.0, pc.1),
        ),
{
    let ghost base: Seq<TaskSpec> = agenda_view(r@);
    let ghost part: Seq<TaskSpec> = pairs_view(pre@).map_values(
        |pc: (Seq<char>, Seq<char>)| TaskSpec::PreCommand(pc.0, pc.1),
    );
    proof {
        assert(agenda_view(r@) =~= base + part.take(0));
    }
    let mut i: usize = 0;
    while i < pre.len()
        invariant
            i <= pre.len(),
            part == pairs_view(pre@).map_values(
                |pc: (Seq<char>, Seq<char>)| TaskSpec::PreCommand(pc.0, pc.1),
            ),
            agenda_view(r@) == base + part.take(i as int),
        decreases pre.len() - i,
    {
        let name = pre[i].0.clone();
        let command = pre[i].1.clone();
        let t = Task::PreCommand(name, command);
        let ghost tv: TaskSpec = t@;
        let ghost prev: Seq<Task> = r@;
        proof {
            assert(tv == part[i as int]);
        }
        r.push(t);
        proof {
            lemma_agenda_push(prev, r@, base + part.take(i as int), tv);
            lemma_take_step(base, part, i as int);
        }
        i = i + 1;
    }
    proof {
        assert(part.take(pre@.len() as int) =~= part);
    }
}

fn extend_builtins(r: &mut Vec<Task>, steps: &Vec<BuiltInStep>)
    ensures
        agenda_view(final(r)@) == agenda_view(old(r)@) + steps@.map_values(
            |s: BuiltInStep| TaskSpec::BuiltIn(s),
        ),
{
    let ghost base: Seq<TaskSpec> = agenda_view(r@);
    let ghost part: Seq<TaskSpec> = steps@.map_values(|s: BuiltInStep| TaskSpec::BuiltIn(s));
    proof {
        assert(agenda_view(r@) =~= base + part.take(0));
    }
    let mut i: usize = 0;
    while i < steps.len()
        invariant
            i <= steps.len(),
            part == steps@.map_values(|s: BuiltInStep| TaskSpec::BuiltIn(s)),
            agenda_view(r@) == base + part.take(i as int),
        decreases steps.len() - i,
    {
        let t = Task::BuiltIn(steps[i]);
        let ghost tv: TaskSpec = t@;
        let ghost prev: Seq<Task> = r@;
        proof {
            assert(tv == part[i as int]);
        }
        r.push(t);
        proof {
            lemma_agenda_push(prev, r@, base + part.take(i as int), tv);
            lemma_take_step(base, part, i as int);
        }
        i = i + 1;
    }
    proof {
        assert(part.take(steps@.len() as int) =~= part);
    }
}

fn extend_pulls(r: &mut Vec<Task>, pulls: &Vec<String>)
    ensures
        agenda_view(final(r)@) == agenda_view(old(r)@) + pulls@.map_values(
            |q: String| TaskSpec::PullRepo(q@),
        ),
{
    let ghost base: Seq<TaskSpec> = agenda_view(r@);
    let ghost part: Seq<TaskSpec> = pulls@.map_values(|q: String| TaskSpec::PullRepo(q@));
    proof {
        assert(agenda_view(r@) =~= base + part.take(0));
    }
    let mut i: usize = 0;
    while i < pulls.len()
        invariant
            i <= pulls.len(),
            part == pulls@.map_values(|q: String| TaskSpec::PullRepo(q@)),
            agenda_view(r@) == base + part.take(i as int),
        decreases pulls.len() - i,
    {
        let t = Task::PullRepo(pulls[i].clone());
        let ghost tv: TaskSpec = t@;
        let ghost prev: Seq<Task> = r@;
        proof {
            assert(tv == part[i as int]);
        }
        r.push(t);
        proof {
            lemma_agenda_push(prev, r@, base + part.take(i as int), tv);
            lemma_take_step(base, part, i as int);
        }
        i = i + 1;
    }
    proof {
        assert(part.take(pulls@.len() as int) =~= part);
    }
}

fn extend_customs(r: &mut Vec<Task>, custom: &Vec<(String, String)>)
    ensures
        agenda_view(final(r)@) == agenda_view(old(r)@) + pairs_view(custom@).map_values(
            |cc: (Seq<char>, Seq<char>)| TaskSpec::Custom(cc.0, cc.1),
        ),
{
    let ghost base: Seq<TaskSpec> = agenda_view(r@);
    let ghost part: Seq<TaskSpec> = pairs_view(custom@).map_values(
        |cc: (Seq<char>, Seq<char>)| TaskSpec::Custom(cc.0, cc.1),
    );
    proof {
        assert(agenda_view(r@) =~= base + part.take(0));
    }
    let mut i: usize = 0;
    while i < custom.len()
        invariant
            i <= custom.len(),
            part == pairs_view(custom@).map_values(
                |cc: (Seq<char>, Seq<char>)| TaskSpec::Custom(cc.0, cc.1),
            ),
            agenda_view(r@) == base + part.take(i as int),
        decreases custom.len() - i,
    {
        let name = custom[i].0.clone();
        let command = custom[i].1.clone();
        let t = Task::Custom(name, command);
        let ghost tv: TaskSpec = t@;
        let ghost prev: Seq<Task> = r@;
        proof {
            assert(tv == part[i as int]);
        }
        r.push(t);
        proof {
            lemma_agenda_push(prev, r@, base + part.take(i as int), tv);
            lemma_take_step(base, part, i as int);
        }
        i = i + 1;
    }
    proof {
        assert(part.take(custom@.len() as int) =~= part);
    }
}

/// Builds the agenda for one run.
pub fn build_agenda(
    p: Platform,
    no_system: bool,
    pre: &Vec<(String, String)>,
    repos: &RepositorySet,
    custom: &Vec<(String, String)>,
) -> (r: Vec<Task>)
    ensures
        agenda_view(r@) == spec_agenda(p, no_system, pairs_view(pre@), repos@, pairs_view(custom@)),
{
    let mut r: Vec<Task> = Vec::new();
    proof {
        assert(agenda_view(r@) =~= Seq::<TaskSpec>::empty());
    }
    extend_pre(&mut r, pre);
    proof {
        assert(Seq::<TaskSpec>::empty() + pairs_view(pre@).map_values(
            |pc: (Seq<char>, Seq<char>)| TaskSpec::PreCommand(pc.0, pc.1),
        ) =~= pairs_view(pre@).map_values(
            |pc: (Seq<char>, Seq<char>)| TaskSpec::PreCommand(pc.0, pc.1),
        ));
    }
    let early = early_plan(p, no_system);
    extend_builtins(&mut r, &early);
    let pulls = repos.repositories();
    extend_pulls(&mut r, pulls);
    proof {
        assert(pulls@.map_values(|q: String| TaskSpec::PullRepo(q@)) =~= repos@.map_values(
            |q: Seq<char>| TaskSpec::PullRepo(q),
        ));
    }
    let mid = mid_plan(p, no_system);
    extend_builtins(&mut r, &mid);
    extend_customs(&mut r, custom);
    let late = late_plan(p, no_system);
    extend_builtins(&mut r, &late);
    r
}

/// Whether the process should re-execute itself inside the terminal
/// multiplexer before doing anything else: only when asked to, only when
/// not already inside one, and never on Windows.
pub open spec fn spec_reexec_in_tmux(requested: bool, inside_tmux: bool, p: Platform) -> bool {
    requested && !inside_tmux && p != Platform::Windows
}

pub fn reexec_in_tmux(requested: bool, inside_tmux: bool, p: Platform) -> (b: bool)
    ensures
        b == spec_reexec_in_tmux(requested, inside_tmux, p),
{
    requested && !inside_tmux && !matches!(p, Platform::Windows)
}

/// The tagged result of a whole run, inspected once at the process
/// boundary.
#[derive(Clone, Copy, PartialEq, Eq, Structural, Debug)]
pub enum RunOutcome {
    /// Every recorded step succeeded (vacuously, if nothing was recorded).
    Success,
    /// At least one recorded step failed.
    StepsFailed,
    /// A pre-run command failed; the run was abandoned.
    Fatal,
}

pub open spec fn spec_exit_code(r: RunOutcome) -> int {
    if r == RunOutcome::Success {
        0
    } else {
        1
    }
}

impl RunOutcome {
    /// The process exit status the run reduces to: 0 only for success.
    pub fn exit_code(&self) -> (c: i32)
        ensures
            c as int == spec_exit_code(*self),
            (c == 0) <==> (*self == RunOutcome::Success),
    {
        match self {
            RunOutcome::Success => 0,
            RunOutcome::StepsFailed => 1,
            RunOutcome::Fatal => 1,
        }
    }
}

/// What a finished run reduces to.
pub open spec fn spec_outcome(aborted: bool, report: Seq<(Seq<char>, bool)>) -> RunOutcome {
    if aborted {
        RunOutcome::Fatal
    } else if all_ok(report) {
        RunOutcome::Success
    } else {
        RunOutcome::StepsFailed
    }
}

/// The single linear pass over the agenda. `next_task` names the task to
/// perform; the caller performs it and hands the outcome to the matching
/// `apply_*` method, which records it and moves on.
pub struct Orchestrator {
    agenda: Vec<Task>,
    pos: usize,
    report: Report,
    aborted: bool,
}

impl Orchestrator {
    pub closed spec fn spec_agenda_of(&self) -> Seq<TaskSpec> {
        agenda_view(self.agenda@)
    }

    pub closed spec fn spec_pos(&self) -> int {
        self.pos as int
    }

    pub closed spec fn spec_report(&self) -> Seq<(Seq<char>, bool)> {
        self.report@
    }

    pub closed spec fn spec_aborted(&self) -> bool {
        self.aborted
    }

    pub open spec fn wf(&self) -> bool {
        self.spec_pos() <= self.spec_agenda_of().len()
    }

    /// A fresh run over the given agenda: nothing done, nothing recorded.
    pub fn new(agenda: Vec<Task>) -> (r: Orchestrator)
        ensures
            r.spec_agenda_of() == agenda_view(agenda@),
            r.spec_pos() == 0,
            r.spec_report() == Seq::<(Seq<char>, bool)>::empty(),
            !r.spec_aborted(),
            r.wf(),
    {
        Orchestrator { agenda, pos: 0, report: Report::new(), aborted: false }
    }

    /// The task to perform next; `None` once the agenda is exhausted or
    /// the run was aborted.
    pub fn next_task(&self) -> (r: Option<&Task>)
        requires
            self.wf(),
        ensures
            match r {
                Option::None => self.spec_aborted() || self.spec_pos()
                    == self.spec_agenda_of().len(),
                Option::Some(t) => !self.spec_aborted() && self.spec_pos()
                    < self.spec_agenda_of().len() && t@ == self.spec_agenda_of()[self.spec_pos()],
            },
    {
        if self.aborted || self.pos >= self.agenda.len() {
            Option::None
        } else {
            Option::Some(&self.agenda[self.pos])
        }
    }

    /// Hands back a pre-run command's exit. Success moves on; failure
    /// aborts the whole run, and nothing is recorded either way.
    pub fn apply_pre_command(&mut self, exit_ok: bool)
        requires
            old(self).wf(),
            !old(self).spec_aborted(),
            old(self).spec_pos() < old(self).spec_agenda_of().len(),
            old(self).spec_agenda_of()[old(self).spec_pos()] is PreCommand,
        ensures
            final(self).wf(),
            final(self).spec_agenda_of() == old(self).spec_agenda_of(),
            final(self).spec_report() == old(self).spec_report(),
            exit_ok ==> !final(self).spec_aborted() && final(self).spec_pos() == old(
                self,
            ).spec_pos() + 1,
            !exit_ok ==> final(self).spec_aborted() && final(self).spec_pos() == old(
                self,
            ).spec_pos(),
    {
        if exit_ok {
            let n = self.agenda.len();
            proof {
                assert(self.pos < n);
            }
            self.pos = self.pos + 1;
        } else {
            self.aborted = true;
        }
    }

    /// Hands back the outcome of the current built-in step, repository
    /// pull, or user-configured command (the latter is never skipped).
    /// The outcome is recorded under the task's name — or not at all, for
    /// a skipped step — and the run moves on regardless: one step's
    /// failure never stops the pass.
    pub fn apply_outcome(&mut self, outcome: StepOutcome)
        requires
            old(self).wf(),
            !old(self).spec_aborted(),
            old(self).spec_pos() < old(self).spec_agenda_of().len(),
            match old(self).spec_agenda_of()[old(self).spec_pos()] {
                TaskSpec::PreCommand(_, _) => false,
                TaskSpec::BuiltIn(_) => true,
                TaskSpec::PullRepo(_) => true,
                TaskSpec::Custom(_, _) => outcome != StepOutcome::Skipped,
            },
        ensures
            final(self).wf(),
            final(self).spec_agenda_of() == old(self).spec_agenda_of(),
            !final(self).spec_aborted(),
            final(self).spec_pos() == old(self).spec_pos() + 1,
            final(self).spec_report() == (match spec_record_of(
                spec_task_name(old(self).spec_agenda_of()[old(self).spec_pos()]),
                outcome,
            ) {
                Option::Some(rec) => old(self).spec_report().push(rec),
                Option::None => old(self).spec_report(),
            }),
    {
        let name: String = match &self.agenda[self.pos] {
            Task::PreCommand(n, _) => n.clone(),
            Task::BuiltIn(s) => step_name(*s),
            Task::PullRepo(q) => q.clone(),
            Task::Custom(n, _) => n.clone(),
        };
        match outcome {
            StepOutcome::Succeeded => self.report.push_result(Option::Some((name, true))),
            StepOutcome::Failed => self.report.push_result(Option::Some((name, false))),
            StepOutcome::Skipped => self.report.push_result(Option::None),
        }
        let n = self.agenda.len();
        proof {
            assert(self.pos < n);
        }
        self.pos = self.pos + 1;
    }

    /// Whether the pass is over: the agenda is exhausted or the run was
    /// aborted by a failing pre-run command.
    pub fn is_done(&self) -> (b: bool)
        requires
            self.wf(),
        ensures
            b == (self.spec_aborted() || self.spec_pos() == self.spec_agenda_of().len()),
    {
        self.aborted || self.pos >= self.agenda.len()
    }

    /// The recorded outcomes so far, for rendering.
    pub fn report(&self) -> (r: &Report)
        ensures
            r@ == self.spec_report(),
    {
        &self.report
    }

    /// Whether a summary should be rendered at all: an aborted run is
    /// never rendered, and an empty report prints no summary section.
    pub fn should_render(&self) -> (b: bool)
        ensures
            b == (!self.spec_aborted() && self.spec_report().len() > 0),
    {
        if self.aborted {
            false
        } else {
            !self.report.data().is_empty()
        }
    }

    /// What the finished run reduces to: `Fatal` for an aborted run,
    /// otherwise success exactly when every recorded step succeeded.
    pub fn outcome(&self) -> (r: RunOutcome)
        requires
            self.wf(),
            self.spec_aborted() || self.spec_pos() == self.spec_agenda_of().len(),
        ensures
            r == spec_outcome(self.spec_aborted(), self.spec_report()),
    {
        if self.aborted {
            RunOutcome::Fatal
        } else if self.report.all_succeeded() {
            RunOutcome::Success
        } else {
            RunOutcome::StepsFailed
        }
    }
}

} // verus!

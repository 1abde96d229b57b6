//! Installation, removal and URL-handler registration are computed here as
//! plans: lists of file-system and process steps that the program around
//! the library carries out in order.
//!
//! A step runs only where all its conditions hold when it is reached. A
//! required step that fails ends the plan; the failure of any other step
//! is passed over.
use vstd::prelude::*;
use vstd::string::*;
use crate::text::{owned, views};

verus! {

/// A condition on the file system.
#[derive(Debug, Clone, PartialEq, Eq)]
pub enum Cond {
    Exists(String),
    Missing(String),
}

/// What a step does.
#[derive(Debug, Clone, PartialEq, Eq)]
pub enum Action {
    /// Runs `program` with `args` and waits for it; how it exits is not
    /// looked at (only a failure to start counts).
    Run { program: String, args: Vec<String> },
    /// Runs `program` with `args` and waits for it; an unsuccessful exit
    /// counts as a failure, reported with the message `error`.
    RunChecked { program: String, args: Vec<String>, error: String },
    /// Starts `program` with `args` without waiting for it.
    Spawn { program: String, args: Vec<String> },
    /// Ends every other running process of the executable `binary`.
    KillOthers { binary: String },
    CreateDirAll { path: String },
    WriteFile { path: String, contents: String },
    CopyFile { from: String, to: String },
    /// Copies the directory `from`, with everything in it, to `to`.
    CopyDirAll { from: String, to: String },
    RemoveFile { path: String },
    RemoveDirAll { path: String },
    /// Removes `path` where it holds nothing, or nothing but `.DS_Store`.
    RemoveDirIfEmpty { path: String },
    /// Gives `path` the permissions `rwxr-xr-x`.
    MakeExecutable { path: String },
    /// Makes the bundle `bundle_id` the default handler of URLs of `scheme`
    /// (macOS Launch Services).
    SetDefaultUrlHandler { scheme: String, bundle_id: String },
}

#[derive(Debug, Clone, PartialEq, Eq)]
pub struct Step {
    pub action: Action,
    pub when: Vec<Cond>,
    pub required: bool,
}

/// Why a plan could not be computed to its end.
#[derive(Clone, Copy, PartialEq, Eq, Structural, Debug)]
pub enum SetupError {
    /// `HOME` is unset.
    MissingHome,
    /// `LOCALAPPDATA` is unset.
    MissingLocalAppData,
    /// The path of the running executable could not be had.
    NoExecutablePath,
    /// The working directory could not be had.
    NoWorkingDir,
    /// The running executable is not inside an app bundle.
    NotInAppBundle,
}

/// Steps to carry out, then the outcome to report (where the plan breaks
/// off, the steps before the break are still carried out).
#[derive(Debug, PartialEq, Eq)]
pub struct Plan {
    pub steps: Vec<Step>,
    pub outcome: Result<(), SetupError>,
}

// ---------------------------------------------------------------------------
// The mathematical view of a plan
// ---------------------------------------------------------------------------

pub enum CondView {
    Exists(Seq<char>),
    Missing(Seq<char>),
}

pub enum ActionView {
    Run(Seq<char>, Seq<Seq<char>>),
    RunChecked(Seq<char>, Seq<Seq<char>>, Seq<char>),
    Spawn(Seq<char>, Seq<Seq<char>>),
    KillOthers(Seq<char>),
    CreateDirAll(Seq<char>),
    WriteFile(Seq<char>, Seq<char>),
    CopyFile(Seq<char>, Seq<char>),
    CopyDirAll(Seq<char>, Seq<char>),
    RemoveFile(Seq<char>),
    RemoveDirAll(Seq<char>),
    RemoveDirIfEmpty(Seq<char>),
    MakeExecutable(Seq<char>),
    SetDefaultUrlHandler(Seq<char>, Seq<char>),
}

pub struct StepView {
    pub action: ActionView,
    pub when: Seq<CondView>,
    pub required: bool,
}

impl View for Cond {
    type V = CondView;

    open spec fn view(&self) -> CondView {
        match self {
            Cond::Exists(p) => CondView::Exists(p@),
            Cond::Missing(p) => CondView::Missing(p@),
        }
    }
}

impl View for Action {
    type V = ActionView;

    open spec fn view(&self) -> ActionView {
        match self {
            Action::Run { program, args } => ActionView::Run(program@, views(args@)),
            Action::RunChecked { program, args, error } => ActionView::RunChecked(
                program@,
                views(args@),
                error@,
            ),
            Action::Spawn { program, args } => ActionView::Spawn(program@, views(args@)),
            Action::KillOthers { binary } => ActionView::KillOthers(binary@),
            Action::CreateDirAll { path } => ActionView::CreateDirAll(path@),
            Action::WriteFile { path, contents } => ActionView::WriteFile(path@, contents@),
            Action::CopyFile { from, to } => ActionView::CopyFile(from@, to@),
            Action::CopyDirAll { from, to } => ActionView::CopyDirAll(from@, to@),
            Action::RemoveFile { path } => ActionView::RemoveFile(path@),
            Action::RemoveDirAll { path } => ActionView::RemoveDirAll(path@),
            Action::RemoveDirIfEmpty { path } => ActionView::RemoveDirIfEmpty(path@),
            Action::MakeExecutable { path } => ActionView::MakeExecutable(path@),
            Action::SetDefaultUrlHandler { scheme, bundle_id } => ActionView::SetDefaultUrlHandler(
                scheme@,
                bundle_id@,
            ),
        }
    }
}

pub open spec fn conds_view(c: Seq<Cond>) -> Seq<CondView> {
    c.map_values(|x: Cond| x@)
}

impl View for Step {
    type V = StepView;

    open spec fn view(&self) -> StepView {
        StepView { action: self.action@, when: conds_view(self.when@), required: self.required }
    }
}

pub open spec fn steps_view(s: Seq<Step>) -> Seq<StepView> {
    s.map_values(|x: Step| x@)
}

/// The steps and the outcome of a plan.
pub open spec fn plan_view(p: Plan) -> (Seq<StepView>, Result<(), SetupError>) {
    (steps_view(p.steps@), p.outcome)
}

/// An unconditional step whose failure is passed over.
pub open spec fn step(a: ActionView) -> StepView {
    StepView { action: a, when: Seq::empty(), required: false }
}

/// An unconditional step whose failure ends the plan.
pub open spec fn must(a: ActionView) -> StepView {
    StepView { action: a, when: Seq::empty(), required: true }
}

/// `s`, run only where `c` holds.
pub open spec fn guarded(s: StepView, c: Seq<CondView>) -> StepView {
    StepView { action: s.action, when: c, required: s.required }
}

// ---------------------------------------------------------------------------
// What a plan writes and removes
// ---------------------------------------------------------------------------

/// The path that `a` creates or overwrites, if any.
pub open spec fn written_path(a: ActionView) -> Option<Seq<char>> {
    match a {
        ActionView::WriteFile(path, _) => Some(path),
        ActionView::CopyFile(_, to) => Some(to),
        ActionView::CopyDirAll(_, to) => Some(to),
        _ => None,
    }
}

/// Some step of `steps` creates or overwrites `path`.
pub open spec fn writes(steps: Seq<StepView>, path: Seq<char>) -> bool {
    exists|i: int| 0 <= i < steps.len() && written_path(#[trigger] steps[i].action) == Some(path)
}

/// `a` removes `path`: the file itself, or a directory (with separator
/// `sep`) that holds it.
pub open spec fn removal_covers(sep: char, a: ActionView, path: Seq<char>) -> bool {
    match a {
        ActionView::RemoveFile(q) => q == path,
        ActionView::RemoveDirAll(d) => path == d || crate::urls::starts_with(path, d.push(sep)),
        _ => false,
    }
}

/// Some step of `steps` removes `path`.
pub open spec fn removes(sep: char, steps: Seq<StepView>, path: Seq<char>) -> bool {
    exists|i: int| 0 <= i < steps.len() && removal_covers(sep, #[trigger] steps[i].action, path)
}

pub proof fn lemma_removes_left(sep: char, a: Seq<StepView>, b: Seq<StepView>, path: Seq<char>)
    requires
        removes(sep, a, path),
    ensures
        removes(sep, a + b, path),
{
    let i = choose|i: int| 0 <= i < a.len() && removal_covers(sep, #[trigger] a[i].action, path);
    assert((a + b)[i] == a[i]);
}

pub proof fn lemma_removes_right(sep: char, a: Seq<StepView>, b: Seq<StepView>, path: Seq<char>)
    requires
        removes(sep, b, path),
    ensures
        removes(sep, a + b, path),
{
    let i = choose|i: int| 0 <= i < b.len() && removal_covers(sep, #[trigger] b[i].action, path);
    assert((a + b)[a.len() + i] == b[i]);
}

/// A directory holding the entries `names` counts as empty: it holds
/// nothing, or nothing but the `.DS_Store` that Finder leaves.
pub open spec fn counts_as_empty(names: Seq<Seq<char>>) -> bool {
    forall|i: int| 0 <= i < names.len() ==> #[trigger] names[i] == ".DS_Store"@
}

/// Whether a directory holding the entries `names` is removed by
/// `RemoveDirIfEmpty`.
pub fn dir_counts_as_empty(names: &Vec<String>) -> (r: bool)
    ensures
        r == counts_as_empty(views(names@)),
{
    let mut i: usize = 0;
    while i < names.len()
        invariant
            i <= names.len(),
            forall|k: int| 0 <= k < i ==> #[trigger] views(names@)[k] == ".DS_Store"@,
        decreases names.len() - i,
    {
        if !crate::text::str_eq(names[i].as_str(), ".DS_Store") {
            assert(views(names@)[i as int] == names@[i as int]@);
            return false;
        }
        i = i + 1;
    }
    true
}

// ---------------------------------------------------------------------------
// Building plans
// ---------------------------------------------------------------------------

pub fn push_arg(args: &mut Vec<String>, a: &str)
    ensures
        views(final(args)@) == views(old(args)@).push(a@),
{
    args.push(owned(a));
    assert(views(args@) =~= views(old(args)@).push(a@));
}

pub fn push_step(steps: &mut Vec<Step>, s: Step)
    ensures
        steps_view(final(steps)@) == steps_view(old(steps)@).push(s@),
{
    let ghost v = s@;
    steps.push(s);
    assert(steps_view(steps@) =~= steps_view(old(steps)@).push(v));
}

pub fn append_steps(steps: &mut Vec<Step>, more: Vec<Step>)
    ensures
        steps_view(final(steps)@) == steps_view(old(steps)@) + steps_view(more@),
{
    let mut more = more;
    let ghost m = steps_view(more@);
    steps.append(&mut more);
    assert(steps_view(steps@) =~= steps_view(old(steps)@) + m);
}

/// The step carrying out `a`, unconditionally; `required` tells whether its
/// failure ends the plan.
pub fn plain_step(a: Action, required: bool) -> (r: Step)
    ensures
        r@ == (StepView { action: a@, when: Seq::empty(), required }),
{
    let r = Step { action: a, when: Vec::new(), required };
    assert(conds_view(r.when@) =~= Seq::<CondView>::empty());
    r
}

/// The step carrying out `a` where `path` exists.
pub fn step_if_exists(a: Action, path: &str, required: bool) -> (r: Step)
    ensures
        r@ == (StepView { action: a@, when: seq![CondView::Exists(path@)], required }),
{
    let c = Cond::Exists(owned(path));
    let ghost cv = c@;
    let r = Step { action: a, when: vec![c], required };
    assert(conds_view(r.when@) =~= seq![cv]);
    r
}

/// `program` with `args`, waited for, its failure passed over.
pub fn run_step(program: &str, args: Vec<String>) -> (r: Step)
    ensures
        r@ == step(ActionView::Run(program@, views(args@))),
{
    plain_step(Action::Run { program: owned(program), args }, false)
}

pub fn must_step(a: Action) -> (r: Step)
    ensures
        r@ == must(a@),
{
    plain_step(a, true)
}

} // verus!

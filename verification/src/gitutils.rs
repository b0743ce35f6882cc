//! The git side of a snapshot: which git commands each operation runs, in what
//! order, what their output means, and the runner that steps through them.
//!
//! Running a process is left to the caller. A [`GitRun`] hands out one command
//! line at a time ([`GitStep::Run`]) and is fed what running it produced; it
//! stops at the first command that fails, and otherwise finishes with the
//! standard output of the last command.

use vstd::prelude::*;

use crate::text::{is_blank, join, joined, lemma_trimmed_empty_iff_blank, trim, trimmed, views};

verus! {

/// What running one git command produced.
#[derive(Debug, Clone, PartialEq, Eq)]
pub struct CommandOutput {
    /// Whether the command exited successfully.
    pub success: bool,
    /// How the exit status reads, such as `exit status: 1`.
    pub status: String,
    /// Standard output, decoded as text.
    pub stdout: String,
    /// Standard error, decoded as text.
    pub stderr: String,
}

/// The next thing to do in a run of git commands.
#[derive(Debug, PartialEq, Eq)]
pub enum GitStep {
    /// Run `git` with these arguments and feed back what it produced.
    Run(Vec<String>),
    /// The run is over: the standard output of the last command, or why it failed.
    Done(Result<String, String>),
}

/// A [`GitStep`] as plain text values.
pub enum StepView {
    Run(Seq<Seq<char>>),
    Done(Result<Seq<char>, Seq<char>>),
}

pub open spec fn result_view(r: Result<String, String>) -> Result<Seq<char>, Seq<char>> {
    match r {
        Ok(s) => Ok(s@),
        Err(e) => Err(e@),
    }
}

pub open spec fn step_view(s: GitStep) -> StepView {
    match s {
        GitStep::Run(args) => StepView::Run(views(args@)),
        GitStep::Done(r) => StepView::Done(result_view(r)),
    }
}

/// The argument lists of a plan, as text.
pub open spec fn plan_views(plan: Seq<Vec<String>>) -> Seq<Seq<Seq<char>>> {
    plan.map_values(|args: Vec<String>| views(args@))
}

/// The arguments that run git subcommand `args` in the repository at `repo`.
pub open spec fn in_repo(repo: Seq<char>, args: Seq<Seq<char>>) -> Seq<Seq<char>> {
    seq!["-C"@, repo] + args
}

/// How a command is named in messages: `git` followed by its arguments.
pub open spec fn spec_describe(args: Seq<Seq<char>>) -> Seq<char> {
    "git "@ + joined(args, " "@)
}

/// What a failed command has to say: its standard error, or its standard output
/// when standard error is blank, without surrounding whitespace.
pub open spec fn failure_details(stdout: Seq<char>, stderr: Seq<char>) -> Seq<char> {
    if trimmed(stderr).len() == 0 {
        trimmed(stdout)
    } else {
        trimmed(stderr)
    }
}

/// The error reported for a command that failed.
pub open spec fn failure_message(
    description: Seq<char>,
    status: Seq<char>,
    stdout: Seq<char>,
    stderr: Seq<char>,
) -> Seq<char> {
    let details = failure_details(stdout, stderr);
    description + " failed with status "@ + status + if details.len() == 0 {
        Seq::empty()
    } else {
        ": "@ + details
    }
}

/// What a command that is described as `description` and produced `out` comes to.
pub open spec fn spec_command_result(description: Seq<char>, out: CommandOutput) -> Result<
    Seq<char>,
    Seq<char>,
> {
    if out.success {
        Ok(out.stdout@)
    } else {
        Err(failure_message(description, out.status@, out.stdout@, out.stderr@))
    }
}

/// Appends `s` to a list of arguments.
fn push_arg(v: &mut Vec<String>, s: &str)
    ensures
        views(final(v)@) == views(old(v)@).push(s@),
{
    v.push(String::from_str(s));
    assert(views(v@) =~= views(old(v)@).push(s@));
}

/// `-C repo`: the start of the arguments of a command run in `repo`.
fn repo_args(repo_path: &str) -> (v: Vec<String>)
    ensures
        views(v@) == seq!["-C"@, repo_path@],
{
    let mut v = Vec::new();
    push_arg(&mut v, "-C");
    push_arg(&mut v, repo_path);
    assert(views(v@) =~= seq!["-C"@, repo_path@]);
    v
}

/// `-C repo a`.
fn in_repo1(repo_path: &str, a: &str) -> (v: Vec<String>)
    ensures
        views(v@) == in_repo(repo_path@, seq![a@]),
{
    let mut v = repo_args(repo_path);
    push_arg(&mut v, a);
    assert(views(v@) =~= in_repo(repo_path@, seq![a@]));
    v
}

/// `-C repo a b`.
fn in_repo2(repo_path: &str, a: &str, b: &str) -> (v: Vec<String>)
    ensures
        views(v@) == in_repo(repo_path@, seq![a@, b@]),
{
    let mut v = in_repo1(repo_path, a);
    push_arg(&mut v, b);
    assert(views(v@) =~= in_repo(repo_path@, seq![a@, b@]));
    v
}

/// `-C repo a b c`.
fn in_repo3(repo_path: &str, a: &str, b: &str, c: &str) -> (v: Vec<String>)
    ensures
        views(v@) == in_repo(repo_path@, seq![a@, b@, c@]),
{
    let mut v = in_repo2(repo_path, a, b);
    push_arg(&mut v, c);
    assert(views(v@) =~= in_repo(repo_path@, seq![a@, b@, c@]));
    v
}

/// The message of the stash that `pull` makes of local changes.
pub open spec fn stash_message() -> Seq<char> {
    "syscfg auto-stash before pull"@
}

/// The arguments of the command that stashes local changes, untracked files
/// included, before a pull.
pub open spec fn stash_push_args(repo: Seq<char>) -> Seq<Seq<char>> {
    in_repo(repo, seq!["stash"@, "push"@, "--include-untracked"@, "--message"@, stash_message()])
}

/// The arguments of the command that pulls.
pub open spec fn pull_args(repo: Seq<char>) -> Seq<Seq<char>> {
    in_repo(repo, seq!["pull"@])
}

/// The arguments of the command that restores stashed changes.
pub open spec fn stash_pop_args(repo: Seq<char>) -> Seq<Seq<char>> {
    in_repo(repo, seq!["stash"@, "pop"@])
}

/// The commands that make `repo_path` a git repository.
pub fn init(repo_path: &str) -> (plan: Vec<Vec<String>>)
    ensures
        plan_views(plan@) == seq![seq!["init"@, repo_path@]],
{
    let mut args = Vec::new();
    push_arg(&mut args, "init");
    push_arg(&mut args, repo_path);
    assert(views(args@) =~= seq!["init"@, repo_path@]);
    let mut plan = Vec::new();
    plan.push(args);
    assert(plan_views(plan@) =~= seq![seq!["init"@, repo_path@]]);
    plan
}

/// The commands that stage every change in `repo_path` and commit it with
/// message `msg`.
pub fn commit(repo_path: &str, msg: &str) -> (plan: Vec<Vec<String>>)
    ensures
        plan_views(plan@) == seq![
            in_repo(repo_path@, seq!["add"@, "-A"@]),
            in_repo(repo_path@, seq!["commit"@, "-m"@, msg@]),
        ],
{
    let mut plan = Vec::new();
    plan.push(in_repo2(repo_path, "add", "-A"));
    plan.push(in_repo3(repo_path, "commit", "-m", msg));
    assert(plan_views(plan@) =~= seq![
        in_repo(repo_path@, seq!["add"@, "-A"@]),
        in_repo(repo_path@, seq!["commit"@, "-m"@, msg@]),
    ]);
    plan
}

/// The commands that push `repo_path` to its remote.
pub fn push(repo_path: &str) -> (plan: Vec<Vec<String>>)
    ensures
        plan_views(plan@) == seq![in_repo(repo_path@, seq!["push"@])],
{
    let mut plan = Vec::new();
    plan.push(in_repo1(repo_path, "push"));
    assert(plan_views(plan@) =~= seq![in_repo(repo_path@, seq!["push"@])]);
    plan
}

/// The commands that list the uncommitted changes of `repo_path`, one per line.
pub fn status(repo_path: &str) -> (plan: Vec<Vec<String>>)
    ensures
        plan_views(plan@) == seq![in_repo(repo_path@, seq!["status"@, "--porcelain"@])],
{
    let mut plan = Vec::new();
    plan.push(in_repo2(repo_path, "status", "--porcelain"));
    assert(plan_views(plan@) =~= seq![in_repo(repo_path@, seq!["status"@, "--porcelain"@])]);
    plan
}

/// Whether the output of the `status` commands shows uncommitted changes: it
/// does unless it is blank.
pub fn has_changes(status_output: &str) -> (b: bool)
    ensures
        b == !is_blank(status_output@),
        b == (trimmed(status_output@).len() > 0),
{
    proof {
        lemma_trimmed_empty_iff_blank(status_output@);
    }
    !trim(status_output).is_empty()
}

/// The commands that pull `repo_path`; with `should_stash` (the repository has
/// uncommitted changes) the changes are stashed first and restored after.
pub fn pull(repo_path: &str, should_stash: bool) -> (plan: Vec<Vec<String>>)
    ensures
        should_stash ==> plan_views(plan@) == seq![
            stash_push_args(repo_path@),
            pull_args(repo_path@),
            stash_pop_args(repo_path@),
        ],
        !should_stash ==> plan_views(plan@) == seq![pull_args(repo_path@)],
{
    let mut plan = Vec::new();
    if should_stash {
        let mut stash = in_repo3(repo_path, "stash", "push", "--include-untracked");
        push_arg(&mut stash, "--message");
        push_arg(&mut stash, "syscfg auto-stash before pull");
        assert(views(stash@) =~= stash_push_args(repo_path@));
        plan.push(stash);
    }
    plan.push(in_repo1(repo_path, "pull"));
    if should_stash {
        plan.push(in_repo2(repo_path, "stash", "pop"));
        assert(plan_views(plan@) =~= seq![
            stash_push_args(repo_path@),
            pull_args(repo_path@),
            stash_pop_args(repo_path@),
        ]);
    } else {
        assert(plan_views(plan@) =~= seq![pull_args(repo_path@)]);
    }
    plan
}

/// The commands that pull `repo_path`, given what its `status` commands printed:
/// local changes, if the output shows any, are stashed first and restored after.
pub fn pull_after_status(repo_path: &str, status_output: &str) -> (plan: Vec<Vec<String>>)
    ensures
        !is_blank(status_output@) ==> plan_views(plan@) == seq![
            stash_push_args(repo_path@),
            pull_args(repo_path@),
            stash_pop_args(repo_path@),
        ],
        is_blank(status_output@) ==> plan_views(plan@) == seq![pull_args(repo_path@)],
{
    pull(repo_path, has_changes(status_output))
}

/// How the command with arguments `args` is named in messages.
pub fn describe(args: &Vec<String>) -> (r: String)
    ensures
        r@ == spec_describe(views(args@)),
{
    let mut r = String::from_str("git ");
    let rest = join(args, " ");
    r.append(rest.as_str());
    r
}

/// What a command described as `description` that produced `out` comes to: its
/// standard output when it succeeded, otherwise the error to report.
pub fn command_result(description: &str, out: &CommandOutput) -> (r: Result<String, String>)
    ensures
        result_view(r) == spec_command_result(description@, *out),
{
    if out.success {
        return Ok(out.stdout.clone());
    }
    let stderr = trim(out.stderr.as_str());
    let details = if stderr.is_empty() {
        trim(out.stdout.as_str())
    } else {
        stderr
    };
    let mut msg = String::from_str(description);
    msg.append(" failed with status ");
    msg.append(out.status.as_str());
    if !details.is_empty() {
        msg.append(": ");
        msg.append(details);
    }
    proof {
        let d = failure_details(out.stdout@, out.stderr@);
        assert(details@ == d);
        assert(msg@ =~= failure_message(description@, out.status@, out.stdout@, out.stderr@));
    }
    Err(msg)
}

/// A copy of a list of arguments.
fn clone_args(v: &Vec<String>) -> (r: Vec<String>)
    ensures
        r@ == v@,
{
    let mut r: Vec<String> = Vec::new();
    let mut i: usize = 0;
    while i < v.len()
        invariant
            i <= v@.len(),
            r@ == v@.take(i as int),
        decreases v@.len() - i,
    {
        r.push(v[i].clone());
        i = i + 1;
        assert(r@ =~= v@.take(i as int));
    }
    assert(v@.take(v@.len() as int) =~= v@);
    r
}

/// A copy of an outcome.
fn clone_result(r: &Result<String, String>) -> (c: Result<String, String>)
    ensures
        c == *r,
{
    match r {
        Ok(s) => Ok(s.clone()),
        Err(e) => Err(e.clone()),
    }
}

/// Whether every command whose output is in `h` succeeded.
pub open spec fn all_succeeded(h: Seq<CommandOutput>) -> bool {
    forall|k: int| 0 <= k < h.len() ==> (#[trigger] h[k]).success
}

/// How a run of the commands `steps` stands after producing the outputs `h`,
/// with command `current` in progress (or last run) and ending `outcome`:
/// until it ends, every command so far succeeded and the next one is in
/// progress; it ends with success only once every command ran and succeeded,
/// with the output of the last one; it ends with an error right after the first
/// command that failed, with the message for that command.
pub open spec fn run_state_valid(
    steps: Seq<Seq<Seq<char>>>,
    h: Seq<CommandOutput>,
    current: int,
    outcome: Option<Result<Seq<char>, Seq<char>>>,
) -> bool {
    match outcome {
        None => h.len() == current && current < steps.len() && all_succeeded(h),
        Some(Ok(s)) => {
            &&& h.len() == steps.len()
            &&& all_succeeded(h)
            &&& s == if h.len() == 0 {
                Seq::<char>::empty()
            } else {
                h.last().stdout@
            }
        },
        Some(Err(m)) => {
            &&& h.len() == current + 1
            &&& 0 <= current < steps.len()
            &&& all_succeeded(h.drop_last())
            &&& !h.last().success
            &&& m == failure_message(
                spec_describe(steps[current]),
                h.last().status@,
                h.last().stdout@,
                h.last().stderr@,
            )
        },
    }
}

/// Steps through a plan of git commands, one command at a time.
pub struct GitRun {
    plan: Vec<Vec<String>>,
    current: usize,
    outcome: Option<Result<String, String>>,
    fed: Ghost<Seq<CommandOutput>>,
}

impl GitRun {
    /// Until the run is over, the command in progress is one of the plan.
    #[verifier::type_invariant]
    spec fn well_formed(self) -> bool {
        &&& self.outcome is None ==> self.current < self.plan@.len()
        &&& run_state_valid(self.steps(), self.fed@, self.current as int, self.outcome())
    }

    /// What the commands run so far produced, in order.
    pub closed spec fn history(&self) -> Seq<CommandOutput> {
        self.fed@
    }

    /// The argument lists of the planned commands, in order.
    pub closed spec fn steps(&self) -> Seq<Seq<Seq<char>>> {
        plan_views(self.plan@)
    }

    /// The position in the plan of the command in progress (or of the last one
    /// that ran, once the run is over).
    pub closed spec fn current(&self) -> int {
        self.current as int
    }

    /// How the run ended, once it has.
    pub closed spec fn outcome(&self) -> Option<Result<Seq<char>, Seq<char>>> {
        match self.outcome {
            Some(r) => Some(result_view(r)),
            None => None,
        }
    }

    /// Starts a run of `plan`: the first command to run, or, for an empty plan, a
    /// run that is over with empty output.
    pub fn start(plan: Vec<Vec<String>>) -> (r: (GitRun, GitStep))
        ensures
            r.0.steps() == plan_views(plan@),
            r.0.history() == Seq::<CommandOutput>::empty(),
            run_state_valid(r.0.steps(), r.0.history(), r.0.current(), r.0.outcome()),
            plan@.len() == 0 ==> r.0.outcome() == Some(Ok::<Seq<char>, Seq<char>>(Seq::empty()))
                && step_view(r.1) == StepView::Done(Ok(Seq::empty())),
            plan@.len() > 0 ==> r.0.outcome() is None && r.0.current() == 0 && step_view(r.1)
                == StepView::Run(plan_views(plan@)[0]),
    {
        if plan.len() == 0 {
            let run = GitRun {
                plan,
                current: 0,
                outcome: Some(Ok(String::new())),
                fed: Ghost(Seq::empty()),
            };
            (run, GitStep::Done(Ok(String::new())))
        } else {
            let first = clone_args(&plan[0]);
            let run = GitRun { plan, current: 0, outcome: None, fed: Ghost(Seq::empty()) };
            (run, GitStep::Run(first))
        }
    }

    /// A run of no commands, over with empty output.
    fn finished() -> (r: GitRun)
        ensures
            r.steps() == Seq::<Seq<Seq<char>>>::empty(),
    {
        let r = GitRun {
            plan: Vec::new(),
            current: 0,
            outcome: Some(Ok(String::new())),
            fed: Ghost(Seq::empty()),
        };
        assert(r.steps() =~= Seq::<Seq<Seq<char>>>::empty());
        r
    }

    /// Takes what the command in progress produced and says what comes next: the
    /// next command of the plan if this one succeeded and one is left; otherwise
    /// the end of the run, with this command's output or the error it failed
    /// with. Once the run is over it only repeats how it ended.
    pub fn feed(&mut self, out: &CommandOutput) -> (step: GitStep)
        ensures
            final(self).steps() == old(self).steps(),
            run_state_valid(
                final(self).steps(),
                final(self).history(),
                final(self).current(),
                final(self).outcome(),
            ),
            old(self).outcome() is None ==> final(self).history() == old(self).history().push(*out),
            old(self).outcome() matches Some(r) ==> final(self).history() == old(self).history()
                && final(self).outcome() == old(self).outcome()
                && final(self).current() == old(self).current() && step_view(step)
                == StepView::Done(r),
            old(self).outcome() is None ==> ({
                let r = spec_command_result(
                    spec_describe(old(self).steps()[old(self).current()]),
                    *out,
                );
                if r is Ok && old(self).current() + 1 < old(self).steps().len() {
                    &&& final(self).outcome() is None
                    &&& final(self).current() == old(self).current() + 1
                    &&& step_view(step) == StepView::Run(old(self).steps()[old(self).current() + 1])
                } else {
                    &&& final(self).outcome() == Some(r)
                    &&& final(self).current() == old(self).current()
                    &&& step_view(step) == StepView::Done(r)
                }
            }),
    {
        proof {
            use_type_invariant(&*self);
        }
        match &self.outcome {
            Some(r) => {
                return GitStep::Done(clone_result(r));
            },
            None => {},
        }
        let description = describe(&self.plan[self.current]);
        let r = command_result(description.as_str(), out);
        let ghost fed = self.fed@.push(*out);
        proof {
            assert(fed.drop_last() =~= self.fed@);
        }
        let mut taken = GitRun::finished();
        std::mem::swap(self, &mut taken);
        let GitRun { plan, current, .. } = taken;
        match r {
            Ok(stdout) => {
                if plan.len() - current > 1 {
                    let next = current + 1;
                    let args = clone_args(&plan[next]);
                    *self = GitRun { plan, current: next, outcome: None, fed: Ghost(fed) };
                    GitStep::Run(args)
                } else {
                    *self = GitRun {
                        plan,
                        current,
                        outcome: Some(Ok(stdout.clone())),
                        fed: Ghost(fed),
                    };
                    GitStep::Done(Ok(stdout))
                }
            },
            Err(msg) => {
                *self = GitRun { plan, current, outcome: Some(Err(msg.clone())), fed: Ghost(fed) };
                GitStep::Done(Err(msg))
            },
        }
    }
}

/// A command run in repository `r` is `-C`, then `r`, then the command's own
/// arguments `a`, in order.
pub proof fn lemma_in_repo_layout(r: Seq<char>, a: Seq<Seq<char>>)
    ensures
        in_repo(r, a).len() == a.len() + 2,
        in_repo(r, a)[0] == "-C"@,
        in_repo(r, a)[1] == r,
        forall|k: int| 0 <= k < a.len() ==> in_repo(r, a)[k + 2] == a[k],
{
}

/// The commands of the plans, word for word, for every repository `r` and
/// message `msg`: staging, committing, listing changes, and the three commands
/// of a pull that keeps local changes (stash everything, untracked files
/// included; pull; pop the stash back).
pub proof fn lemma_plan_commands(r: Seq<char>, msg: Seq<char>)
    ensures
        in_repo(r, seq!["add"@, "-A"@]) == seq!["-C"@, r, "add"@, "-A"@],
        in_repo(r, seq!["commit"@, "-m"@, msg]) == seq!["-C"@, r, "commit"@, "-m"@, msg],
        in_repo(r, seq!["status"@, "--porcelain"@]) == seq!["-C"@, r, "status"@, "--porcelain"@],
        in_repo(r, seq!["push"@]) == seq!["-C"@, r, "push"@],
        stash_push_args(r) == seq![
            "-C"@,
            r,
            "stash"@,
            "push"@,
            "--include-untracked"@,
            "--message"@,
            "syscfg auto-stash before pull"@,
        ],
        pull_args(r) == seq!["-C"@, r, "pull"@],
        stash_pop_args(r) == seq!["-C"@, r, "stash"@, "pop"@],
{
    assert(in_repo(r, seq!["add"@, "-A"@]) =~= seq!["-C"@, r, "add"@, "-A"@]);
    assert(in_repo(r, seq!["commit"@, "-m"@, msg]) =~= seq!["-C"@, r, "commit"@, "-m"@, msg]);
    assert(in_repo(r, seq!["status"@, "--porcelain"@]) =~= seq![
        "-C"@,
        r,
        "status"@,
        "--porcelain"@,
    ]);
    assert(in_repo(r, seq!["push"@]) =~= seq!["-C"@, r, "push"@]);
    assert(stash_push_args(r) =~= seq![
        "-C"@,
        r,
        "stash"@,
        "push"@,
        "--include-untracked"@,
        "--message"@,
        "syscfg auto-stash before pull"@,
    ]);
    assert(pull_args(r) =~= seq!["-C"@, r, "pull"@]);
    assert(stash_pop_args(r) =~= seq!["-C"@, r, "stash"@, "pop"@]);
}

} // verus!

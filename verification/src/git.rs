use vstd::prelude::*;
use vstd::string::{StringExecFns, StringSliceAdditionalSpecFns};
use vstd::utf8::encode_utf8;
use crate::dto::{event_name, GithubEventTypes};
use crate::models::{texts_of, Repo, RepoView};
use crate::text::{append_bytes, contents, lines_of, prefixed, split_lines};

verus! {

/// A program to launch: its path, its arguments and the directory it runs
/// in.
#[derive(Debug)]
pub struct CommandLine {
    pub program: String,
    pub args: Vec<String>,
    pub directory: String,
}

/// Mathematical content of a [`CommandLine`].
pub struct CommandLineView {
    pub program: Seq<char>,
    pub args: Seq<Seq<char>>,
    pub directory: Seq<char>,
}

impl View for CommandLine {
    type V = CommandLineView;

    open spec fn view(&self) -> CommandLineView {
        CommandLineView {
            program: self.program@,
            args: texts_of(self.args@),
            directory: self.directory@,
        }
    }
}

/// The two steps of a synchronization, in the order they run.
#[derive(Clone, Copy, Debug, PartialEq, Eq, Structural)]
pub enum GitStep {
    Fetch,
    Reset,
}

/// Why a synchronization failed.
#[derive(Debug)]
pub enum GitError {
    /// The git process of `step` could not be launched.
    Launch { step: GitStep, reason: String },
    /// The git process of `step` ended with a status other than zero; `code`
    /// is `None` where a signal ended it.
    Exit { step: GitStep, code: Option<i32> },
}

/// Mathematical content of a [`GitError`].
pub enum GitErrorView {
    Launch { step: GitStep, reason: Seq<char> },
    Exit { step: GitStep, code: Option<i32> },
}

impl View for GitError {
    type V = GitErrorView;

    open spec fn view(&self) -> GitErrorView {
        match *self {
            GitError::Launch { step, reason } => GitErrorView::Launch { step, reason: reason@ },
            GitError::Exit { step, code } => GitErrorView::Exit { step, code },
        }
    }
}

/// What a process left behind when it ended.
#[derive(Debug)]
pub struct ProcessOutput {
    /// Exit status; `None` where a signal ended the process.
    pub code: Option<i32>,
    /// Everything the process wrote to its standard output.
    pub stdout: Vec<u8>,
    /// Everything the process wrote to its standard error.
    pub stderr: Vec<u8>,
}

/// Mathematical content of a [`ProcessOutput`].
pub struct ProcessOutputView {
    pub code: Option<i32>,
    pub stdout: Seq<u8>,
    pub stderr: Seq<u8>,
}

impl View for ProcessOutput {
    type V = ProcessOutputView;

    open spec fn view(&self) -> ProcessOutputView {
        ProcessOutputView { code: self.code, stdout: self.stdout@, stderr: self.stderr@ }
    }
}

/// How the attempt to run one git command went.
#[derive(Debug)]
pub enum StepResult {
    /// The process ran to its end.
    Finished(ProcessOutput),
    /// The process could not be launched, for the reason given.
    NotLaunched(String),
}

/// Mathematical content of a [`StepResult`].
pub enum StepResultView {
    Finished(ProcessOutputView),
    NotLaunched(Seq<char>),
}

impl View for StepResult {
    type V = StepResultView;

    open spec fn view(&self) -> StepResultView {
        match *self {
            StepResult::Finished(output) => StepResultView::Finished(output@),
            StepResult::NotLaunched(reason) => StepResultView::NotLaunched(reason@),
        }
    }
}

/// Progress of one synchronization.
#[derive(Debug)]
pub enum SyncState {
    /// The fetch is due or under way.
    Fetching,
    /// The fetch succeeded; the reset is due or under way.
    Resetting,
    /// Both steps succeeded.
    Synced,
    /// A step failed; nothing more is run.
    Failed(GitError),
}

/// Mathematical content of a [`SyncState`].
pub enum SyncStateView {
    Fetching,
    Resetting,
    Synced,
    Failed(GitErrorView),
}

impl View for SyncState {
    type V = SyncStateView;

    open spec fn view(&self) -> SyncStateView {
        match *self {
            SyncState::Fetching => SyncStateView::Fetching,
            SyncState::Resetting => SyncStateView::Resetting,
            SyncState::Synced => SyncStateView::Synced,
            SyncState::Failed(error) => SyncStateView::Failed(error@),
        }
    }
}

/// What is to be done next for a synchronization.
#[derive(Debug)]
pub enum SyncAction {
    /// Run this command and report how it went.
    Run(CommandLine),
    /// Nothing is left to run; the synchronization ended as given.
    Finish(Result<(), GitError>),
}

/// Mathematical content of a [`SyncAction`].
pub enum SyncActionView {
    Run(CommandLineView),
    Finish(Result<(), GitErrorView>),
}

impl View for SyncAction {
    type V = SyncActionView;

    open spec fn view(&self) -> SyncActionView {
        match *self {
            SyncAction::Run(command) => SyncActionView::Run(command@),
            SyncAction::Finish(Ok(_)) => SyncActionView::Finish(Ok(())),
            SyncAction::Finish(Err(error)) => SyncActionView::Finish(Err(error@)),
        }
    }
}

/// A synchronization after one more report: where it stands now, and the
/// lines that the report adds to the log.
#[derive(Debug)]
pub struct SyncStep {
    pub state: SyncState,
    pub log: Vec<Vec<u8>>,
}

/// `git fetch --all`, run in `directory`.
pub open spec fn fetch_command(git: Seq<char>, directory: Seq<char>) -> CommandLineView {
    CommandLineView { program: git, args: seq!["fetch"@, "--all"@], directory }
}

/// `git reset --hard origin/<branch>`, run in `directory`.
pub open spec fn reset_command(git: Seq<char>, branch: Seq<char>, directory: Seq<char>)
    -> CommandLineView {
    CommandLineView { program: git, args: seq!["reset"@, "--hard"@, "origin/"@ + branch], directory }
}

/// What every log line about `repo` and `event` opens with: the repository's
/// identifier and the event's name, each in square brackets.
pub open spec fn log_prefix_of(identifier: Seq<char>, event: GithubEventTypes) -> Seq<char> {
    "["@ + identifier + "]["@ + event_name(event) + "]"@
}

/// The failure that a report about `step` amounts to, if it is one: the
/// process was not launched, or it ended with a status other than zero.
pub open spec fn step_failure(step: GitStep, result: StepResultView) -> Option<GitErrorView> {
    match result {
        StepResultView::NotLaunched(reason) => Some(GitErrorView::Launch { step, reason }),
        StepResultView::Finished(output) => if output.code == Some(0i32) {
            None
        } else {
            Some(GitErrorView::Exit { step, code: output.code })
        },
    }
}

/// Where a synchronization stands after the report `result` on the command
/// that was due in `state`. A failed step ends it; an ended synchronization
/// stays as it is.
pub open spec fn sync_next(state: SyncStateView, result: StepResultView) -> SyncStateView {
    match state {
        SyncStateView::Fetching => match step_failure(GitStep::Fetch, result) {
            Some(error) => SyncStateView::Failed(error),
            None => SyncStateView::Resetting,
        },
        SyncStateView::Resetting => match step_failure(GitStep::Reset, result) {
            Some(error) => SyncStateView::Failed(error),
            None => SyncStateView::Synced,
        },
        SyncStateView::Synced => SyncStateView::Synced,
        SyncStateView::Failed(error) => SyncStateView::Failed(error),
    }
}

/// What is to be done in `state`: the fetch, then the reset to the entry's
/// branch, both in the entry's working copy; nothing once the
/// synchronization has ended.
pub open spec fn sync_action_of(repo: RepoView, git: Seq<char>, state: SyncStateView)
    -> SyncActionView {
    match state {
        SyncStateView::Fetching => SyncActionView::Run(fetch_command(git, repo.repo_directory)),
        SyncStateView::Resetting => SyncActionView::Run(
            reset_command(git, repo.branch, repo.repo_directory),
        ),
        SyncStateView::Synced => SyncActionView::Finish(Ok(())),
        SyncStateView::Failed(error) => SyncActionView::Finish(Err(error)),
    }
}

/// Log lines that the report `result` in `state` adds: for a process that
/// ran, each line of its standard output and then each line of its standard
/// error, with `prefix` before it.
pub open spec fn sync_log(prefix: Seq<u8>, state: SyncStateView, result: StepResultView) -> Seq<
    Seq<u8>,
> {
    match result {
        StepResultView::Finished(output) => if state is Fetching || state is Resetting {
            prefixed(prefix, lines_of(output.stdout)) + prefixed(prefix, lines_of(output.stderr))
        } else {
            seq![]
        },
        StepResultView::NotLaunched(_) => seq![],
    }
}

/// Where a synchronization that stands in `state` ends up after the reports
/// `results`, taken in order.
pub open spec fn sync_run(state: SyncStateView, results: Seq<StepResultView>) -> SyncStateView
    decreases results.len(),
{
    if results.len() == 0 {
        state
    } else {
        sync_run(sync_next(state, results[0]), results.drop_first())
    }
}

/// The command that fetches every remote into the working copy at
/// `repo_directory`, with the git executable `git`.
pub fn git_fetch_all(git: &str, repo_directory: &str) -> (command: CommandLine)
    ensures
        command@ == fetch_command(git@, repo_directory@),
{
    let mut args: Vec<String> = Vec::new();
    args.push("fetch".to_owned());
    args.push("--all".to_owned());
    let command = CommandLine {
        program: git.to_owned(),
        args,
        directory: repo_directory.to_owned(),
    };
    assert(command@.args =~= seq!["fetch"@, "--all"@]);
    command
}

/// The command that resets the working copy at `repo_directory` to the
/// remote branch `branch`, with the git executable `git`.
pub fn git_reset(git: &str, branch: &str, repo_directory: &str) -> (command: CommandLine)
    ensures
        command@ == reset_command(git@, branch@, repo_directory@),
{
    let mut target = "origin/".to_owned();
    target.append(branch);
    let mut args: Vec<String> = Vec::new();
    args.push("reset".to_owned());
    args.push("--hard".to_owned());
    args.push(target);
    let command = CommandLine {
        program: git.to_owned(),
        args,
        directory: repo_directory.to_owned(),
    };
    assert(command@.args =~= seq!["reset"@, "--hard"@, "origin/"@ + branch@]);
    command
}

/// What every log line about `repo` and `event` opens with.
pub fn log_prefix(repo: &Repo, event: GithubEventTypes) -> (prefix: String)
    ensures
        prefix@ == log_prefix_of(repo@.identifier, event),
{
    let mut prefix = "[".to_owned();
    prefix.append(repo.repo.as_str());
    prefix.append("][");
    prefix.append(event.name());
    prefix.append("]");
    prefix
}

/// Turns the captured output `buf` of a process into log lines: one for each
/// line of `buf`, with `prefix` before it.
pub fn log_buffer(buf: &[u8], prefix: &str) -> (lines: Vec<Vec<u8>>)
    ensures
        contents(lines@) == prefixed(prefix.spec_bytes(), lines_of(buf@)),
{
    let raw = split_lines(buf);
    let mut lines: Vec<Vec<u8>> = Vec::new();
    let mut index: usize = 0;
    while index < raw.len()
        invariant
            index <= raw@.len(),
            lines@.len() == index,
            forall|k: int| 0 <= k < index ==> (#[trigger] lines@[k])@ == prefix.spec_bytes() + raw@[k]@,
        decreases raw@.len() - index,
    {
        let mut line: Vec<u8> = Vec::new();
        append_bytes(&mut line, prefix.as_bytes());
        append_bytes(&mut line, raw[index].as_slice());
        assert(line@ =~= prefix.spec_bytes() + raw@[index as int]@);
        lines.push(line);
        index += 1;
    }
    assert(contents(lines@) =~= prefixed(prefix.spec_bytes(), contents(raw@)));
    lines
}

impl GitError {
    /// A copy of the error.
    pub fn duplicate(&self) -> (copy: GitError)
        ensures
            copy@ == self@,
    {
        match self {
            GitError::Launch { step, reason } => GitError::Launch {
                step: *step,
                reason: reason.clone(),
            },
            GitError::Exit { step, code } => GitError::Exit { step: *step, code: *code },
        }
    }
}

impl SyncState {
    /// The state in which every synchronization begins.
    pub fn start() -> (state: SyncState)
        ensures
            state@ == SyncStateView::Fetching,
    {
        SyncState::Fetching
    }
}

/// What is to be done next for the synchronization of `repo` that stands in
/// `state`, with the git executable `git`.
pub fn sync_action(repo: &Repo, git: &str, state: &SyncState) -> (action: SyncAction)
    ensures
        action@ == sync_action_of(repo@, git@, state@),
{
    match state {
        SyncState::Fetching => SyncAction::Run(git_fetch_all(git, repo.repo_directory.as_str())),
        SyncState::Resetting => SyncAction::Run(
            git_reset(git, repo.branch.as_str(), repo.repo_directory.as_str()),
        ),
        SyncState::Synced => SyncAction::Finish(Ok(())),
        SyncState::Failed(error) => SyncAction::Finish(Err(error.duplicate())),
    }
}

/// Takes the synchronization of `repo` one step on: `result` reports how the
/// command that was due in `state` went. Returns the state that follows and
/// the log lines that the report adds. The fetch comes first and the reset
/// only after a fetch that succeeded; the first failure ends the
/// synchronization.
pub fn update_git_repo(repo: &Repo, event: GithubEventTypes, state: SyncState, result: StepResult)
    -> (step: SyncStep)
    ensures
        step.state@ == sync_next(state@, result@),
        contents(step.log@) == sync_log(
            encode_utf8(log_prefix_of(repo@.identifier, event)),
            state@,
            result@,
        ),
{
    let current = match state {
        SyncState::Fetching => GitStep::Fetch,
        SyncState::Resetting => GitStep::Reset,
        SyncState::Synced => {
            let log: Vec<Vec<u8>> = Vec::new();
            assert(contents(log@) =~= Seq::<Seq<u8>>::empty());
            return SyncStep { state: SyncState::Synced, log };
        },
        SyncState::Failed(error) => {
            let log: Vec<Vec<u8>> = Vec::new();
            assert(contents(log@) =~= Seq::<Seq<u8>>::empty());
            return SyncStep { state: SyncState::Failed(error), log };
        },
    };
    match result {
        StepResult::NotLaunched(reason) => {
            let log: Vec<Vec<u8>> = Vec::new();
            assert(contents(log@) =~= Seq::<Seq<u8>>::empty());
            SyncStep { state: SyncState::Failed(GitError::Launch { step: current, reason }), log }
        },
        StepResult::Finished(output) => {
            let prefix = log_prefix(repo, event);
            let mut log = log_buffer(output.stdout.as_slice(), prefix.as_str());
            let mut errors = log_buffer(output.stderr.as_slice(), prefix.as_str());
            let ghost first = contents(log@);
            let ghost second = contents(errors@);
            log.append(&mut errors);
            assert(contents(log@) =~= first + second);
            let succeeded = match output.code {
                Some(code) => code == 0,
                None => false,
            };
            let next = if !succeeded {
                SyncState::Failed(GitError::Exit { step: current, code: output.code })
            } else {
                match current {
                    GitStep::Fetch => SyncState::Resetting,
                    GitStep::Reset => SyncState::Synced,
                }
            };
            SyncStep { state: next, log }
        },
    }
}

/// A synchronization that failed stays failed, with the same error, whatever
/// is reported to it afterwards.
pub proof fn lemma_failure_is_final(error: GitErrorView, results: Seq<StepResultView>)
    ensures
        sync_run(SyncStateView::Failed(error), results) == SyncStateView::Failed(error),
    decreases results.len(),
{
    if results.len() > 0 {
        lemma_failure_is_final(error, results.drop_first());
    }
}

/// When the fetch fails, the reset is never run: after a failed fetch, and
/// whatever is reported afterwards, nothing is left to do but to end the
/// synchronization with the fetch's error.
pub proof fn lemma_failed_fetch_never_resets(
    repo: RepoView,
    git: Seq<char>,
    fetch: StepResultView,
    later: Seq<StepResultView>,
)
    requires
        step_failure(GitStep::Fetch, fetch) is Some,
    ensures
        sync_action_of(repo, git, sync_run(SyncStateView::Fetching, seq![fetch] + later))
            == SyncActionView::Finish(Err(step_failure(GitStep::Fetch, fetch)->0)),
{
    let results = seq![fetch] + later;
    assert(results[0] == fetch);
    assert(results.drop_first() =~= later);
    lemma_failure_is_final(step_failure(GitStep::Fetch, fetch)->0, later);
}

/// A synchronization runs `fetch --all` first, `reset --hard` to the entry's
/// branch at `origin` once the fetch has succeeded, both in the entry's
/// working copy, and ends in success once the reset has succeeded.
pub proof fn lemma_steps_run_in_order(
    repo: RepoView,
    git: Seq<char>,
    fetch: StepResultView,
    reset: StepResultView,
)
    requires
        step_failure(GitStep::Fetch, fetch) is None,
        step_failure(GitStep::Reset, reset) is None,
    ensures
        sync_action_of(repo, git, SyncStateView::Fetching) == SyncActionView::Run(
            CommandLineView {
                program: git,
                args: seq!["fetch"@, "--all"@],
                directory: repo.repo_directory,
            },
        ),
        sync_action_of(repo, git, sync_run(SyncStateView::Fetching, seq![fetch]))
            == SyncActionView::Run(
            CommandLineView {
                program: git,
                args: seq!["reset"@, "--hard"@, "origin/"@ + repo.branch],
                directory: repo.repo_directory,
            },
        ),
        sync_action_of(repo, git, sync_run(SyncStateView::Fetching, seq![fetch, reset]))
            == SyncActionView::Finish(Ok(())),
{
    reveal_with_fuel(sync_run, 3);
    assert(seq![fetch].drop_first() =~= Seq::<StepResultView>::empty());
    assert(seq![fetch, reset].drop_first() =~= seq![reset]);
    assert(seq![reset].drop_first() =~= Seq::<StepResultView>::empty());
}

/// A synchronization succeeds only by a fetch and then a reset that both ran
/// and ended with status zero: the first two reports say so.
pub proof fn lemma_success_takes_both_steps(results: Seq<StepResultView>)
    requires
        sync_run(SyncStateView::Fetching, results) is Synced,
    ensures
        results.len() >= 2,
        step_failure(GitStep::Fetch, results[0]) is None,
        step_failure(GitStep::Reset, results[1]) is None,
{
    if results.len() == 0 {
    } else {
        let after_fetch = sync_next(SyncStateView::Fetching, results[0]);
        let rest = results.drop_first();
        assert(sync_run(SyncStateView::Fetching, results) == sync_run(after_fetch, rest));
        if let SyncStateView::Failed(error) = after_fetch {
            lemma_failure_is_final(error, rest);
        } else if rest.len() == 0 {
        } else {
            assert(rest[0] == results[1]);
            let after_reset = sync_next(SyncStateView::Resetting, rest[0]);
            assert(sync_run(after_fetch, rest) == sync_run(after_reset, rest.drop_first()));
            if let SyncStateView::Failed(error) = after_reset {
                lemma_failure_is_final(error, rest.drop_first());
            }
        }
    }
}

} // verus!

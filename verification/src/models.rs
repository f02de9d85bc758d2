use vstd::prelude::*;
use crate::dto::GithubEventTypes;

verus! {

/// One managed repository: whom it answers to, what it does and where.
#[derive(Debug)]
pub struct Repo {
    /// Full name of the repository, as deliveries spell it (`owner/name`).
    pub repo: String,
    /// Program to run once the working copy is synchronized, if any.
    pub command: Option<String>,
    /// Arguments handed to `command`, in order.
    pub args: Vec<String>,
    /// Shared secret that signs deliveries for this repository, if any.
    pub secret: Option<String>,
    /// Event kinds the entry reacts to; when empty it reacts to every kind.
    pub events: Vec<GithubEventTypes>,
    /// Directory of the working copy that is synchronized.
    pub repo_directory: String,
    /// Directory in which `command` runs.
    pub working_directory: String,
    /// Remote branch that the working copy is reset to.
    pub branch: String,
}

/// The whole configuration: the repositories in matching order and the
/// process-wide settings.
#[derive(Debug)]
pub struct Config {
    /// Managed repositories; where several fit a delivery the first one wins.
    pub repos: Vec<Repo>,
    /// Port that the listener binds.
    pub port: u16,
    /// Path of the git executable.
    pub git_directory: String,
}

/// Mathematical content of a [`Repo`].
pub struct RepoView {
    pub identifier: Seq<char>,
    pub command: Option<Seq<char>>,
    pub args: Seq<Seq<char>>,
    pub secret: Option<Seq<char>>,
    pub events: Set<GithubEventTypes>,
    pub repo_directory: Seq<char>,
    pub working_directory: Seq<char>,
    pub branch: Seq<char>,
}

/// Mathematical content of a [`Config`].
pub struct ConfigView {
    pub repos: Seq<RepoView>,
    pub port: u16,
    pub git: Seq<char>,
}

/// Characters of an optional text.
pub open spec fn text_of(text: Option<String>) -> Option<Seq<char>> {
    match text {
        Some(t) => Some(t@),
        None => None,
    }
}

/// Characters of each text of a list.
pub open spec fn texts_of(texts: Seq<String>) -> Seq<Seq<char>> {
    Seq::new(texts.len(), |i: int| texts[i]@)
}

impl View for Repo {
    type V = RepoView;

    open spec fn view(&self) -> RepoView {
        RepoView {
            identifier: self.repo@,
            command: text_of(self.command),
            args: texts_of(self.args@),
            secret: text_of(self.secret),
            events: self.events@.to_set(),
            repo_directory: self.repo_directory@,
            working_directory: self.working_directory@,
            branch: self.branch@,
        }
    }
}

impl View for Config {
    type V = ConfigView;

    open spec fn view(&self) -> ConfigView {
        ConfigView {
            repos: Seq::new(self.repos@.len(), |i: int| self.repos@[i]@),
            port: self.port,
            git: self.git_directory@,
        }
    }
}

/// Branch that a repository entry follows when its configuration names none.
pub fn default_branch() -> (branch: String)
    ensures
        branch@ == "main"@,
{
    "main".to_owned()
}

/// Git executable that is used when the configuration names none.
pub fn default_git_directory() -> (path: String)
    ensures
        path@ == "/usr/bin/git"@,
{
    "/usr/bin/git".to_owned()
}

/// Directory in which a deployment command runs when the configuration names
/// none.
pub fn default_working_directory() -> (directory: String)
    ensures
        directory@ == "main"@,
{
    "main".to_owned()
}

} // verus!

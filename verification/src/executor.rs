use vstd::prelude::*;
use vstd::string::StringSliceAdditionalSpecFns;
use vstd::utf8::encode_utf8;
use crate::dto::GithubEventTypes;
use crate::git::{log_prefix, log_prefix_of, CommandLine, CommandLineView};
use crate::models::{texts_of, Repo, RepoView};
use crate::text::{append_bytes, append_decimal, decimal};

verus! {

/// Something that happened to a deployment command and is worth a log line.
#[derive(Debug)]
pub enum CommandEvent {
    /// The command wrote this line to its standard output or standard error.
    Output(Vec<u8>),
    /// The command ended; the status is `None` where a signal ended it.
    Exited(Option<i32>),
    /// The command could not be launched, for the reason given.
    NotLaunched(String),
}

/// Mathematical content of a [`CommandEvent`].
pub enum CommandEventView {
    Output(Seq<u8>),
    Exited(Option<i32>),
    NotLaunched(Seq<char>),
}

impl View for CommandEvent {
    type V = CommandEventView;

    open spec fn view(&self) -> CommandEventView {
        match *self {
            CommandEvent::Output(line) => CommandEventView::Output(line@),
            CommandEvent::Exited(code) => CommandEventView::Exited(code),
            CommandEvent::NotLaunched(reason) => CommandEventView::NotLaunched(reason@),
        }
    }
}

/// The deployment command of an entry, if it has one: its program with its
/// arguments, run in its working directory.
pub open spec fn deployment_of(repo: RepoView) -> Option<CommandLineView> {
    match repo.command {
        Some(program) => Some(
            CommandLineView { program, args: repo.args, directory: repo.working_directory },
        ),
        None => None,
    }
}

/// Log line for something that happened to a deployment command: `prefix`,
/// then the line the command wrote, or a sentence on how it ended or why it
/// did not start.
pub open spec fn command_log_of(prefix: Seq<u8>, event: CommandEventView) -> Seq<u8> {
    match event {
        CommandEventView::Output(line) => prefix + line,
        CommandEventView::Exited(Some(code)) => prefix + "Command finished with status ".spec_bytes()
            + decimal(code as int),
        CommandEventView::Exited(None) => prefix + "Command finished with error".spec_bytes(),
        CommandEventView::NotLaunched(reason) => prefix + "Command could not be started: ".spec_bytes()
            + encode_utf8(reason),
    }
}

/// A copy of a list of texts.
fn clone_texts(texts: &Vec<String>) -> (copy: Vec<String>)
    ensures
        texts_of(copy@) == texts_of(texts@),
{
    let mut copy: Vec<String> = Vec::new();
    let mut index: usize = 0;
    while index < texts.len()
        invariant
            index <= texts@.len(),
            copy@.len() == index,
            forall|k: int| 0 <= k < index ==> (#[trigger] copy@[k])@ == texts@[k]@,
        decreases texts@.len() - index,
    {
        copy.push(texts[index].clone());
        index += 1;
    }
    assert(texts_of(copy@) =~= texts_of(texts@));
    copy
}

/// The command to launch once the working copy of `repo` is synchronized;
/// `None` where the entry only synchronizes.
pub fn deployment_command(repo: &Repo) -> (command: Option<CommandLine>)
    ensures
        match command {
            Some(line) => deployment_of(repo@) == Some(line@),
            None => deployment_of(repo@) is None,
        },
{
    match &repo.command {
        Some(program) => Some(
            CommandLine {
                program: program.clone(),
                args: clone_texts(&repo.args),
                directory: repo.working_directory.clone(),
            },
        ),
        None => None,
    }
}

/// The log line for something that happened to the deployment command of
/// `repo`, launched for a delivery of kind `event`.
pub fn command_log(repo: &Repo, event: GithubEventTypes, occurrence: &CommandEvent) -> (line: Vec<u8>)
    ensures
        line@ == command_log_of(
            encode_utf8(log_prefix_of(repo@.identifier, event)),
            occurrence@,
        ),
{
    let prefix = log_prefix(repo, event);
    let mut line: Vec<u8> = Vec::new();
    append_bytes(&mut line, prefix.as_str().as_bytes());
    match occurrence {
        CommandEvent::Output(text) => {
            append_bytes(&mut line, text.as_slice());
        },
        CommandEvent::Exited(Some(code)) => {
            append_bytes(&mut line, "Command finished with status ".as_bytes());
            append_decimal(&mut line, *code);
        },
        CommandEvent::Exited(None) => {
            append_bytes(&mut line, "Command finished with error".as_bytes());
        },
        CommandEvent::NotLaunched(reason) => {
            append_bytes(&mut line, "Command could not be started: ".as_bytes());
            append_bytes(&mut line, reason.as_str().as_bytes());
        },
    }
    line
}

} // verus!

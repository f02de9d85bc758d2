use vstd::prelude::*;
use vstd::string::StringSliceAdditionalSpecFns;
use vstd::utf8::encode_utf8;
use crate::dto::{event_from_name, GithubEventTypes};
use crate::executor::{deployment_command, deployment_of};
use crate::git::{CommandLine, CommandLineView, GitError, GitErrorView};
use crate::matcher::{
    entry_matches, find_repo, first_match, knows_repo, lemma_first_match_is_least, names_repository,
    reacts_to,
};
use crate::models::{Config, ConfigView, Repo, RepoView};
use crate::payload::{payload_repository, repository_full_name};
use crate::signature::{check_signature, signature_valid};
use crate::text::{bytes_view, str_view};

verus! {

/// An answer to a delivery.
#[derive(Clone, Copy, Debug, PartialEq, Eq, Structural)]
pub enum HookReply {
    /// The delivery was a ping.
    Pong,
    /// The working copy was synchronized.
    Synchronized,
    /// The delivery names no event kind that can be read.
    MissingEvent,
    /// The body is no JSON document that names a repository.
    MalformedPayload,
    /// No entry carries the repository's identifier.
    UnknownRepository,
    /// The repository is configured, but not for this event kind.
    EventIgnored,
    /// The delivery is signed, but the entry holds no secret to check with.
    MissingSecret,
    /// The signature does not authenticate the body.
    WrongSecret,
    /// The synchronization failed.
    SyncFailed,
}

/// HTTP status of an answer: 200 for a ping and for a synchronized working
/// copy, 304 for a delivery that is set aside, 400 for one that fails
/// authentication, 500 for a synchronization that failed.
pub open spec fn reply_status(reply: HookReply) -> u16 {
    match reply {
        HookReply::Pong | HookReply::Synchronized => 200,
        HookReply::MissingEvent
        | HookReply::MalformedPayload
        | HookReply::UnknownRepository
        | HookReply::EventIgnored => 304,
        HookReply::MissingSecret | HookReply::WrongSecret => 400,
        HookReply::SyncFailed => 500,
    }
}

/// Text sent with an answer.
pub open spec fn reply_message(reply: HookReply) -> Seq<char> {
    match reply {
        HookReply::Pong | HookReply::Synchronized => ""@,
        HookReply::MissingEvent => "Nothing to do for this event"@,
        HookReply::MalformedPayload => "repo is not in config file"@,
        HookReply::UnknownRepository => "repo is not in config file"@,
        HookReply::EventIgnored => "Nothing to do for this event"@,
        HookReply::MissingSecret => "NO SECRET SPECIFIED"@,
        HookReply::WrongSecret => "WRONG SECRET"@,
        HookReply::SyncFailed => "Couldn't update git repo"@,
    }
}

impl HookReply {
    /// HTTP status of the answer.
    pub fn status(&self) -> (status: u16)
        ensures
            status == reply_status(*self),
    {
        match self {
            HookReply::Pong | HookReply::Synchronized => 200,
            HookReply::MissingEvent
            | HookReply::MalformedPayload
            | HookReply::UnknownRepository
            | HookReply::EventIgnored => 304,
            HookReply::MissingSecret | HookReply::WrongSecret => 400,
            HookReply::SyncFailed => 500,
        }
    }

    /// Text sent with the answer.
    pub fn message(&self) -> (message: &'static str)
        ensures
            message@ == reply_message(*self),
    {
        match self {
            HookReply::Pong | HookReply::Synchronized => "",
            HookReply::MissingEvent => "Nothing to do for this event",
            HookReply::MalformedPayload => "repo is not in config file",
            HookReply::UnknownRepository => "repo is not in config file",
            HookReply::EventIgnored => "Nothing to do for this event",
            HookReply::MissingSecret => "NO SECRET SPECIFIED",
            HookReply::WrongSecret => "WRONG SECRET",
            HookReply::SyncFailed => "Couldn't update git repo",
        }
    }
}

/// What is decided on a delivery before anything is run.
#[derive(Clone, Copy, Debug, PartialEq, Eq, Structural)]
pub enum HookDecision {
    /// Answer at once; nothing is run.
    Reply(HookReply),
    /// Synchronize the working copy of the entry at position `repo` of the
    /// configuration, for a delivery of kind `event`.
    Synchronize { repo: usize, event: GithubEventTypes },
}

/// Mathematical content of a [`HookDecision`].
pub enum HookDecisionView {
    Reply(HookReply),
    Synchronize { repo: int, event: GithubEventTypes },
}

impl View for HookDecision {
    type V = HookDecisionView;

    open spec fn view(&self) -> HookDecisionView {
        match *self {
            HookDecision::Reply(reply) => HookDecisionView::Reply(reply),
            HookDecision::Synchronize { repo, event } => HookDecisionView::Synchronize {
                repo: repo as int,
                event,
            },
        }
    }
}

/// How a delivery ends once the synchronization is over: the answer, and the
/// deployment command to launch without waiting for it, if any.
#[derive(Debug)]
pub struct HookCompletion {
    pub reply: HookReply,
    pub command: Option<CommandLine>,
}

/// The answer that turns a delivery away for want of authentication, if it
/// is to be turned away. A delivery without a signature is let through; a
/// signed one needs an entry with a secret under which the signature
/// authenticates the body.
pub open spec fn rejection(repo: RepoView, signature: Option<Seq<u8>>, body: Seq<u8>) -> Option<
    HookReply,
> {
    match signature {
        None => None,
        Some(header) => match repo.secret {
            None => Some(HookReply::MissingSecret),
            Some(secret) => if signature_valid(encode_utf8(secret), header, body) {
                None
            } else {
                Some(HookReply::WrongSecret)
            },
        },
    }
}

/// What is decided on a delivery of kind `event` whose body names the
/// repository `name`, or none. In order: a body that names no repository is
/// set aside; so is a delivery that no entry matches; a signed delivery is
/// authenticated against the selected entry; the entry's event filter is
/// looked at once more; then the entry is synchronized.
pub open spec fn dispatch_decision(
    config: ConfigView,
    event: GithubEventTypes,
    name: Option<Seq<char>>,
    signature: Option<Seq<u8>>,
    body: Seq<u8>,
) -> HookDecisionView {
    match name {
        None => HookDecisionView::Reply(HookReply::MalformedPayload),
        Some(name) => match first_match(config.repos, name, event) {
            None => if names_repository(config.repos, name) {
                HookDecisionView::Reply(HookReply::EventIgnored)
            } else {
                HookDecisionView::Reply(HookReply::UnknownRepository)
            },
            Some(position) => match rejection(config.repos[position], signature, body) {
                Some(reply) => HookDecisionView::Reply(reply),
                None => if reacts_to(config.repos[position], event) {
                    HookDecisionView::Synchronize { repo: position, event }
                } else {
                    HookDecisionView::Reply(HookReply::EventIgnored)
                },
            },
        },
    }
}

/// What is decided on a delivery with the event header `event`, the
/// signature header `signature` and the body `body`. A delivery without a
/// readable event header is set aside, and a ping is answered before
/// anything else is looked at.
pub open spec fn hook_decision(
    config: ConfigView,
    event: Option<Seq<char>>,
    signature: Option<Seq<u8>>,
    body: Seq<u8>,
) -> HookDecisionView {
    match event {
        None => HookDecisionView::Reply(HookReply::MissingEvent),
        Some(header) => if event_from_name(header) == GithubEventTypes::Ping {
            HookDecisionView::Reply(HookReply::Pong)
        } else {
            dispatch_decision(
                config,
                event_from_name(header),
                payload_repository(body),
                signature,
                body,
            )
        },
    }
}

/// How a delivery for `repo` ends after a synchronization with the given
/// outcome: a failure is answered with an error and nothing is launched; a
/// success is answered with success, and the entry's deployment command, if
/// it has one, is to be launched.
pub open spec fn completion_of(repo: RepoView, outcome: Result<(), GitErrorView>) -> (
    HookReply,
    Option<CommandLineView>,
) {
    match outcome {
        Ok(_) => (HookReply::Synchronized, deployment_of(repo)),
        Err(_) => (HookReply::SyncFailed, None),
    }
}

/// Mathematical content of the outcome of a synchronization.
pub open spec fn outcome_view(outcome: Result<(), GitError>) -> Result<(), GitErrorView> {
    match outcome {
        Ok(_) => Ok(()),
        Err(error) => Err(error@),
    }
}

/// Mathematical content of a deployment command that may be absent.
pub open spec fn command_view(command: Option<CommandLine>) -> Option<CommandLineView> {
    match command {
        Some(line) => Some(line@),
        None => None,
    }
}

/// Text that answers a request for the root of the site.
pub fn root() -> (text: &'static str)
    ensures
        text@ == "Webhook is running on /hook"@,
{
    "Webhook is running on /hook"
}

/// Whether a delivery is to be turned away for want of authentication, and
/// with what answer.
pub fn authenticate(repo: &Repo, signature: Option<&[u8]>, body: &[u8]) -> (rejected: Option<
    HookReply,
>)
    ensures
        rejected == rejection(repo@, bytes_view(signature), body@),
{
    match signature {
        None => None,
        Some(header) => match &repo.secret {
            None => Some(HookReply::MissingSecret),
            Some(secret) => if check_signature(secret.as_str(), header, body) {
                None
            } else {
                Some(HookReply::WrongSecret)
            },
        },
    }
}

/// Decides on a delivery of kind `event` whose body names the repository
/// `name`, or none: which answer it gets at once, or which entry is to be
/// synchronized.
pub fn dispatch(
    config: &Config,
    event: GithubEventTypes,
    name: Option<&str>,
    signature: Option<&[u8]>,
    body: &[u8],
) -> (decision: HookDecision)
    ensures
        decision@ == dispatch_decision(config@, event, str_view(name), bytes_view(signature), body@),
{
    let name = match name {
        Some(name) => name,
        None => {
            return HookDecision::Reply(HookReply::MalformedPayload);
        },
    };
    let position = match find_repo(config, name, event) {
        Some(position) => position,
        None => {
            if knows_repo(config, name) {
                return HookDecision::Reply(HookReply::EventIgnored);
            }
            return HookDecision::Reply(HookReply::UnknownRepository);
        },
    };
    let repo = &config.repos[position];
    if let Some(reply) = authenticate(repo, signature, body) {
        return HookDecision::Reply(reply);
    }
    if !repo.reacts_to(event) {
        return HookDecision::Reply(HookReply::EventIgnored);
    }
    HookDecision::Synchronize { repo: position, event }
}

/// Decides on a delivery: `event` is the text of its event header and
/// `signature` the bytes of its signature header, each `None` where the
/// header is absent, and `body` is its raw body. Returns the answer that the
/// delivery gets at once, or the entry whose working copy is to be
/// synchronized before it is answered.
pub fn hook(config: &Config, event: Option<&str>, signature: Option<&[u8]>, body: &[u8]) -> (decision:
    HookDecision)
    ensures
        decision@ == hook_decision(config@, str_view(event), bytes_view(signature), body@),
{
    let kind = match event {
        Some(header) => GithubEventTypes::parse(header),
        None => {
            return HookDecision::Reply(HookReply::MissingEvent);
        },
    };
    if kind == GithubEventTypes::Ping {
        return HookDecision::Reply(HookReply::Pong);
    }
    match repository_full_name(body) {
        Some(name) => dispatch(config, kind, Some(name.as_str()), signature, body),
        None => dispatch(config, kind, None, signature, body),
    }
}

/// Ends a delivery for `repo` once its synchronization is over with the
/// given outcome.
pub fn complete(repo: &Repo, outcome: &Result<(), GitError>) -> (completion: HookCompletion)
    ensures
        (completion.reply, command_view(completion.command)) == completion_of(
            repo@,
            outcome_view(*outcome),
        ),
{
    match outcome {
        Ok(_) => HookCompletion { reply: HookReply::Synchronized, command: deployment_command(repo) },
        Err(_) => HookCompletion { reply: HookReply::SyncFailed, command: None },
    }
}

/// A ping is always answered with success: whatever the configuration, the
/// signature and the body are, a delivery whose event header reads as a ping
/// gets the answer of status 200 and nothing is run.
pub proof fn lemma_ping_is_always_answered(
    config: ConfigView,
    header: Seq<char>,
    signature: Option<Seq<u8>>,
    body: Seq<u8>,
)
    requires
        event_from_name(header) == GithubEventTypes::Ping,
    ensures
        hook_decision(config, Some(header), signature, body) == HookDecisionView::Reply(
            HookReply::Pong,
        ),
        reply_status(HookReply::Pong) == 200,
{
}

/// A delivery other than a ping whose body names no repository is set
/// aside with status 304, whatever else it holds; nothing is run.
pub proof fn lemma_malformed_payload_is_set_aside(
    config: ConfigView,
    header: Seq<char>,
    signature: Option<Seq<u8>>,
    body: Seq<u8>,
)
    requires
        event_from_name(header) != GithubEventTypes::Ping,
        payload_repository(body) is None,
    ensures
        hook_decision(config, Some(header), signature, body) == HookDecisionView::Reply(
            HookReply::MalformedPayload,
        ),
        reply_status(HookReply::MalformedPayload) == 304,
{
}

/// A delivery that no entry matches is set aside with status 304, signed or
/// not; nothing is run.
pub proof fn lemma_unmatched_delivery_is_set_aside(
    config: ConfigView,
    event: GithubEventTypes,
    name: Seq<char>,
    signature: Option<Seq<u8>>,
    body: Seq<u8>,
)
    requires
        forall|i: int| 0 <= i < config.repos.len() ==> !entry_matches(#[trigger] config.repos[i], name, event),
    ensures
        dispatch_decision(config, event, Some(name), signature, body) is Reply,
        reply_status(dispatch_decision(config, event, Some(name), signature, body)->Reply_0) == 304,
{
    lemma_first_match_is_least(config.repos, name, event, 0);
}

/// A delivery that an entry matches is decided by authentication alone: it
/// is turned away with status 400 where the authentication rejects it, and
/// otherwise the first matching entry is synchronized. The second look at
/// the entry's event filter never sets such a delivery aside.
pub proof fn lemma_matched_delivery_is_authenticated(
    config: ConfigView,
    event: GithubEventTypes,
    name: Seq<char>,
    signature: Option<Seq<u8>>,
    body: Seq<u8>,
)
    requires
        first_match(config.repos, name, event) is Some,
    ensures
        ({
            let position = first_match(config.repos, name, event)->0;
            let decision = dispatch_decision(config, event, Some(name), signature, body);
            match rejection(config.repos[position], signature, body) {
                Some(reply) => decision == HookDecisionView::Reply(reply) && reply_status(reply)
                    == 400,
                None => decision == HookDecisionView::Synchronize { repo: position, event },
            }
        }),
{
    let position = first_match(config.repos, name, event)->0;
    lemma_first_match_is_least(config.repos, name, event, position);
}

/// No decision answers with a server error: an answer given before anything
/// is run has status 200, 304 or 400.
pub proof fn lemma_decision_is_no_server_error(
    config: ConfigView,
    event: Option<Seq<char>>,
    signature: Option<Seq<u8>>,
    body: Seq<u8>,
)
    ensures
        hook_decision(config, event, signature, body) matches HookDecisionView::Reply(reply)
            ==> reply_status(reply) == 200 || reply_status(reply) == 304 || reply_status(reply)
            == 400,
{
}

} // verus!

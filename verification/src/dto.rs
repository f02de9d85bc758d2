use vstd::prelude::*;
use crate::text::str_equal;

verus! {

/// Kind of a webhook event, as announced in the event header of a delivery.
#[derive(Clone, Copy, Debug, PartialEq, Eq, Structural)]
pub enum GithubEventTypes {
    Ping,
    Push,
    PullRequest,
    Label,
    Release,
    Create,
    Delete,
    Fork,
    Issues,
    IssueComment,
    Deployment,
    DeploymentStatus,
    Status,
    WorkflowRun,
    CheckRun,
    Star,
    /// Any event kind that this enumeration does not list.
    Unknown,
}

/// Text that announces an event kind in the event header; `Unknown` stands
/// for every other text and is itself written `unknown`.
pub open spec fn event_name(event: GithubEventTypes) -> Seq<char> {
    match event {
        GithubEventTypes::Ping => "ping"@,
        GithubEventTypes::Push => "push"@,
        GithubEventTypes::PullRequest => "pull_request"@,
        GithubEventTypes::Label => "label"@,
        GithubEventTypes::Release => "release"@,
        GithubEventTypes::Create => "create"@,
        GithubEventTypes::Delete => "delete"@,
        GithubEventTypes::Fork => "fork"@,
        GithubEventTypes::Issues => "issues"@,
        GithubEventTypes::IssueComment => "issue_comment"@,
        GithubEventTypes::Deployment => "deployment"@,
        GithubEventTypes::DeploymentStatus => "deployment_status"@,
        GithubEventTypes::Status => "status"@,
        GithubEventTypes::WorkflowRun => "workflow_run"@,
        GithubEventTypes::CheckRun => "check_run"@,
        GithubEventTypes::Star => "star"@,
        GithubEventTypes::Unknown => "unknown"@,
    }
}

/// Event kind that a header text announces: the kind with that name, and
/// `Unknown` for every other text.
pub open spec fn event_from_name(name: Seq<char>) -> GithubEventTypes {
    if name == "ping"@ {
        GithubEventTypes::Ping
    } else if name == "push"@ {
        GithubEventTypes::Push
    } else if name == "pull_request"@ {
        GithubEventTypes::PullRequest
    } else if name == "label"@ {
        GithubEventTypes::Label
    } else if name == "release"@ {
        GithubEventTypes::Release
    } else if name == "create"@ {
        GithubEventTypes::Create
    } else if name == "delete"@ {
        GithubEventTypes::Delete
    } else if name == "fork"@ {
        GithubEventTypes::Fork
    } else if name == "issues"@ {
        GithubEventTypes::Issues
    } else if name == "issue_comment"@ {
        GithubEventTypes::IssueComment
    } else if name == "deployment"@ {
        GithubEventTypes::Deployment
    } else if name == "deployment_status"@ {
        GithubEventTypes::DeploymentStatus
    } else if name == "status"@ {
        GithubEventTypes::Status
    } else if name == "workflow_run"@ {
        GithubEventTypes::WorkflowRun
    } else if name == "check_run"@ {
        GithubEventTypes::CheckRun
    } else if name == "star"@ {
        GithubEventTypes::Star
    } else {
        GithubEventTypes::Unknown
    }
}

impl GithubEventTypes {
    /// Reads an event kind from the text of the event header.
    pub fn parse(name: &str) -> (event: GithubEventTypes)
        ensures
            event == event_from_name(name@),
    {
        if str_equal(name, "ping") {
            GithubEventTypes::Ping
        } else if str_equal(name, "push") {
            GithubEventTypes::Push
        } else if str_equal(name, "pull_request") {
            GithubEventTypes::PullRequest
        } else if str_equal(name, "label") {
            GithubEventTypes::Label
        } else if str_equal(name, "release") {
            GithubEventTypes::Release
        } else if str_equal(name, "create") {
            GithubEventTypes::Create
        } else if str_equal(name, "delete") {
            GithubEventTypes::Delete
        } else if str_equal(name, "fork") {
            GithubEventTypes::Fork
        } else if str_equal(name, "issues") {
            GithubEventTypes::Issues
        } else if str_equal(name, "issue_comment") {
            GithubEventTypes::IssueComment
        } else if str_equal(name, "deployment") {
            GithubEventTypes::Deployment
        } else if str_equal(name, "deployment_status") {
            GithubEventTypes::DeploymentStatus
        } else if str_equal(name, "status") {
            GithubEventTypes::Status
        } else if str_equal(name, "workflow_run") {
            GithubEventTypes::WorkflowRun
        } else if str_equal(name, "check_run") {
            GithubEventTypes::CheckRun
        } else if str_equal(name, "star") {
            GithubEventTypes::Star
        } else {
            GithubEventTypes::Unknown
        }
    }

    /// Text under which the event kind appears in headers and in log lines.
    pub fn name(&self) -> (name: &'static str)
        ensures
            name@ == event_name(*self),
    {
        match self {
            GithubEventTypes::Ping => "ping",
            GithubEventTypes::Push => "push",
            GithubEventTypes::PullRequest => "pull_request",
            GithubEventTypes::Label => "label",
            GithubEventTypes::Release => "release",
            GithubEventTypes::Create => "create",
            GithubEventTypes::Delete => "delete",
            GithubEventTypes::Fork => "fork",
            GithubEventTypes::Issues => "issues",
            GithubEventTypes::IssueComment => "issue_comment",
            GithubEventTypes::Deployment => "deployment",
            GithubEventTypes::DeploymentStatus => "deployment_status",
            GithubEventTypes::Status => "status",
            GithubEventTypes::WorkflowRun => "workflow_run",
            GithubEventTypes::CheckRun => "check_run",
            GithubEventTypes::Star => "star",
            GithubEventTypes::Unknown => "unknown",
        }
    }
}

/// Every event kind is read back from its own name.
pub proof fn lemma_name_round_trip(event: GithubEventTypes)
    ensures
        event_from_name(event_name(event)) == event,
{
    reveal_strlit("unknown");
    assert("unknown"@.len() == 7 && "unknown"@[0] == 'u' && "unknown"@[1] == 'n');
    reveal_strlit("ping");
    reveal_strlit("push");
    reveal_strlit("pull_request");
    reveal_strlit("label");
    reveal_strlit("release");
    reveal_strlit("create");
    reveal_strlit("delete");
    reveal_strlit("fork");
    reveal_strlit("issues");
    reveal_strlit("issue_comment");
    reveal_strlit("deployment");
    reveal_strlit("deployment_status");
    reveal_strlit("status");
    reveal_strlit("workflow_run");
    reveal_strlit("check_run");
    reveal_strlit("star");
    // Names of one length differ in their first two characters.
    assert("ping"@.len() == 4 && "ping"@[0] == 'p' && "ping"@[1] == 'i');
    assert("push"@.len() == 4 && "push"@[0] == 'p' && "push"@[1] == 'u');
    assert("pull_request"@.len() == 12 && "pull_request"@[0] == 'p' && "pull_request"@[1] == 'u');
    assert("label"@.len() == 5 && "label"@[0] == 'l' && "label"@[1] == 'a');
    assert("release"@.len() == 7 && "release"@[0] == 'r' && "release"@[1] == 'e');
    assert("create"@.len() == 6 && "create"@[0] == 'c' && "create"@[1] == 'r');
    assert("delete"@.len() == 6 && "delete"@[0] == 'd' && "delete"@[1] == 'e');
    assert("fork"@.len() == 4 && "fork"@[0] == 'f' && "fork"@[1] == 'o');
    assert("issues"@.len() == 6 && "issues"@[0] == 'i' && "issues"@[1] == 's');
    assert("issue_comment"@.len() == 13 && "issue_comment"@[0] == 'i' && "issue_comment"@[1] == 's');
    assert("deployment"@.len() == 10 && "deployment"@[0] == 'd' && "deployment"@[1] == 'e');
    assert("deployment_status"@.len() == 17 && "deployment_status"@[0] == 'd' && "deployment_status"@[1] == 'e');
    assert("status"@.len() == 6 && "status"@[0] == 's' && "status"@[1] == 't');
    assert("workflow_run"@.len() == 12 && "workflow_run"@[0] == 'w' && "workflow_run"@[1] == 'o');
    assert("check_run"@.len() == 9 && "check_run"@[0] == 'c' && "check_run"@[1] == 'h');
    assert("star"@.len() == 4 && "star"@[0] == 's' && "star"@[1] == 't');
}

} // verus!

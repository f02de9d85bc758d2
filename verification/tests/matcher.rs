use webhook_cd::dto::GithubEventTypes;
use webhook_cd::matcher::{find_repo, knows_repo};
use webhook_cd::models::{Config, Repo};

fn repo(name: &str, events: Vec<GithubEventTypes>) -> Repo {
    Repo {
        repo: name.to_string(),
        command: None,
        args: Vec::new(),
        secret: None,
        events,
        repo_directory: "/srv/app".to_string(),
        working_directory: "/srv/app".to_string(),
        branch: "main".to_string(),
    }
}

fn config(repos: Vec<Repo>) -> Config {
    Config { repos, port: 3000, git_directory: "/usr/bin/git".to_string() }
}

const ALL: [GithubEventTypes; 17] = [
    GithubEventTypes::Ping,
    GithubEventTypes::Push,
    GithubEventTypes::PullRequest,
    GithubEventTypes::Label,
    GithubEventTypes::Release,
    GithubEventTypes::Create,
    GithubEventTypes::Delete,
    GithubEventTypes::Fork,
    GithubEventTypes::Issues,
    GithubEventTypes::IssueComment,
    GithubEventTypes::Deployment,
    GithubEventTypes::DeploymentStatus,
    GithubEventTypes::Status,
    GithubEventTypes::WorkflowRun,
    GithubEventTypes::CheckRun,
    GithubEventTypes::Star,
    GithubEventTypes::Unknown,
];

#[test]
fn entry_without_events_matches_every_event() {
    let config = config(vec![repo("acme/app", vec![])]);
    for event in ALL {
        assert_eq!(find_repo(&config, "acme/app", event), Some(0));
        assert_eq!(find_repo(&config, "acme/other", event), None);
    }
}

#[test]
fn entry_with_events_matches_only_those() {
    let config = config(vec![repo("acme/app", vec![GithubEventTypes::Push])]);
    assert_eq!(find_repo(&config, "acme/app", GithubEventTypes::PullRequest), None);
    for event in ALL {
        let expected = if event == GithubEventTypes::Push { Some(0) } else { None };
        assert_eq!(find_repo(&config, "acme/app", event), expected);
    }
}

#[test]
fn entry_with_several_events() {
    let listed = vec![GithubEventTypes::Release, GithubEventTypes::Push, GithubEventTypes::Unknown];
    let config = config(vec![repo("acme/app", listed)]);
    assert_eq!(find_repo(&config, "acme/app", GithubEventTypes::Release), Some(0));
    assert_eq!(find_repo(&config, "acme/app", GithubEventTypes::Push), Some(0));
    assert_eq!(find_repo(&config, "acme/app", GithubEventTypes::Unknown), Some(0));
    assert_eq!(find_repo(&config, "acme/app", GithubEventTypes::Fork), None);
}

#[test]
fn first_entry_wins_on_collision() {
    let config = config(vec![
        repo("acme/other", vec![]),
        repo("acme/app", vec![GithubEventTypes::Push]),
        repo("acme/app", vec![]),
        repo("acme/app", vec![GithubEventTypes::Push, GithubEventTypes::Release]),
    ]);
    assert_eq!(find_repo(&config, "acme/app", GithubEventTypes::Push), Some(1));
    assert_eq!(find_repo(&config, "acme/app", GithubEventTypes::Release), Some(2));
    assert_eq!(find_repo(&config, "acme/app", GithubEventTypes::Fork), Some(2));
    assert_eq!(find_repo(&config, "acme/other", GithubEventTypes::Fork), Some(0));
}

#[test]
fn later_entry_is_reached_for_events_the_first_leaves() {
    let config = config(vec![
        repo("acme/app", vec![GithubEventTypes::Push]),
        repo("acme/app", vec![GithubEventTypes::Release]),
    ]);
    assert_eq!(find_repo(&config, "acme/app", GithubEventTypes::Push), Some(0));
    assert_eq!(find_repo(&config, "acme/app", GithubEventTypes::Release), Some(1));
    assert_eq!(find_repo(&config, "acme/app", GithubEventTypes::Star), None);
}

#[test]
fn identifier_is_compared_exactly() {
    let config = config(vec![repo("acme/app", vec![])]);
    assert_eq!(find_repo(&config, "acme/app ", GithubEventTypes::Push), None);
    assert_eq!(find_repo(&config, "Acme/app", GithubEventTypes::Push), None);
    assert_eq!(find_repo(&config, "acme/ap", GithubEventTypes::Push), None);
    assert_eq!(find_repo(&config, "", GithubEventTypes::Push), None);
}

#[test]
fn empty_configuration_matches_nothing() {
    let config = config(vec![]);
    assert_eq!(find_repo(&config, "acme/app", GithubEventTypes::Push), None);
    assert!(!knows_repo(&config, "acme/app"));
}

#[test]
fn knows_repo_ignores_events() {
    let config = config(vec![
        repo("acme/other", vec![]),
        repo("acme/app", vec![GithubEventTypes::Push]),
    ]);
    assert!(knows_repo(&config, "acme/app"));
    assert!(knows_repo(&config, "acme/other"));
    assert!(!knows_repo(&config, "acme/none"));
    assert_eq!(find_repo(&config, "acme/app", GithubEventTypes::Fork), None);
}

#[test]
fn repo_reacts_and_matches() {
    let any = repo("acme/app", vec![]);
    let push = repo("acme/app", vec![GithubEventTypes::Push]);
    assert!(any.reacts_to(GithubEventTypes::Star));
    assert!(push.reacts_to(GithubEventTypes::Push));
    assert!(!push.reacts_to(GithubEventTypes::Star));
    assert!(push.matches("acme/app", GithubEventTypes::Push));
    assert!(!push.matches("acme/app", GithubEventTypes::Star));
    assert!(!push.matches("acme/other", GithubEventTypes::Push));
}

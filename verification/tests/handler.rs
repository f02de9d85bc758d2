use hmac::Mac;
use webhook_cd::dto::GithubEventTypes;
use webhook_cd::executor::{command_log, CommandEvent};
use webhook_cd::git::{
    sync_action, update_git_repo, GitError, GitStep, ProcessOutput, StepResult, SyncAction,
    SyncState,
};
use webhook_cd::handler::{authenticate, complete, dispatch, hook, root, HookDecision, HookReply};
use webhook_cd::models::{Config, Repo};
use webhook_cd::payload::repository_full_name;

const BODY: &[u8] = b"{\"repository\":{\"full_name\":\"acme/app\"}}";

fn sign(secret: &str, body: &[u8]) -> Vec<u8> {
    let mut mac = hmac::Hmac::<sha2::Sha256>::new_from_slice(secret.as_bytes()).unwrap();
    mac.update(body);
    let mut header = b"sha256=".to_vec();
    header.extend_from_slice(hex::encode(mac.finalize().into_bytes()).as_bytes());
    header
}

fn repo(name: &str, secret: Option<&str>, events: Vec<GithubEventTypes>) -> Repo {
    Repo {
        repo: name.to_string(),
        command: Some("true".to_string()),
        args: Vec::new(),
        secret: secret.map(|s| s.to_string()),
        events,
        repo_directory: "/srv/app".to_string(),
        working_directory: "/srv/run".to_string(),
        branch: "main".to_string(),
    }
}

fn config(repos: Vec<Repo>) -> Config {
    Config { repos, port: 3000, git_directory: "/usr/bin/git".to_string() }
}

fn acme() -> Config {
    config(vec![repo("acme/app", Some("s3cr3t"), vec![GithubEventTypes::Push])])
}

fn ran(code: Option<i32>, stdout: &[u8], stderr: &[u8]) -> StepResult {
    StepResult::Finished(ProcessOutput { code, stdout: stdout.to_vec(), stderr: stderr.to_vec() })
}

#[test]
fn root_text() {
    assert_eq!(root(), "Webhook is running on /hook");
}

#[test]
fn statuses_and_messages() {
    assert_eq!(HookReply::Pong.status(), 200);
    assert_eq!(HookReply::Synchronized.status(), 200);
    assert_eq!(HookReply::MissingEvent.status(), 304);
    assert_eq!(HookReply::MalformedPayload.status(), 304);
    assert_eq!(HookReply::UnknownRepository.status(), 304);
    assert_eq!(HookReply::EventIgnored.status(), 304);
    assert_eq!(HookReply::MissingSecret.status(), 400);
    assert_eq!(HookReply::WrongSecret.status(), 400);
    assert_eq!(HookReply::SyncFailed.status(), 500);
    assert_eq!(HookReply::Pong.message(), "");
    assert_eq!(HookReply::Synchronized.message(), "");
    assert_eq!(HookReply::MalformedPayload.message(), "repo is not in config file");
    assert_eq!(HookReply::UnknownRepository.message(), "repo is not in config file");
    assert_eq!(HookReply::EventIgnored.message(), "Nothing to do for this event");
    assert_eq!(HookReply::MissingEvent.message(), "Nothing to do for this event");
    assert_eq!(HookReply::MissingSecret.message(), "NO SECRET SPECIFIED");
    assert_eq!(HookReply::WrongSecret.message(), "WRONG SECRET");
    assert_eq!(HookReply::SyncFailed.message(), "Couldn't update git repo");
}

#[test]
fn ping_short_circuits() {
    let pong = HookDecision::Reply(HookReply::Pong);
    assert_eq!(hook(&acme(), Some("ping"), None, BODY), pong);
    assert_eq!(hook(&acme(), Some("ping"), Some(b"sha256=00"), BODY), pong);
    assert_eq!(hook(&acme(), Some("ping"), Some(b"garbage"), b"not json"), pong);
    assert_eq!(hook(&config(vec![]), Some("ping"), None, b""), pong);
    let unconfigured = b"{\"repository\":{\"full_name\":\"nobody/nothing\"}}";
    assert_eq!(hook(&acme(), Some("ping"), Some(b"sha256=zz"), unconfigured), pong);
}

#[test]
fn missing_event_header_is_set_aside() {
    let signature = sign("s3cr3t", BODY);
    assert_eq!(
        hook(&acme(), None, Some(&signature), BODY),
        HookDecision::Reply(HookReply::MissingEvent)
    );
}

#[test]
fn malformed_json_is_set_aside() {
    let expected = HookDecision::Reply(HookReply::MalformedPayload);
    let bodies: [&[u8]; 9] = [
        b"",
        b"not json",
        b"{\"repository\":{\"full_name\":\"acme/app\"}",
        b"{\"repository\":{\"full_name\":\"acme/app\"}} trailing",
        b"{}",
        b"{\"repository\":{}}",
        b"{\"repository\":{\"full_name\":42}}",
        b"{\"repository\":[\"acme/app\"]}",
        &[0x7b, 0xff, 0x7d],
    ];
    for body in bodies {
        let decision = hook(&acme(), Some("push"), None, body);
        assert_eq!(decision, expected);
        let signature = sign("s3cr3t", body);
        assert_eq!(hook(&acme(), Some("push"), Some(&signature), body), expected);
    }
    assert_eq!(HookReply::MalformedPayload.status(), 304);
}

#[test]
fn json_is_parsed_not_searched() {
    let body = b"{\"note\":\"{\\\"repository\\\":{\\\"full_name\\\":\\\"acme/app\\\"}}\"}";
    assert_eq!(
        hook(&acme(), Some("push"), None, body),
        HookDecision::Reply(HookReply::MalformedPayload)
    );
    let spaced = b" { \"x\" : 1 , \"repository\" : { \"id\" : 7 , \"full_name\" : \"acme\\/app\" } } ";
    assert_eq!(
        hook(&acme(), Some("push"), None, spaced),
        HookDecision::Synchronize { repo: 0, event: GithubEventTypes::Push }
    );
}

#[test]
fn unknown_repository_is_set_aside() {
    let body = b"{\"repository\":{\"full_name\":\"acme/other\"}}";
    assert_eq!(
        hook(&acme(), Some("push"), None, body),
        HookDecision::Reply(HookReply::UnknownRepository)
    );
    assert_eq!(HookReply::UnknownRepository.status(), 304);
}

#[test]
fn filtered_event_is_set_aside() {
    let signature = sign("s3cr3t", BODY);
    let expected = HookDecision::Reply(HookReply::EventIgnored);
    assert_eq!(hook(&acme(), Some("pull_request"), Some(&signature), BODY), expected);
    assert_eq!(hook(&acme(), Some("pull_request"), None, BODY), expected);
    assert_eq!(hook(&acme(), Some("something_new"), None, BODY), expected);
    assert_eq!(HookReply::EventIgnored.status(), 304);
}

#[test]
fn unknown_event_reaches_a_wildcard_entry() {
    let config = config(vec![repo("acme/app", None, vec![])]);
    assert_eq!(
        hook(&config, Some("something_new"), None, BODY),
        HookDecision::Synchronize { repo: 0, event: GithubEventTypes::Unknown }
    );
}

#[test]
fn unsigned_delivery_is_accepted() {
    assert_eq!(
        hook(&acme(), Some("push"), None, BODY),
        HookDecision::Synchronize { repo: 0, event: GithubEventTypes::Push }
    );
}

#[test]
fn signed_delivery_needs_a_secret() {
    let config = config(vec![repo("acme/app", None, vec![])]);
    let signature = sign("s3cr3t", BODY);
    assert_eq!(
        hook(&config, Some("push"), Some(&signature), BODY),
        HookDecision::Reply(HookReply::MissingSecret)
    );
    assert_eq!(HookReply::MissingSecret.status(), 400);
}

#[test]
fn wrong_signature_is_turned_away() {
    let expected = HookDecision::Reply(HookReply::WrongSecret);
    let other = sign("another", BODY);
    assert_eq!(hook(&acme(), Some("push"), Some(&other), BODY), expected);
    assert_eq!(hook(&acme(), Some("push"), Some(b"sha256=zz"), BODY), expected);
    assert_eq!(hook(&acme(), Some("push"), Some(b""), BODY), expected);
    let bare = sign("s3cr3t", BODY)[7..].to_vec();
    assert_eq!(hook(&acme(), Some("push"), Some(&bare), BODY), expected);
    assert_eq!(HookReply::WrongSecret.status(), 400);
}

#[test]
fn valid_signature_is_accepted() {
    let signature = sign("s3cr3t", BODY);
    assert_eq!(
        hook(&acme(), Some("push"), Some(&signature), BODY),
        HookDecision::Synchronize { repo: 0, event: GithubEventTypes::Push }
    );
}

#[test]
fn signature_is_checked_against_the_selected_entry() {
    let config = config(vec![
        repo("acme/app", Some("first"), vec![GithubEventTypes::Release]),
        repo("acme/app", Some("second"), vec![GithubEventTypes::Push]),
    ]);
    let first = sign("first", BODY);
    let second = sign("second", BODY);
    assert_eq!(
        hook(&config, Some("push"), Some(&second), BODY),
        HookDecision::Synchronize { repo: 1, event: GithubEventTypes::Push }
    );
    assert_eq!(
        hook(&config, Some("push"), Some(&first), BODY),
        HookDecision::Reply(HookReply::WrongSecret)
    );
    assert_eq!(
        hook(&config, Some("release"), Some(&first), BODY),
        HookDecision::Synchronize { repo: 0, event: GithubEventTypes::Release }
    );
}

#[test]
fn dispatch_takes_the_name_as_given() {
    let config = acme();
    assert_eq!(
        dispatch(&config, GithubEventTypes::Push, Some("acme/app"), None, b"whatever"),
        HookDecision::Synchronize { repo: 0, event: GithubEventTypes::Push }
    );
    assert_eq!(
        dispatch(&config, GithubEventTypes::Push, None, None, BODY),
        HookDecision::Reply(HookReply::MalformedPayload)
    );
    assert_eq!(
        dispatch(&config, GithubEventTypes::Push, Some("acme/none"), None, BODY),
        HookDecision::Reply(HookReply::UnknownRepository)
    );
    assert_eq!(
        dispatch(&config, GithubEventTypes::Star, Some("acme/app"), None, BODY),
        HookDecision::Reply(HookReply::EventIgnored)
    );
    let signature = sign("s3cr3t", b"whatever");
    assert_eq!(
        dispatch(&config, GithubEventTypes::Push, Some("acme/app"), Some(&signature), b"whatever"),
        HookDecision::Synchronize { repo: 0, event: GithubEventTypes::Push }
    );
    assert_eq!(
        dispatch(&config, GithubEventTypes::Push, Some("acme/app"), Some(&signature), BODY),
        HookDecision::Reply(HookReply::WrongSecret)
    );
}

#[test]
fn authenticate_cases() {
    let with = repo("acme/app", Some("s3cr3t"), vec![]);
    let without = repo("acme/app", None, vec![]);
    let signature = sign("s3cr3t", BODY);
    assert_eq!(authenticate(&with, None, BODY), None);
    assert_eq!(authenticate(&without, None, BODY), None);
    assert_eq!(authenticate(&with, Some(&signature), BODY), None);
    assert_eq!(authenticate(&without, Some(&signature), BODY), Some(HookReply::MissingSecret));
    assert_eq!(authenticate(&with, Some(&signature), b"other"), Some(HookReply::WrongSecret));
}

#[test]
fn complete_after_success_launches_the_command() {
    let mut entry = repo("acme/app", None, vec![]);
    entry.command = Some("/srv/deploy.sh".to_string());
    entry.args = vec!["--fast".to_string(), "now".to_string()];
    let completion = complete(&entry, &Ok(()));
    assert_eq!(completion.reply, HookReply::Synchronized);
    assert_eq!(completion.reply.status(), 200);
    let command = completion.command.unwrap();
    assert_eq!(command.program, "/srv/deploy.sh");
    assert_eq!(command.args, vec!["--fast".to_string(), "now".to_string()]);
    assert_eq!(command.directory, "/srv/run");
}

#[test]
fn complete_without_command_only_answers() {
    let mut entry = repo("acme/app", None, vec![]);
    entry.command = None;
    let completion = complete(&entry, &Ok(()));
    assert_eq!(completion.reply, HookReply::Synchronized);
    assert!(completion.command.is_none());
}

#[test]
fn complete_after_failure_answers_500() {
    let entry = repo("acme/app", None, vec![]);
    let error = GitError::Exit { step: GitStep::Fetch, code: Some(128) };
    let completion = complete(&entry, &Err(error));
    assert_eq!(completion.reply, HookReply::SyncFailed);
    assert_eq!(completion.reply.status(), 500);
    assert!(completion.command.is_none());
}

#[test]
fn push_delivery_end_to_end() {
    let config = acme();
    let signature = sign("s3cr3t", BODY);
    let decision = hook(&config, Some("push"), Some(&signature), BODY);
    let (position, event) = match decision {
        HookDecision::Synchronize { repo, event } => (repo, event),
        HookDecision::Reply(reply) => panic!("answered {:?}", reply),
    };
    assert_eq!((position, event), (0, GithubEventTypes::Push));
    let entry = &config.repos[position];
    let git = config.git_directory.as_str();

    let mut state = SyncState::start();
    let mut log: Vec<Vec<u8>> = Vec::new();
    let mut commands: Vec<Vec<String>> = Vec::new();
    let outcome = loop {
        match sync_action(entry, git, &state) {
            SyncAction::Run(command) => {
                assert_eq!(command.program, "/usr/bin/git");
                assert_eq!(command.directory, "/srv/app");
                let report = if commands.is_empty() {
                    ran(Some(0), b"Fetching origin\n", b"")
                } else {
                    ran(Some(0), b"HEAD is now at 0a1b2c3 release\n", b"")
                };
                commands.push(command.args);
                let step = update_git_repo(entry, event, state, report);
                log.extend(step.log);
                state = step.state;
            }
            SyncAction::Finish(outcome) => break outcome,
        }
    };
    assert!(outcome.is_ok());
    assert_eq!(
        commands,
        vec![
            vec!["fetch".to_string(), "--all".to_string()],
            vec!["reset".to_string(), "--hard".to_string(), "origin/main".to_string()],
        ]
    );
    assert_eq!(
        log,
        vec![
            b"[acme/app][push]Fetching origin".to_vec(),
            b"[acme/app][push]HEAD is now at 0a1b2c3 release".to_vec(),
        ]
    );

    let completion = complete(entry, &outcome);
    assert_eq!(completion.reply.status(), 200);
    let command = completion.command.unwrap();
    assert_eq!(command.program, "true");
    assert!(command.args.is_empty());
    assert_eq!(command.directory, "/srv/run");
    assert_eq!(
        command_log(entry, event, &CommandEvent::Exited(Some(0))),
        b"[acme/app][push]Command finished with status 0".to_vec()
    );
}

#[test]
fn pull_request_delivery_is_not_modified() {
    let signature = sign("s3cr3t", BODY);
    let decision = hook(&acme(), Some("pull_request"), Some(&signature), BODY);
    match decision {
        HookDecision::Reply(reply) => assert_eq!(reply.status(), 304),
        HookDecision::Synchronize { .. } => panic!("a git operation was asked for"),
    }
}

#[test]
fn repository_full_name_cases() {
    use_name(BODY, Some("acme/app"));
    use_name(b"{\"repository\":{\"full_name\":\"\"}}", Some(""));
    use_name(b"{\"repository\":{\"full_name\":\"a\\u00e9\\n\"}}", Some("a\u{e9}\n"));
    use_name(b"{\"repository\":{\"full_name\":\"x\",\"full_name\":\"y\"}}", Some("y"));
    use_name(b"{\"full_name\":\"acme/app\"}", None);
    use_name(b"{\"repository\":\"acme/app\"}", None);
    use_name(b"{\"repository\":{\"full_name\":null}}", None);
    use_name(b"{\"repository\":{\"name\":\"app\"}}", None);
    use_name(b"[{\"repository\":{\"full_name\":\"acme/app\"}}]", None);
    use_name(b"\"repository\"", None);
    use_name(b"", None);
}

fn use_name(body: &[u8], expected: Option<&str>) {
    assert_eq!(repository_full_name(body), expected.map(|name| name.to_string()));
}

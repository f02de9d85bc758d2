use vstd::prelude::*;
use crate::dto::GithubEventTypes;
use crate::models::{Config, Repo, RepoView};
use crate::text::str_equal;

verus! {

/// Whether an entry reacts to `event`: it lists the kind, or lists none and
/// so reacts to every kind.
pub open spec fn reacts_to(repo: RepoView, event: GithubEventTypes) -> bool {
    repo.events.is_empty() || repo.events.contains(event)
}

/// Whether an entry is the one meant by a delivery for the repository `name`
/// with the event kind `event`.
pub open spec fn entry_matches(repo: RepoView, name: Seq<char>, event: GithubEventTypes) -> bool {
    repo.identifier == name && reacts_to(repo, event)
}

/// Position of the first entry at or after `start` that matches, if any.
pub open spec fn first_match_from(
    repos: Seq<RepoView>,
    name: Seq<char>,
    event: GithubEventTypes,
    start: int,
) -> Option<int>
    decreases repos.len() - start,
{
    if start < 0 || start >= repos.len() {
        None
    } else if entry_matches(repos[start], name, event) {
        Some(start)
    } else {
        first_match_from(repos, name, event, start + 1)
    }
}

/// Position of the entry that a delivery selects: the first that matches.
pub open spec fn first_match(repos: Seq<RepoView>, name: Seq<char>, event: GithubEventTypes)
    -> Option<int> {
    first_match_from(repos, name, event, 0)
}

/// Whether some entry carries the identifier `name`, whatever events it
/// reacts to.
pub open spec fn names_repository(repos: Seq<RepoView>, name: Seq<char>) -> bool {
    exists|i: int| 0 <= i < repos.len() && (#[trigger] repos[i]).identifier == name
}

/// What a search from `start` returns is the least matching position from
/// `start` on, and `None` only where nothing from `start` on matches.
pub proof fn lemma_first_match_from(
    repos: Seq<RepoView>,
    name: Seq<char>,
    event: GithubEventTypes,
    start: int,
)
    requires
        0 <= start <= repos.len(),
    ensures
        match first_match_from(repos, name, event, start) {
            Some(i) => {
                &&& start <= i < repos.len()
                &&& entry_matches(repos[i], name, event)
                &&& forall|j: int| start <= j < i ==> !entry_matches(#[trigger] repos[j], name, event)
            },
            None => forall|j: int|
                start <= j < repos.len() ==> !entry_matches(#[trigger] repos[j], name, event),
        },
    decreases repos.len() - start,
{
    if start < repos.len() && !entry_matches(repos[start], name, event) {
        lemma_first_match_from(repos, name, event, start + 1);
    }
}

/// The selected entry is the first one that matches: `position` is selected
/// exactly when it matches and nothing before it does, and nothing is
/// selected exactly when nothing matches.
pub proof fn lemma_first_match_is_least(
    repos: Seq<RepoView>,
    name: Seq<char>,
    event: GithubEventTypes,
    position: int,
)
    ensures
        first_match(repos, name, event) == Some(position) <==> {
            &&& 0 <= position < repos.len()
            &&& entry_matches(repos[position], name, event)
            &&& forall|j: int| 0 <= j < position ==> !entry_matches(#[trigger] repos[j], name, event)
        },
        first_match(repos, name, event) is None <==> forall|j: int|
            0 <= j < repos.len() ==> !entry_matches(#[trigger] repos[j], name, event),
{
    lemma_first_match_from(repos, name, event, 0);
}

/// Where two entries match one delivery, the earlier one shadows the later:
/// the selected entry stands at or before the earlier of the two.
pub proof fn lemma_first_entry_wins(
    repos: Seq<RepoView>,
    name: Seq<char>,
    event: GithubEventTypes,
    earlier: int,
    later: int,
)
    requires
        0 <= earlier < later < repos.len(),
        entry_matches(repos[earlier], name, event),
        entry_matches(repos[later], name, event),
    ensures
        first_match(repos, name, event) is Some,
        first_match(repos, name, event)->0 <= earlier,
        first_match(repos, name, event) != Some(later),
{
    lemma_first_match_from(repos, name, event, 0);
}

/// An entry that lists no events is a wildcard: with it in the
/// configuration, a delivery for its repository selects an entry whatever
/// the event kind.
pub proof fn lemma_wildcard_matches_every_event(
    repos: Seq<RepoView>,
    position: int,
    event: GithubEventTypes,
)
    requires
        0 <= position < repos.len(),
        repos[position].events.is_empty(),
    ensures
        first_match(repos, repos[position].identifier, event) is Some,
{
    lemma_first_match_from(repos, repos[position].identifier, event, 0);
}

/// An entry that lists events is a filter: alone in the configuration, it is
/// selected for its repository exactly on the event kinds it lists.
pub proof fn lemma_filter_matches_listed_events(repo: RepoView, event: GithubEventTypes)
    requires
        !repo.events.is_empty(),
    ensures
        first_match(seq![repo], repo.identifier, event) is Some <==> repo.events.contains(event),
{
    lemma_first_match_from(seq![repo], repo.identifier, event, 0);
}

impl Repo {
    /// Whether the entry reacts to events of kind `event`.
    pub fn reacts_to(&self, event: GithubEventTypes) -> (reacts: bool)
        ensures
            reacts == reacts_to(self@, event),
    {
        if self.events.len() == 0 {
            assert(self@.events =~= Set::empty());
            return true;
        }
        assert(self@.events.contains(self.events@[0]));
        let mut index: usize = 0;
        while index < self.events.len()
            invariant
                index <= self.events@.len(),
                forall|k: int| 0 <= k < index ==> self.events@[k] != event,
            decreases self.events@.len() - index,
        {
            if self.events[index] == event {
                return true;
            }
            index += 1;
        }
        false
    }

    /// Whether the entry is the one meant by a delivery for the repository
    /// `name` with the event kind `event`.
    pub fn matches(&self, name: &str, event: GithubEventTypes) -> (matched: bool)
        ensures
            matched == entry_matches(self@, name@, event),
    {
        str_equal(self.repo.as_str(), name) && self.reacts_to(event)
    }
}

/// Selects the entry for a delivery: the first one whose identifier is
/// `name` and which reacts to `event`. Returns its position in
/// `config.repos`, and `None` where no entry matches.
pub fn find_repo(config: &Config, name: &str, event: GithubEventTypes) -> (found: Option<usize>)
    ensures
        match found {
            Some(position) => {
                &&& position < config.repos@.len()
                &&& entry_matches(config@.repos[position as int], name@, event)
                &&& forall|j: int|
                    0 <= j < position ==> !entry_matches(#[trigger] config@.repos[j], name@, event)
                &&& first_match(config@.repos, name@, event) == Some(position as int)
            },
            None => {
                &&& forall|j: int|
                    0 <= j < config.repos@.len() ==> !entry_matches(
                        #[trigger] config@.repos[j],
                        name@,
                        event,
                    )
                &&& first_match(config@.repos, name@, event) is None
            },
        },
{
    let mut index: usize = 0;
    while index < config.repos.len()
        invariant
            index <= config.repos@.len(),
            config@.repos.len() == config.repos@.len(),
            forall|j: int| 0 <= j < index ==> !entry_matches(#[trigger] config@.repos[j], name@, event),
        decreases config.repos@.len() - index,
    {
        if config.repos[index].matches(name, event) {
            proof {
                lemma_first_match_is_least(config@.repos, name@, event, index as int);
            }
            return Some(index);
        }
        index += 1;
    }
    proof {
        lemma_first_match_is_least(config@.repos, name@, event, 0);
    }
    None
}

/// Whether the configuration holds an entry for the repository `name`,
/// whatever events it reacts to. It tells a delivery for an unknown
/// repository from one whose event no entry reacts to.
pub fn knows_repo(config: &Config, name: &str) -> (known: bool)
    ensures
        known == names_repository(config@.repos, name@),
{
    let mut index: usize = 0;
    while index < config.repos.len()
        invariant
            index <= config.repos@.len(),
            config@.repos.len() == config.repos@.len(),
            forall|j: int| 0 <= j < index ==> (#[trigger] config@.repos[j]).identifier != name@,
        decreases config.repos@.len() - index,
    {
        if str_equal(config.repos[index].repo.as_str(), name) {
            assert(config@.repos[index as int].identifier == name@);
            return true;
        }
        index += 1;
    }
    false
}

} // verus!

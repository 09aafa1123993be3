//! Choosing a standalone agent's repository from its checkout.

use crate::cursor::model::RepoUrl;
use crate::text::Text;
use vstd::prelude::*;

verus! {

/// What a session's first prompt asks for, decided before the agent is minted.
///
/// The two answers travel together because they are one decision: a pull
/// request can only be opened against a repository.
#[derive(Debug, PartialEq, Eq)]
pub struct SessionIntent {
    /// The repository the work belongs to, when one clearly does.
    pub repository: Option<RepoUrl>,
    /// Whether the work should ship as a pull request.
    pub open_pull_request: bool,
}

impl Default for SessionIntent {
    /// No repository, and no pull request.
    fn default() -> (intent: Self)
        ensures
            intent.repository is None,
            !intent.open_pull_request,
    {
        SessionIntent { repository: None, open_pull_request: false }
    }
}

/// Every session works on the repository the process was started in.
///
/// A configured override wins over the checkout's own origin, for clients
/// started somewhere other than the repository the agent should work in. The
/// prompt is not read: a standalone agent has no listing of the user's
/// repositories to choose between, and the checkout is a better answer than a
/// guess.
#[derive(Debug, PartialEq, Eq)]
pub struct GitRepositoryChooser {
    repo: Option<RepoUrl>,
}

impl GitRepositoryChooser {
    /// The repository every session works on.
    pub closed spec fn chosen(self) -> Option<Text> {
        self.repo.deep_view()
    }

    /// Settle on the override, or on the checkout's origin where there is
    /// none.
    pub fn new(override_repo: Option<RepoUrl>, origin: Option<RepoUrl>) -> (chooser: Self)
        ensures
            chooser.chosen() == (match override_repo {
                Some(repo) => Some(repo.deep_view()),
                None => origin.deep_view(),
            }),
    {
        let repo: Option<RepoUrl> = match override_repo {
            Some(repo) => Some(repo),
            None => origin,
        };
        GitRepositoryChooser { repo }
    }

    /// The repository, with a pull request wherever there is one.
    pub fn choose_repository(&self, prompt: &str) -> (intent: SessionIntent)
        ensures
            intent.repository.deep_view() == self.chosen(),
            intent.open_pull_request == (self.chosen() is Some),
    {
        SessionIntent {
            repository: match &self.repo {
                Some(repo) => Some(repo.clone()),
                None => None,
            },
            open_pull_request: self.repo.is_some(),
        }
    }
}

} // verus!

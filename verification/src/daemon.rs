//! The daemon: it holds the configuration and decides how watching starts.
use vstd::prelude::*;

use crate::config::Config;
use crate::watcher::{BranchWatcher, WatchModel};

verus! {

/// The first decision of a start: whether the branch is to be read at all.
pub enum StartStep {
    /// The directory is not a git repository: nothing is watched.
    NotGitRepository,
    /// The directory is a repository: read its current branch next.
    ReadBranch,
}

/// How watching began once the branch was read.
pub enum WatchStart {
    /// The branch could not be read: no watcher was made.
    WatcherFailed,
    /// A watcher on the branch that was read.
    Watching(BranchWatcher),
}

/// Holds the configuration that each watcher it starts works from.
pub struct Daemon {
    config: Config,
}

impl Daemon {
    /// The configuration the daemon holds.
    pub closed spec fn spec_config(&self) -> Config {
        self.config
    }

    /// A daemon on `config`.
    pub fn new(config: Config) -> (d: Daemon)
        ensures
            d.spec_config() == config,
    {
        Daemon { config }
    }

    /// The configuration the daemon holds.
    pub fn config(&self) -> (c: &Config)
        ensures
            *c == self.spec_config(),
    {
        &self.config
    }

    /// Starting in a directory: only a git repository is watched.
    pub fn start(&self, in_git_repo: bool) -> (s: StartStep)
        ensures
            s is ReadBranch <==> in_git_repo,
    {
        if in_git_repo {
            StartStep::ReadBranch
        } else {
            StartStep::NotGitRepository
        }
    }

    /// Makes the watcher from a copy of the configuration and the branch
    /// that was read; no watcher when the branch could not be read.
    pub fn watch<E>(&self, current_branch: Result<String, E>) -> (w: WatchStart)
        ensures
            w is WatcherFailed <==> current_branch is Err,
            match (w, current_branch) {
                (WatchStart::Watching(watcher), Ok(b)) => watcher.model() == (WatchModel {
                    entries: self.spec_config().entries(),
                    branch: b@,
                    playlist: None,
                }) && watcher.spec_config()@ == self.spec_config()@,
                _ => true,
            },
    {
        match BranchWatcher::new(self.config.clone(), current_branch) {
            Ok(watcher) => WatchStart::Watching(watcher),
            Err(_) => WatchStart::WatcherFailed,
        }
    }
}

} // verus!

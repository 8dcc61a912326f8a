//! The branch watcher: it remembers the branch and the playlist last asked
//! for, and decides on each observation of the branch whether a playlist is
//! to be started.
use vstd::prelude::*;

use crate::config::{Config, EntryView, first_match};

verus! {

/// The watcher seen as plain values.
pub struct WatchModel {
    pub entries: Seq<EntryView>,
    pub branch: Seq<char>,
    pub playlist: Option<Seq<char>>,
}

/// The view of an optional string.
pub open spec fn opt_view(o: Option<String>) -> Option<Seq<char>> {
    match o {
        Some(s) => Some(s@),
        None => None,
    }
}

/// `p` is the playlist of some entry.
pub open spec fn is_configured(entries: Seq<EntryView>, p: Seq<char>) -> bool {
    exists|i: int| 0 <= i < entries.len() && (#[trigger] entries[i]).1 == p
}

/// The playlist remembered, if any, is one that the configuration names.
pub open spec fn remembers_configured(s: WatchModel) -> bool {
    s.playlist matches Some(p) ==> is_configured(s.entries, p)
}

/// Checking the branch: the branch's playlist is started unless it is the
/// one remembered; the second component is the playlist to start.
pub open spec fn check_step(s: WatchModel) -> (WatchModel, Option<Seq<char>>) {
    match first_match(s.entries, s.branch) {
        Some(p) => if s.playlist != Some(p) {
            (WatchModel { entries: s.entries, branch: s.branch, playlist: Some(p) }, Some(p))
        } else {
            (s, None)
        },
        None => (s, None),
    }
}

/// Observing the branch (`None` when it could not be read): a new branch is
/// remembered and checked. The second component, when the branch changed,
/// holds the previous branch and the playlist to start.
pub open spec fn poll_step(s: WatchModel, polled: Option<Seq<char>>) -> (
    WatchModel,
    Option<(Seq<char>, Option<Seq<char>>)>,
) {
    match polled {
        Some(b) => if b != s.branch {
            let moved = WatchModel { entries: s.entries, branch: b, playlist: s.playlist };
            let (after, play) = check_step(moved);
            (after, Some((s.branch, play)))
        } else {
            (s, None)
        },
        None => (s, None),
    }
}

/// What an observation of the branch led to.
pub enum PollOutcome {
    /// The branch could not be read, or it did not change.
    Unchanged,
    /// The branch changed from `previous`; `play` is the playlist to start, if any.
    Changed { previous: String, play: Option<String> },
}

/// The view of a poll outcome.
pub open spec fn outcome_view(o: PollOutcome) -> Option<(Seq<char>, Option<Seq<char>>)> {
    match o {
        PollOutcome::Unchanged => None,
        PollOutcome::Changed { previous, play } => Some((previous@, opt_view(play))),
    }
}

/// Watches the current branch and picks the playlist for it.
pub struct BranchWatcher {
    config: Config,
    current_branch: String,
    current_playlist: Option<String>,
}

impl BranchWatcher {
    /// The watcher as plain values.
    pub closed spec fn model(&self) -> WatchModel {
        WatchModel {
            entries: self.config.entries(),
            branch: self.current_branch@,
            playlist: opt_view(self.current_playlist),
        }
    }

    /// The configuration the watcher consults.
    pub closed spec fn spec_config(&self) -> Config {
        self.config
    }

    /// A watcher on `current_branch`, the result of reading the branch; it
    /// fails with the same error when the branch could not be read.
    pub fn new<E>(config: Config, current_branch: Result<String, E>) -> (r: Result<
        BranchWatcher,
        E,
    >)
        ensures
            match (current_branch, r) {
                (Ok(b), Ok(w)) => w.model() == (WatchModel {
                    entries: config.entries(),
                    branch: b@,
                    playlist: None,
                }) && w.spec_config() == config,
                (Err(e1), Err(e2)) => e1 == e2,
                _ => false,
            },
            r matches Ok(w) ==> remembers_configured(w.model()),
    {
        match current_branch {
            Ok(b) => Ok(BranchWatcher { config, current_branch: b, current_playlist: None }),
            Err(e) => Err(e),
        }
    }

    /// The branch the watcher is on.
    pub fn current_branch(&self) -> (b: &String)
        ensures
            b@ == self.model().branch,
    {
        &self.current_branch
    }

    /// The playlist last asked for.
    pub fn current_playlist(&self) -> (p: Option<&String>)
        ensures
            match p {
                Some(s) => self.model().playlist == Some(s@),
                None => self.model().playlist is None,
            },
    {
        match &self.current_playlist {
            Some(s) => Some(s),
            None => None,
        }
    }

    /// The configuration the watcher consults.
    pub fn config(&self) -> (c: &Config)
        ensures
            *c == self.spec_config(),
            c.entries() == self.model().entries,
    {
        &self.config
    }

    /// Looks up the playlist of the current branch; returns it, and
    /// remembers it, when it differs from the playlist last asked for.
    pub fn check_and_play_playlist(&mut self) -> (play: Option<String>)
        ensures
            (final(self).model(), opt_view(play)) == check_step(old(self).model()),
            final(self).spec_config() == old(self).spec_config(),
            remembers_configured(old(self).model()) ==> remembers_configured(final(self).model()),
    {
        let ghost s = self.model();
        let found = self.config.get_playlist_for_branch(self.current_branch.as_str());
        match found {
            Some(p) => {
                let differs = match &self.current_playlist {
                    Some(c) => !(*c == *p),
                    None => true,
                };
                if differs {
                    let chosen = p.clone();
                    proof {
                        if remembers_configured(s) {
                            lemma_check_configured(s);
                        }
                    }
                    self.current_playlist = Some(p.clone());
                    Some(chosen)
                } else {
                    None
                }
            },
            None => None,
        }
    }

    /// Takes in a reading of the branch. A branch other than the current one
    /// becomes current and is checked for its playlist; an unreadable or
    /// unchanged branch changes nothing.
    pub fn poll<E>(&mut self, polled: Result<String, E>) -> (o: PollOutcome)
        ensures
            (final(self).model(), outcome_view(o)) == poll_step(
                old(self).model(),
                match polled {
                    Ok(b) => Some(b@),
                    Err(_) => None,
                },
            ),
            final(self).spec_config() == old(self).spec_config(),
            remembers_configured(old(self).model()) ==> remembers_configured(final(self).model()),
    {
        match polled {
            Ok(b) => {
                if !(b == self.current_branch) {
                    let mut previous = b;
                    std::mem::swap(&mut previous, &mut self.current_branch);
                    let play = self.check_and_play_playlist();
                    PollOutcome::Changed { previous, play }
                } else {
                    PollOutcome::Unchanged
                }
            },
            Err(_) => PollOutcome::Unchanged,
        }
    }
}

/// Checking twice in a row: the second check starts nothing and changes nothing.
pub proof fn law_check_is_idempotent(s: WatchModel)
    ensures
        check_step(check_step(s).0).1 is None,
        check_step(check_step(s).0).0 == check_step(s).0,
{
}

/// A playlist is never started twice in a row: a check starts a playlist only
/// when it differs from the one remembered, and then remembers it.
pub proof fn law_no_repeated_start(s: WatchModel)
    ensures
        check_step(s).1 matches Some(p) ==> s.playlist != Some(p) && check_step(s).0.playlist
            == Some(p),
{
}

/// An unreadable branch, or a reading of the same branch, changes nothing and
/// starts nothing.
pub proof fn law_quiet_poll_changes_nothing(s: WatchModel)
    ensures
        poll_step(s, None) == (s, None::<(Seq<char>, Option<Seq<char>>)>),
        poll_step(s, Some(s.branch)) == (s, None::<(Seq<char>, Option<Seq<char>>)>),
{
}

/// Moving to a branch that has a playlist leaves that playlist remembered,
/// and starts it unless it was the one already remembered.
pub proof fn law_switch_follows_branch(s: WatchModel, b: Seq<char>, p: Seq<char>)
    requires
        b != s.branch,
        first_match(s.entries, b) == Some(p),
    ensures
        poll_step(s, Some(b)).0.branch == b,
        poll_step(s, Some(b)).0.playlist == Some(p),
        poll_step(s, Some(b)).1 == Some(
            (s.branch, if s.playlist == Some(p) { None } else { Some(p) }),
        ),
{
}

/// Moving to a branch that no prefix begins keeps the remembered playlist and
/// starts nothing.
pub proof fn law_unmatched_branch_keeps_playlist(s: WatchModel, b: Seq<char>)
    requires
        b != s.branch,
        first_match(s.entries, b) is None,
    ensures
        poll_step(s, Some(b)).0 == (WatchModel {
            entries: s.entries,
            branch: b,
            playlist: s.playlist,
        }),
        poll_step(s, Some(b)).1 == Some((s.branch, None::<Seq<char>>)),
{
}

/// After every observation the watcher is on the branch that was read, or on
/// its old branch when none could be read; a playlist is started only when
/// the branch read differs from the current one, and nothing but the branch
/// and the remembered playlist ever changes.
pub proof fn law_poll_tracks_branch(s: WatchModel, polled: Option<Seq<char>>)
    ensures
        poll_step(s, polled).0.branch == match polled {
            Some(b) => b,
            None => s.branch,
        },
        poll_step(s, polled).0.entries == s.entries,
        poll_step(s, polled).1 matches Some((_, Some(_))) ==> polled matches Some(b) && b != s.branch,
        poll_step(s, polled).1 is None ==> poll_step(s, polled).0 == s,
{
}

/// A check starts the branch's playlist exactly when it differs from the one
/// remembered, and then remembers it: when the first prefix that begins the
/// branch names `p`, and `p` is not remembered, `p` is started; otherwise
/// nothing is started and nothing changes.
pub proof fn law_check_starts_branch_playlist(s: WatchModel, p: Seq<char>)
    ensures
        first_match(s.entries, s.branch) == Some(p) && s.playlist != Some(p) ==> check_step(s).1 == Some(p)
            && check_step(s).0 == (WatchModel {
            entries: s.entries,
            branch: s.branch,
            playlist: Some(p),
        }),
        first_match(s.entries, s.branch) is None || first_match(s.entries, s.branch) == s.playlist
            ==> check_step(s) == (s, None::<Seq<char>>),
{
}

/// A change of branch makes the same check as the one made when watching
/// starts, on the new branch with the remembered playlist.
pub proof fn law_poll_checks_like_start(s: WatchModel, b: Seq<char>)
    requires
        b != s.branch,
    ensures
        ({
            let moved = WatchModel { entries: s.entries, branch: b, playlist: s.playlist };
            &&& poll_step(s, Some(b)).0 == check_step(moved).0
            &&& poll_step(s, Some(b)).1 == Some((s.branch, check_step(moved).1))
        }),
{
}

/// Only configured playlists are ever remembered or started.
pub proof fn law_only_configured_playlists(s: WatchModel, polled: Option<Seq<char>>)
    requires
        remembers_configured(s),
    ensures
        remembers_configured(check_step(s).0),
        remembers_configured(poll_step(s, polled).0),
        check_step(s).1 matches Some(p) ==> is_configured(s.entries, p),
{
    lemma_check_configured(s);
    if let Some(b) = polled {
        if b != s.branch {
            lemma_check_configured(WatchModel { entries: s.entries, branch: b, playlist: s.playlist });
        }
    }
}

proof fn lemma_check_configured(s: WatchModel)
    requires
        remembers_configured(s),
    ensures
        remembers_configured(check_step(s).0),
        check_step(s).1 matches Some(p) ==> is_configured(s.entries, p),
{
    crate::config::lemma_first_match(s.entries, s.branch);
    if let Some(p) = first_match(s.entries, s.branch) {
        let i = choose|i: int|
            0 <= i < s.entries.len() && (#[trigger] s.entries[i]).0.is_prefix_of(s.branch)
                && s.entries[i].1 == p;
        assert(s.entries[i].1 == p);
    }
}

} // verus!

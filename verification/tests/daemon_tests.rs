use branchfy::config::Config;
use branchfy::daemon::{Daemon, StartStep, WatchStart};

#[test]
fn start_outside_repository_stops() {
    let d = Daemon::new(Config::with_defaults("A".to_string(), "B".to_string()));
    assert!(matches!(d.start(false), StartStep::NotGitRepository));
}

#[test]
fn start_in_repository_reads_branch() {
    let d = Daemon::new(Config::new());
    assert!(matches!(d.start(true), StartStep::ReadBranch));
}

#[test]
fn watch_fails_without_branch() {
    let d = Daemon::new(Config::new());
    assert!(matches!(d.watch(Err::<String, String>("x".to_string())), WatchStart::WatcherFailed));
}

#[test]
fn watch_makes_watcher_on_branch_with_config_copy() {
    let d = Daemon::new(Config::with_defaults("A".to_string(), "B".to_string()));
    match d.watch::<String>(Ok("fix/1".to_string())) {
        WatchStart::Watching(mut w) => {
            assert_eq!(w.current_branch(), "fix/1");
            assert_eq!(w.config().playlists(), d.config().playlists());
            assert_eq!(w.check_and_play_playlist(), Some("B".to_string()));
        }
        WatchStart::WatcherFailed => panic!("expected a watcher"),
    }
}

use branchfy::player::{
    is_valid_playlist_id, Device, PlaySession, PlaybackState, Player, PlayingItem, Request,
    SessionEvent, Stage, Step,
};

const PID: &str = "37i9dQZF1DX5Ejj0EkURtP";

fn lines(s: &Step) -> Vec<(bool, String)> {
    s.lines.iter().map(|l| (l.to_stderr, l.text.clone())).collect()
}

fn out(text: &str) -> (bool, String) {
    (false, text.to_string())
}

fn err(text: &str) -> (bool, String) {
    (true, text.to_string())
}

fn feed(s: &mut PlaySession, e: SessionEvent) -> Step {
    assert!(s.accepts(&e));
    s.step(e)
}

fn devices() -> Vec<Device> {
    vec![
        Device { id: Some("dev1".to_string()), name: "Laptop".to_string() },
        Device { id: None, name: "Phone".to_string() },
    ]
}

#[test]
fn format_duration_values() {
    assert_eq!(Player::format_duration(0), "00:00");
    assert_eq!(Player::format_duration(999), "00:00");
    assert_eq!(Player::format_duration(61_000), "01:01");
    assert_eq!(Player::format_duration(3_599_999), "59:59");
    assert_eq!(Player::format_duration(6_000_000), "100:00");
    assert_eq!(Player::format_duration(u32::MAX), "71582:47");
}

#[test]
fn progress_update_while_playing() {
    let u = Player::progress_update("Song", 200_000, 61_500);
    assert_eq!(u.position, 61_500);
    assert_eq!(u.message, "Playing: Song (01:01/03:20)");
    assert_eq!(u.finished, None);
}

#[test]
fn progress_update_at_end() {
    let u = Player::progress_update("Song", 200_000, 200_000);
    assert_eq!(u.message, "Playing: Song (03:20/03:20)");
    assert_eq!(u.finished, Some("Finished: Song (03:20)".to_string()));
}

#[test]
fn progress_start_message_names_track() {
    assert_eq!(Player::progress_start_message("Song"), "Playing: Song");
}

#[test]
fn playlist_id_validity() {
    assert!(is_valid_playlist_id(PID));
    assert!(!is_valid_playlist_id("37i9dQZF1DX5-jj0"));
    assert!(!is_valid_playlist_id("spotify:playlist:37i9"));
    assert!(is_valid_playlist_id(""));
}

#[test]
fn session_with_saved_token_plays() {
    let (mut s, first) = PlaySession::new(PID.to_string());
    assert!(matches!(first, Request::LoadToken));
    let st = feed(&mut s, SessionEvent::TokenLoaded(true));
    assert!(lines(&st).is_empty());
    assert!(matches!(st.request, Request::RefreshToken));
    let st = feed(&mut s, SessionEvent::Refreshed(true));
    assert!(matches!(st.request, Request::ListDevices));
    let st = feed(&mut s, SessionEvent::Devices(devices()));
    assert_eq!(lines(&st), vec![out("Active devices:"), out("dev1 - Laptop"), out("Unknown ID - Phone")]);
    match st.request {
        Request::StartPlayback { playlist_id, device_id } => {
            assert_eq!(playlist_id, PID);
            assert_eq!(device_id, Some("dev1".to_string()));
        }
        _ => panic!("expected playback to start"),
    }
    let st = feed(&mut s, SessionEvent::PlaybackStarted(Ok(())));
    assert!(matches!(st.request, Request::CurrentPlayback));
    let st = feed(
        &mut s,
        SessionEvent::Playback(Some(PlaybackState {
            item: Some(PlayingItem::Track { name: "Song".to_string(), duration_ms: 1000 }),
            progress_ms: Some(5),
        })),
    );
    assert_eq!(lines(&st), vec![out("Playing: Song")]);
    assert!(matches!(st.request, Request::Finish));
    assert!(matches!(s.stage(), Stage::Done));
    assert!(!s.accepts(&SessionEvent::TokenLoaded(true)));
}

#[test]
fn session_first_device_without_id() {
    let (mut s, _) = PlaySession::new(PID.to_string());
    feed(&mut s, SessionEvent::TokenLoaded(true));
    feed(&mut s, SessionEvent::Refreshed(true));
    let ds = vec![Device { id: None, name: "Phone".to_string() }];
    let st = feed(&mut s, SessionEvent::Devices(ds));
    match st.request {
        Request::StartPlayback { device_id, .. } => assert_eq!(device_id, None),
        _ => panic!("expected playback to start"),
    }
}

#[test]
fn session_authenticates_without_saved_token() {
    let (mut s, _) = PlaySession::new(PID.to_string());
    let st = feed(&mut s, SessionEvent::TokenLoaded(false));
    assert!(matches!(st.request, Request::AuthorizeUrl));
    let st = feed(&mut s, SessionEvent::AuthorizeUrl(Ok("https://auth".to_string())));
    assert_eq!(
        lines(&st),
        vec![
            out("Please open this URL in your browser: https://auth\n"),
            out("After authenticating, paste the code from the URL here:"),
        ]
    );
    assert!(matches!(st.request, Request::ReadCode));
    let st = feed(&mut s, SessionEvent::CodeRead(Ok("CODE".to_string())));
    match st.request {
        Request::RequestToken(code) => assert_eq!(code, "CODE"),
        _ => panic!("expected the code to be exchanged"),
    }
    let st = feed(&mut s, SessionEvent::TokenRequested(Ok(())));
    assert!(matches!(st.request, Request::FetchToken));
    let st = feed(&mut s, SessionEvent::TokenFetched(true));
    assert!(matches!(st.request, Request::SaveToken));
    let st = feed(&mut s, SessionEvent::TokenSaved(Ok(())));
    assert!(matches!(st.request, Request::CurrentPlayback));
    let st = feed(
        &mut s,
        SessionEvent::Playback(Some(PlaybackState {
            item: Some(PlayingItem::Track { name: "Tune".to_string(), duration_ms: 180_000 }),
            progress_ms: Some(30_000),
        })),
    );
    match st.request {
        Request::ShowProgress { track_name, progress_ms, duration_ms } => {
            assert_eq!(track_name, "Tune");
            assert_eq!(progress_ms, 30_000);
            assert_eq!(duration_ms, 180_000);
        }
        _ => panic!("expected the progress display"),
    }
    let st = feed(&mut s, SessionEvent::ProgressShown);
    assert!(matches!(st.request, Request::RefreshToken));
    let st = feed(&mut s, SessionEvent::Refreshed(true));
    assert!(matches!(st.request, Request::ListDevices));
}

#[test]
fn session_auth_episode_is_announced() {
    let (mut s, _) = PlaySession::new(PID.to_string());
    feed(&mut s, SessionEvent::TokenLoaded(false));
    feed(&mut s, SessionEvent::AuthorizeUrl(Ok("u".to_string())));
    feed(&mut s, SessionEvent::CodeRead(Ok("c".to_string())));
    feed(&mut s, SessionEvent::TokenRequested(Ok(())));
    feed(&mut s, SessionEvent::TokenFetched(true));
    feed(&mut s, SessionEvent::TokenSaved(Ok(())));
    let st = feed(
        &mut s,
        SessionEvent::Playback(Some(PlaybackState {
            item: Some(PlayingItem::Episode { name: "Talk".to_string() }),
            progress_ms: Some(1),
        })),
    );
    assert_eq!(lines(&st), vec![out("Playing episode: Talk")]);
    assert!(matches!(st.request, Request::RefreshToken));
}

#[test]
fn session_auth_without_playback_moves_on() {
    let (mut s, _) = PlaySession::new(PID.to_string());
    feed(&mut s, SessionEvent::TokenLoaded(false));
    feed(&mut s, SessionEvent::AuthorizeUrl(Ok("u".to_string())));
    feed(&mut s, SessionEvent::CodeRead(Ok("c".to_string())));
    feed(&mut s, SessionEvent::TokenRequested(Ok(())));
    feed(&mut s, SessionEvent::TokenFetched(true));
    feed(&mut s, SessionEvent::TokenSaved(Ok(())));
    let st = feed(&mut s, SessionEvent::Playback(None));
    assert!(lines(&st).is_empty());
    assert!(matches!(st.request, Request::RefreshToken));
}

#[test]
fn session_auth_failure_is_reported() {
    let (mut s, _) = PlaySession::new(PID.to_string());
    feed(&mut s, SessionEvent::TokenLoaded(false));
    let st = feed(&mut s, SessionEvent::AuthorizeUrl(Err("no redirect uri".to_string())));
    assert_eq!(lines(&st), vec![err("Error authenticating Spotify: no redirect uri")]);
    assert!(matches!(st.request, Request::Finish));
    assert!(matches!(s.stage(), Stage::Done));
}

#[test]
fn session_reauth_after_failed_refresh() {
    let (mut s, _) = PlaySession::new(PID.to_string());
    feed(&mut s, SessionEvent::TokenLoaded(true));
    let st = feed(&mut s, SessionEvent::Refreshed(false));
    assert!(matches!(st.request, Request::AuthorizeUrl));
    feed(&mut s, SessionEvent::AuthorizeUrl(Ok("u".to_string())));
    feed(&mut s, SessionEvent::CodeRead(Ok("c".to_string())));
    feed(&mut s, SessionEvent::TokenRequested(Ok(())));
    let st = feed(&mut s, SessionEvent::TokenFetched(false));
    assert_eq!(
        lines(&st),
        vec![err("Error re-authenticating Spotify: Failed to get access token")]
    );
    assert!(matches!(st.request, Request::Finish));
}

#[test]
fn session_reauth_success_lists_devices() {
    let (mut s, _) = PlaySession::new(PID.to_string());
    feed(&mut s, SessionEvent::TokenLoaded(true));
    feed(&mut s, SessionEvent::Refreshed(false));
    feed(&mut s, SessionEvent::AuthorizeUrl(Ok("u".to_string())));
    feed(&mut s, SessionEvent::CodeRead(Ok("c".to_string())));
    feed(&mut s, SessionEvent::TokenRequested(Ok(())));
    feed(&mut s, SessionEvent::TokenFetched(true));
    feed(&mut s, SessionEvent::TokenSaved(Ok(())));
    let st = feed(&mut s, SessionEvent::Playback(None));
    assert!(matches!(st.request, Request::ListDevices));
}

#[test]
fn session_code_error_is_reported() {
    let (mut s, _) = PlaySession::new(PID.to_string());
    feed(&mut s, SessionEvent::TokenLoaded(false));
    feed(&mut s, SessionEvent::AuthorizeUrl(Ok("u".to_string())));
    let st = feed(&mut s, SessionEvent::CodeRead(Err("stdin closed".to_string())));
    assert_eq!(lines(&st), vec![err("Error authenticating Spotify: stdin closed")]);
}

#[test]
fn session_without_devices_stops() {
    let (mut s, _) = PlaySession::new(PID.to_string());
    feed(&mut s, SessionEvent::TokenLoaded(true));
    feed(&mut s, SessionEvent::Refreshed(true));
    let st = feed(&mut s, SessionEvent::Devices(Vec::new()));
    assert_eq!(lines(&st), vec![out("No active devices found. Open the Spotify app and try again.")]);
    assert!(matches!(st.request, Request::Finish));
}

#[test]
fn session_invalid_playlist_id_aborts() {
    let (mut s, _) = PlaySession::new("not-an-id".to_string());
    feed(&mut s, SessionEvent::TokenLoaded(true));
    feed(&mut s, SessionEvent::Refreshed(true));
    let st = feed(&mut s, SessionEvent::Devices(devices()));
    assert_eq!(lines(&st).len(), 3);
    match st.request {
        Request::Abort(m) => assert_eq!(m, "Invalid playlist ID"),
        _ => panic!("expected an abort"),
    }
}

#[test]
fn session_playback_start_error() {
    let (mut s, _) = PlaySession::new(PID.to_string());
    feed(&mut s, SessionEvent::TokenLoaded(true));
    feed(&mut s, SessionEvent::Refreshed(true));
    feed(&mut s, SessionEvent::Devices(devices()));
    let st = feed(&mut s, SessionEvent::PlaybackStarted(Err("Forbidden".to_string())));
    assert_eq!(lines(&st), vec![err("Error starting playback: Forbidden")]);
}

fn session_until_now_playing() -> PlaySession {
    let (mut s, _) = PlaySession::new(PID.to_string());
    feed(&mut s, SessionEvent::TokenLoaded(true));
    feed(&mut s, SessionEvent::Refreshed(true));
    feed(&mut s, SessionEvent::Devices(devices()));
    feed(&mut s, SessionEvent::PlaybackStarted(Ok(())));
    s
}

#[test]
fn session_reports_no_playback() {
    let mut s = session_until_now_playing();
    let st = feed(&mut s, SessionEvent::Playback(None));
    assert_eq!(lines(&st), vec![out("No current playback.")]);
}

#[test]
fn session_reports_no_item() {
    let mut s = session_until_now_playing();
    let st = feed(&mut s, SessionEvent::Playback(Some(PlaybackState { item: None, progress_ms: None })));
    assert_eq!(lines(&st), vec![out("No track or episode is currently playing.")]);
}

#[test]
fn session_reports_episode() {
    let mut s = session_until_now_playing();
    let st = feed(
        &mut s,
        SessionEvent::Playback(Some(PlaybackState {
            item: Some(PlayingItem::Episode { name: "Pod".to_string() }),
            progress_ms: None,
        })),
    );
    assert_eq!(lines(&st), vec![out("Playing episode: Pod")]);
}

#[test]
fn session_rejects_out_of_order_event() {
    let (s, _) = PlaySession::new(PID.to_string());
    assert!(!s.accepts(&SessionEvent::Refreshed(true)));
    assert!(s.accepts(&SessionEvent::TokenLoaded(false)));
}

#[test]
fn format_duration_reads_back() {
    for ms in [0u32, 59_999, 60_000, 3_723_000, 6_000_000, u32::MAX] {
        let text = Player::format_duration(ms);
        let (m, s) = text.split_once(':').unwrap();
        assert!(m.len() >= 2 && s.len() == 2);
        let (m, s): (u32, u32) = (m.parse().unwrap(), s.parse().unwrap());
        assert!(s < 60);
        assert_eq!(m * 60 + s, ms / 1000);
    }
}

#[test]
fn progress_poll_skips_missing_position() {
    assert!(Player::progress_poll("Song", 1000, None).is_none());
    let u = Player::progress_poll("Song", 1000, Some(1000)).unwrap();
    assert_eq!(u.position, 1000);
    assert_eq!(u.finished, Some("Finished: Song (00:01)".to_string()));
}

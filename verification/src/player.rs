//! Playback: the duration text and progress display, and the decisions of a
//! session that authenticates, picks a device and starts a playlist.
use vstd::prelude::*;
use vstd::string::*;

use crate::text::{
    all_digits, decimal, decimal_value, join2, join3, lemma_pad2_reads_back, pad2, two_digit_string,
};

verus! {

/// `"MM:SS"` for `ms` milliseconds: whole minutes and the remaining whole
/// seconds, each in decimal padded to two digits.
pub open spec fn duration_text(ms: u32) -> Seq<char> {
    let total_seconds = ms / 1000;
    pad2(decimal((total_seconds / 60) as nat)) + seq![':'] + pad2(decimal((total_seconds % 60) as nat))
}

/// What the progress display shows after one reading of the playback position.
pub struct ProgressUpdate {
    /// The new position of the bar, in milliseconds.
    pub position: u64,
    /// The message beside the bar.
    pub message: String,
    /// Present when the track has ended: the closing message.
    pub finished: Option<String>,
}

/// Playback controls that need no outside service.
pub struct Player;

impl Player {
    /// `"MM:SS"` for a duration in milliseconds.
    pub fn format_duration(ms: u32) -> (r: String)
        ensures
            r@ == duration_text(ms),
    {
        let total_seconds = ms / 1000;
        let minutes = total_seconds / 60;
        let seconds = total_seconds % 60;
        let mut r = two_digit_string(minutes);
        proof {
            reveal_strlit(":");
        }
        r.append(":");
        let s = two_digit_string(seconds);
        r.append(s.as_str());
        r
    }

    /// The message the progress display starts with.
    pub fn progress_start_message(track_name: &str) -> (r: String)
        ensures
            r@ == "Playing: "@ + track_name@,
    {
        join2("Playing: ", track_name)
    }

    /// One poll of the playback of a track of `duration_ms`: the display is
    /// updated only when the poll gave a position (`progress_ms`); a failed
    /// poll, or one without a position, leaves it as it is.
    pub fn progress_poll(track_name: &str, duration_ms: u32, progress_ms: Option<i64>) -> (u:
        Option<ProgressUpdate>)
        ensures
            u is Some <==> progress_ms is Some,
            match (u, progress_ms) {
                (Some(up), Some(p)) => {
                    &&& up.position == p as u64
                    &&& up.message@ == "Playing: "@ + track_name@ + " ("@ + duration_text(p as u32)
                        + "/"@ + duration_text(duration_ms) + ")"@
                    &&& up.finished is Some <==> p >= duration_ms
                    &&& up.finished matches Some(m) ==> m@ == "Finished: "@ + track_name@ + " ("@
                        + duration_text(duration_ms) + ")"@
                },
                _ => true,
            },
    {
        match progress_ms {
            Some(p) => Some(Player::progress_update(track_name, duration_ms, p)),
            None => None,
        }
    }

    /// One reading of the playback position of a track of `duration_ms`:
    /// the bar moves there, the message shows both times, and the display
    /// finishes once the position reaches the duration.
    pub fn progress_update(track_name: &str, duration_ms: u32, progress_ms: i64) -> (u:
        ProgressUpdate)
        ensures
            u.position == progress_ms as u64,
            u.message@ == "Playing: "@ + track_name@ + " ("@ + duration_text(progress_ms as u32)
                + "/"@ + duration_text(duration_ms) + ")"@,
            u.finished is Some <==> progress_ms >= duration_ms,
            u.finished matches Some(m) ==> m@ == "Finished: "@ + track_name@ + " ("@
                + duration_text(duration_ms) + ")"@,
    {
        let current = Player::format_duration(progress_ms as u32);
        let total = Player::format_duration(duration_ms);
        let mut message = join3("Playing: ", track_name, " (");
        message.append(current.as_str());
        message.append("/");
        message.append(total.as_str());
        message.append(")");
        let finished = if progress_ms >= duration_ms as i64 {
            let mut m = join3("Finished: ", track_name, " (");
            m.append(total.as_str());
            m.append(")");
            Some(m)
        } else {
            None
        };
        ProgressUpdate { position: progress_ms as u64, message, finished }
    }
}

/// A duration text reads back to its duration: the digits before the colon
/// (at least two) count the minutes, the two digits after it count the
/// seconds, below sixty, and together they give the whole seconds of `ms`.
pub proof fn law_duration_text_reads_back(ms: u32)
    ensures
        ({
            let t = duration_text(ms);
            let k = t.len() - 3;
            &&& k >= 2
            &&& t[k] == ':'
            &&& all_digits(t.subrange(0, k))
            &&& all_digits(t.subrange(k + 1, t.len() as int))
            &&& decimal_value(t.subrange(k + 1, t.len() as int)) < 60
            &&& decimal_value(t.subrange(0, k)) * 60 + decimal_value(t.subrange(k + 1, t.len() as int))
                == ms / 1000
        }),
{
    let total_seconds = ms / 1000;
    let m = (total_seconds / 60) as nat;
    let sec = (total_seconds % 60) as nat;
    lemma_pad2_reads_back(m);
    lemma_pad2_reads_back(sec);
    let a = pad2(decimal(m));
    let b = pad2(decimal(sec));
    let t = duration_text(ms);
    assert(t == a + seq![':'] + b);
    let k = t.len() - 3;
    assert(k == a.len());
    assert(t.subrange(0, k) =~= a);
    assert(t.subrange(k + 1, t.len() as int) =~= b);
    assert(m * 60 + sec == total_seconds) by (nonlinear_arith)
        requires
            m == total_seconds / 60,
            sec == total_seconds % 60,
    ;
}

/// A duration text carries no zero beyond the padding: below a hundred
/// minutes it is exactly five characters (two for the minutes, the colon,
/// two for the seconds), and a longer minutes field does not begin with `0`.
pub proof fn law_duration_text_minimal(ms: u32)
    ensures
        (ms / 1000) / 60 < 100 ==> duration_text(ms).len() == 5,
        duration_text(ms).len() > 5 ==> duration_text(ms)[0] != '0',
        duration_text(ms).len() > 5 ==> (ms / 1000) / 60 >= 100,
{
    let total_seconds = ms / 1000;
    let m = (total_seconds / 60) as nat;
    let sec = (total_seconds % 60) as nat;
    lemma_pad2_reads_back(m);
    lemma_pad2_reads_back(sec);
    crate::text::lemma_decimal_len(m);
    let a = pad2(decimal(m));
    let t = duration_text(ms);
    assert(t == a + seq![':'] + pad2(decimal(sec)));
    assert(t[0] == a[0]);
    if a.len() > 2 {
        assert(a == decimal(m));
        crate::text::lemma_decimal_first_digit(m);
        lemma_decimal_len_bound(m);
    }
}

/// A decimal of three or more digits stands for at least a hundred.
proof fn lemma_decimal_len_bound(n: nat)
    ensures
        n < 100 ==> decimal(n).len() <= 2,
{
    crate::text::lemma_decimal_len(n);
    if 10 <= n < 100 {
        crate::text::lemma_decimal_len(n / 10);
    }
}

/// `c` is an ASCII letter or digit.
pub open spec fn is_ascii_alphanumeric(c: char) -> bool {
    ||| 48 <= (c as u32) <= 57
    ||| 65 <= (c as u32) <= 90
    ||| 97 <= (c as u32) <= 122
}

/// A playlist id is accepted when it is made of ASCII letters and digits only.
pub open spec fn valid_playlist_id(id: Seq<char>) -> bool {
    forall|i: int| 0 <= i < id.len() ==> is_ascii_alphanumeric(#[trigger] id[i])
}

/// Whether rspotify accepts `id` as a playlist id: calls
/// `rspotify::model::PlaylistId::from_id` and reports whether it returned `Ok`.
/// The contract claims what its source shows: the id is accepted exactly
/// when every character is an ASCII letter or digit.
#[verifier::external_body]
fn playlist_id_accepted(id: &str) -> (ok: bool)
    ensures
        ok == valid_playlist_id(id@),
{
    rspotify::model::PlaylistId::from_id(id).is_ok()
}

/// Whether `id` can name a playlist to play.
pub fn is_valid_playlist_id(id: &str) -> (ok: bool)
    ensures
        ok == valid_playlist_id(id@),
{
    playlist_id_accepted(id)
}

/// A playback device as listed by the service.
pub struct Device {
    pub id: Option<String>,
    pub name: String,
}

/// What is playing.
pub enum PlayingItem {
    Track { name: String, duration_ms: i64 },
    Episode { name: String },
}

/// The current playback: the item, if any, and the position in it.
pub struct PlaybackState {
    pub item: Option<PlayingItem>,
    pub progress_ms: Option<i64>,
}

/// The steps of one round of authentication.
#[derive(Clone, Copy)]
pub enum AuthStep {
    AuthorizeUrl,
    ReadCode,
    RequestToken,
    FetchToken,
    SaveToken,
    CheckPlayback,
    ShowProgress,
}

/// Where a session stands.
#[derive(Clone, Copy)]
pub enum Stage {
    /// Waiting for the saved token to be loaded.
    LoadToken,
    /// In a round of authentication; `again` when the refresh of the token failed.
    Authenticate { again: bool, step: AuthStep },
    /// Waiting for the token to be refreshed.
    Refresh,
    /// Waiting for the list of devices.
    Devices,
    /// Waiting for playback to start.
    StartPlayback,
    /// Waiting for what is now playing.
    NowPlaying,
    /// The session is over.
    Done,
}

/// What the outside world reports back to a session.
pub enum SessionEvent {
    TokenLoaded(bool),
    AuthorizeUrl(Result<String, String>),
    CodeRead(Result<String, String>),
    TokenRequested(Result<(), String>),
    TokenFetched(bool),
    TokenSaved(Result<(), String>),
    Playback(Option<PlaybackState>),
    ProgressShown,
    Refreshed(bool),
    Devices(Vec<Device>),
    PlaybackStarted(Result<(), String>),
}

/// What a session asks the outside world to do next.
pub enum Request {
    LoadToken,
    AuthorizeUrl,
    ReadCode,
    RequestToken(String),
    FetchToken,
    SaveToken,
    CurrentPlayback,
    ShowProgress { track_name: String, progress_ms: u64, duration_ms: u32 },
    RefreshToken,
    ListDevices,
    StartPlayback { playlist_id: String, device_id: Option<String> },
    /// Stop with this message as a failure.
    Abort(String),
    /// The session has ended.
    Finish,
}

/// A line to print, on standard error when `to_stderr`.
pub struct Line {
    pub to_stderr: bool,
    pub text: String,
}

/// The lines to print, then the request to carry out.
pub struct Step {
    pub lines: Vec<Line>,
    pub request: Request,
}

/// The printed lines as plain values.
pub open spec fn lines_view(lines: Vec<Line>) -> Seq<(bool, Seq<char>)> {
    seq_lines_view(lines@)
}

/// A sequence of lines as plain values.
pub open spec fn seq_lines_view(lines: Seq<Line>) -> Seq<(bool, Seq<char>)> {
    lines.map_values(|l: Line| (l.to_stderr, l.text@))
}

/// The listing of the devices, without its heading.
pub open spec fn device_entries(ds: Seq<Device>) -> Seq<(bool, Seq<char>)> {
    ds.map_values(|d: Device| (false, device_text(d)))
}

/// The line reporting a failed round of authentication.
pub open spec fn auth_failure_text(again: bool, e: Seq<char>) -> Seq<char> {
    if again {
        "Error re-authenticating Spotify: "@ + e
    } else {
        "Error authenticating Spotify: "@ + e
    }
}

/// The line that lists a device.
pub open spec fn device_text(d: Device) -> Seq<char> {
    match d.id {
        Some(id) => id@ + " - "@ + d.name@,
        None => "Unknown ID"@ + " - "@ + d.name@,
    }
}

/// The lines that list the devices.
pub open spec fn device_lines(ds: Seq<Device>) -> Seq<(bool, Seq<char>)> {
    seq![(false, "Active devices:"@)] + device_entries(ds)
}

/// The line that reports what is playing once playback started.
pub open spec fn playback_report(p: Option<PlaybackState>) -> Seq<char> {
    match p {
        None => "No current playback."@,
        Some(st) => match st.item {
            None => "No track or episode is currently playing."@,
            Some(PlayingItem::Track { name, .. }) => "Playing: "@ + name@,
            Some(PlayingItem::Episode { name }) => "Playing episode: "@ + name@,
        },
    }
}

/// Where a round of authentication leads once it succeeded.
pub open spec fn after_auth(again: bool) -> Stage {
    if again {
        Stage::Devices
    } else {
        Stage::Refresh
    }
}

/// The request that goes with `after_auth`.
pub open spec fn after_auth_request(again: bool, r: Request) -> bool {
    if again {
        r is ListDevices
    } else {
        r is RefreshToken
    }
}

/// The events a stage takes.
pub open spec fn accepts(stage: Stage, e: SessionEvent) -> bool {
    match (stage, e) {
        (Stage::LoadToken, SessionEvent::TokenLoaded(_)) => true,
        (Stage::Authenticate { step: AuthStep::AuthorizeUrl, .. }, SessionEvent::AuthorizeUrl(_)) => true,
        (Stage::Authenticate { step: AuthStep::ReadCode, .. }, SessionEvent::CodeRead(_)) => true,
        (Stage::Authenticate { step: AuthStep::RequestToken, .. }, SessionEvent::TokenRequested(_)) => true,
        (Stage::Authenticate { step: AuthStep::FetchToken, .. }, SessionEvent::TokenFetched(_)) => true,
        (Stage::Authenticate { step: AuthStep::SaveToken, .. }, SessionEvent::TokenSaved(_)) => true,
        (Stage::Authenticate { step: AuthStep::CheckPlayback, .. }, SessionEvent::Playback(_)) => true,
        (Stage::Authenticate { step: AuthStep::ShowProgress, .. }, SessionEvent::ProgressShown) => true,
        (Stage::Refresh, SessionEvent::Refreshed(_)) => true,
        (Stage::Devices, SessionEvent::Devices(_)) => true,
        (Stage::StartPlayback, SessionEvent::PlaybackStarted(_)) => true,
        (Stage::NowPlaying, SessionEvent::Playback(_)) => true,
        _ => false,
    }
}

/// One step of a session on playlist `pid`: from `stage`, event `e` leads to
/// stage `next`, with the lines and request of `out`.
pub open spec fn session_step(stage: Stage, pid: Seq<char>, e: SessionEvent, next: Stage, out: Step) -> bool {
    &&& accepts(stage, e)
    &&& match (stage, e) {
        (Stage::LoadToken, SessionEvent::TokenLoaded(loaded)) => {
            &&& lines_view(out.lines) == Seq::<(bool, Seq<char>)>::empty()
            &&& if loaded {
                next == Stage::Refresh && out.request is RefreshToken
            } else {
                next == (Stage::Authenticate { again: false, step: AuthStep::AuthorizeUrl })
                    && out.request is AuthorizeUrl
            }
        },
        (Stage::Authenticate { again, .. }, SessionEvent::AuthorizeUrl(Ok(url))) => {
            &&& next == (Stage::Authenticate { again, step: AuthStep::ReadCode })
            &&& lines_view(out.lines) == seq![
                (false, "Please open this URL in your browser: "@ + url@ + "\n"@),
                (false, "After authenticating, paste the code from the URL here:"@),
            ]
            &&& out.request is ReadCode
        },
        (Stage::Authenticate { again, .. }, SessionEvent::CodeRead(Ok(code))) => {
            &&& next == (Stage::Authenticate { again, step: AuthStep::RequestToken })
            &&& lines_view(out.lines) == Seq::<(bool, Seq<char>)>::empty()
            &&& out.request matches Request::RequestToken(c) && c@ == code@
        },
        (Stage::Authenticate { again, .. }, SessionEvent::TokenRequested(Ok(()))) => {
            &&& next == (Stage::Authenticate { again, step: AuthStep::FetchToken })
            &&& lines_view(out.lines) == Seq::<(bool, Seq<char>)>::empty()
            &&& out.request is FetchToken
        },
        (Stage::Authenticate { again, .. }, SessionEvent::TokenFetched(present)) => {
            if present {
                &&& next == (Stage::Authenticate { again, step: AuthStep::SaveToken })
                &&& lines_view(out.lines) == Seq::<(bool, Seq<char>)>::empty()
                &&& out.request is SaveToken
            } else {
                &&& next == Stage::Done
                &&& lines_view(out.lines) == seq![
                    (true, auth_failure_text(again, "Failed to get access token"@)),
                ]
                &&& out.request is Finish
            }
        },
        (Stage::Authenticate { again, .. }, SessionEvent::TokenSaved(Ok(()))) => {
            &&& next == (Stage::Authenticate { again, step: AuthStep::CheckPlayback })
            &&& lines_view(out.lines) == Seq::<(bool, Seq<char>)>::empty()
            &&& out.request is CurrentPlayback
        },
        (Stage::Authenticate { again, .. }, SessionEvent::AuthorizeUrl(Err(err)))
        | (Stage::Authenticate { again, .. }, SessionEvent::CodeRead(Err(err)))
        | (Stage::Authenticate { again, .. }, SessionEvent::TokenRequested(Err(err)))
        | (Stage::Authenticate { again, .. }, SessionEvent::TokenSaved(Err(err))) => {
            &&& next == Stage::Done
            &&& lines_view(out.lines) == seq![(true, auth_failure_text(again, err@))]
            &&& out.request is Finish
        },
        (Stage::Authenticate { again, .. }, SessionEvent::Playback(p)) => {
            match p {
                Some(
                    PlaybackState { item: Some(PlayingItem::Track { name, duration_ms }), progress_ms: Some(pr) },
                ) => {
                    &&& next == (Stage::Authenticate { again, step: AuthStep::ShowProgress })
                    &&& lines_view(out.lines) == Seq::<(bool, Seq<char>)>::empty()
                    &&& out.request matches Request::ShowProgress { track_name, progress_ms, duration_ms: d }
                        && track_name@ == name@ && progress_ms == (pr as u32) as u64 && d
                        == duration_ms as u32
                },
                Some(PlaybackState { item: Some(PlayingItem::Episode { name }), .. }) => {
                    &&& next == after_auth(again)
                    &&& lines_view(out.lines) == seq![(false, "Playing episode: "@ + name@)]
                    &&& after_auth_request(again, out.request)
                },
                _ => {
                    &&& next == after_auth(again)
                    &&& lines_view(out.lines) == Seq::<(bool, Seq<char>)>::empty()
                    &&& after_auth_request(again, out.request)
                },
            }
        },
        (Stage::Authenticate { again, .. }, SessionEvent::ProgressShown) => {
            &&& next == after_auth(again)
            &&& lines_view(out.lines) == Seq::<(bool, Seq<char>)>::empty()
            &&& after_auth_request(again, out.request)
        },
        (Stage::Refresh, SessionEvent::Refreshed(ok)) => {
            &&& lines_view(out.lines) == Seq::<(bool, Seq<char>)>::empty()
            &&& if ok {
                next == Stage::Devices && out.request is ListDevices
            } else {
                next == (Stage::Authenticate { again: true, step: AuthStep::AuthorizeUrl })
                    && out.request is AuthorizeUrl
            }
        },
        (Stage::Devices, SessionEvent::Devices(ds)) => {
            if ds@.len() == 0 {
                &&& next == Stage::Done
                &&& lines_view(out.lines) == seq![
                    (false, "No active devices found. Open the Spotify app and try again."@),
                ]
                &&& out.request is Finish
            } else {
                &&& lines_view(out.lines) == device_lines(ds@)
                &&& if valid_playlist_id(pid) {
                    &&& next == Stage::StartPlayback
                    &&& out.request matches Request::StartPlayback { playlist_id, device_id }
                        && playlist_id@ == pid && match (device_id, ds@[0].id) {
                        (Some(a), Some(b)) => a@ == b@,
                        (None, None) => true,
                        _ => false,
                    }
                } else {
                    &&& next == Stage::Done
                    &&& out.request matches Request::Abort(m) && m@ == "Invalid playlist ID"@
                }
            }
        },
        (Stage::StartPlayback, SessionEvent::PlaybackStarted(r)) => match r {
            Ok(()) => {
                &&& next == Stage::NowPlaying
                &&& lines_view(out.lines) == Seq::<(bool, Seq<char>)>::empty()
                &&& out.request is CurrentPlayback
            },
            Err(err) => {
                &&& next == Stage::Done
                &&& lines_view(out.lines) == seq![(true, "Error starting playback: "@ + err@)]
                &&& out.request is Finish
            },
        },
        (Stage::NowPlaying, SessionEvent::Playback(p)) => {
            &&& next == Stage::Done
            &&& lines_view(out.lines) == seq![(false, playback_report(p))]
            &&& out.request is Finish
        },
        _ => false,
    }
}

/// A session that plays one playlist.
pub struct PlaySession {
    playlist_id: String,
    stage: Stage,
}

fn one_line(to_stderr: bool, text: String) -> (v: Vec<Line>)
    ensures
        lines_view(v) == seq![(to_stderr, text@)],
{
    let mut v: Vec<Line> = Vec::new();
    v.push(Line { to_stderr, text });
    assert(lines_view(v) =~= seq![(to_stderr, text@)]);
    v
}

fn no_lines() -> (v: Vec<Line>)
    ensures
        lines_view(v) == Seq::<(bool, Seq<char>)>::empty(),
{
    let v: Vec<Line> = Vec::new();
    assert(lines_view(v) =~= Seq::<(bool, Seq<char>)>::empty());
    v
}

fn auth_failure(again: bool, e: &str) -> (s: Step)
    ensures
        lines_view(s.lines) == seq![(true, auth_failure_text(again, e@))],
        s.request is Finish,
{
    let text = if again {
        join2("Error re-authenticating Spotify: ", e)
    } else {
        join2("Error authenticating Spotify: ", e)
    };
    Step { lines: one_line(true, text), request: Request::Finish }
}

fn after_auth_step(again: bool, lines: Vec<Line>) -> (r: (Stage, Step))
    ensures
        r.0 == after_auth(again),
        after_auth_request(again, r.1.request),
        r.1.lines == lines,
{
    if again {
        (Stage::Devices, Step { lines, request: Request::ListDevices })
    } else {
        (Stage::Refresh, Step { lines, request: Request::RefreshToken })
    }
}

fn device_line(d: &Device) -> (s: String)
    ensures
        s@ == device_text(*d),
{
    match &d.id {
        Some(id) => join3(id.as_str(), " - ", d.name.as_str()),
        None => join3("Unknown ID", " - ", d.name.as_str()),
    }
}

fn list_devices(ds: &Vec<Device>) -> (v: Vec<Line>)
    ensures
        lines_view(v) == device_lines(ds@),
{
    let mut v: Vec<Line> = Vec::new();
    v.push(Line { to_stderr: false, text: String::from_str("Active devices:") });
    let n = ds.len();
    let mut i: usize = 0;
    while i < n
        invariant
            n == ds@.len(),
            i <= n,
            v@.len() == i + 1,
            lines_view(v) == seq![(false, "Active devices:"@)] + device_entries(ds@.subrange(0, i as int)),
        decreases n - i,
    {
        let text = device_line(&ds[i]);
        let ghost before = v@;
        v.push(Line { to_stderr: false, text });
        assert(seq_lines_view(v@) =~= seq_lines_view(before).push((false, device_text(ds@[i as int]))));
        assert(device_entries(ds@.subrange(0, i + 1)) =~= device_entries(ds@.subrange(0, i as int)).push(
            (false, device_text(ds@[i as int])),
        ));
        i += 1;
    }
    assert(ds@.subrange(0, n as int) =~= ds@);
    v
}

fn report_playback(p: Option<PlaybackState>) -> (s: String)
    ensures
        s@ == playback_report(p),
{
    match p {
        None => String::from_str("No current playback."),
        Some(st) => match st.item {
            None => String::from_str("No track or episode is currently playing."),
            Some(PlayingItem::Track { name, .. }) => join2("Playing: ", name.as_str()),
            Some(PlayingItem::Episode { name }) => join2("Playing episode: ", name.as_str()),
        },
    }
}

impl PlaySession {
    /// The playlist the session is to play.
    pub closed spec fn spec_playlist_id(&self) -> Seq<char> {
        self.playlist_id@
    }

    /// Where the session stands.
    pub closed spec fn spec_stage(&self) -> Stage {
        self.stage
    }

    /// A session for `playlist_id`, and its first request: load the saved token.
    pub fn new(playlist_id: String) -> (r: (PlaySession, Request))
        ensures
            r.0.spec_playlist_id() == playlist_id@,
            r.0.spec_stage() == Stage::LoadToken,
            r.1 is LoadToken,
    {
        (PlaySession { playlist_id, stage: Stage::LoadToken }, Request::LoadToken)
    }

    /// Where the session stands.
    pub fn stage(&self) -> (s: Stage)
        ensures
            s == self.spec_stage(),
    {
        self.stage
    }

    /// Whether the session, where it stands, takes `e`.
    pub fn accepts(&self, e: &SessionEvent) -> (ok: bool)
        ensures
            ok == accepts(self.spec_stage(), *e),
    {
        match (self.stage, e) {
            (Stage::LoadToken, SessionEvent::TokenLoaded(_)) => true,
            (Stage::Authenticate { step: AuthStep::AuthorizeUrl, .. }, SessionEvent::AuthorizeUrl(_)) => true,
            (Stage::Authenticate { step: AuthStep::ReadCode, .. }, SessionEvent::CodeRead(_)) => true,
            (Stage::Authenticate { step: AuthStep::RequestToken, .. }, SessionEvent::TokenRequested(_)) => true,
            (Stage::Authenticate { step: AuthStep::FetchToken, .. }, SessionEvent::TokenFetched(_)) => true,
            (Stage::Authenticate { step: AuthStep::SaveToken, .. }, SessionEvent::TokenSaved(_)) => true,
            (Stage::Authenticate { step: AuthStep::CheckPlayback, .. }, SessionEvent::Playback(_)) => true,
            (Stage::Authenticate { step: AuthStep::ShowProgress, .. }, SessionEvent::ProgressShown) => true,
            (Stage::Refresh, SessionEvent::Refreshed(_)) => true,
            (Stage::Devices, SessionEvent::Devices(_)) => true,
            (Stage::StartPlayback, SessionEvent::PlaybackStarted(_)) => true,
            (Stage::NowPlaying, SessionEvent::Playback(_)) => true,
            _ => false,
        }
    }

    /// Takes the report of the last request and decides what to print and
    /// what to ask for next.
    pub fn step(&mut self, e: SessionEvent) -> (out: Step)
        requires
            accepts(old(self).spec_stage(), e),
        ensures
            session_step(old(self).spec_stage(), old(self).spec_playlist_id(), e, final(self).spec_stage(), out),
            final(self).spec_playlist_id() == old(self).spec_playlist_id(),
    {
        let again = match self.stage {
            Stage::Authenticate { again, .. } => again,
            _ => false,
        };
        match e {
            SessionEvent::TokenLoaded(loaded) => {
                if loaded {
                    self.stage = Stage::Refresh;
                    Step { lines: no_lines(), request: Request::RefreshToken }
                } else {
                    self.stage = Stage::Authenticate { again: false, step: AuthStep::AuthorizeUrl };
                    Step { lines: no_lines(), request: Request::AuthorizeUrl }
                }
            },
            SessionEvent::AuthorizeUrl(Ok(url)) => {
                self.stage = Stage::Authenticate { again, step: AuthStep::ReadCode };
                let mut lines: Vec<Line> = Vec::new();
                lines.push(Line { to_stderr: false, text: join3("Please open this URL in your browser: ", url.as_str(), "\n") });
                lines.push(Line { to_stderr: false, text: String::from_str("After authenticating, paste the code from the URL here:") });
                assert(lines_view(lines) =~= seq![
                    (false, "Please open this URL in your browser: "@ + url@ + "\n"@),
                    (false, "After authenticating, paste the code from the URL here:"@),
                ]);
                Step { lines, request: Request::ReadCode }
            },
            SessionEvent::CodeRead(Ok(code)) => {
                self.stage = Stage::Authenticate { again, step: AuthStep::RequestToken };
                Step { lines: no_lines(), request: Request::RequestToken(code) }
            },
            SessionEvent::TokenRequested(Ok(())) => {
                self.stage = Stage::Authenticate { again, step: AuthStep::FetchToken };
                Step { lines: no_lines(), request: Request::FetchToken }
            },
            SessionEvent::TokenFetched(present) => {
                if present {
                    self.stage = Stage::Authenticate { again, step: AuthStep::SaveToken };
                    Step { lines: no_lines(), request: Request::SaveToken }
                } else {
                    self.stage = Stage::Done;
                    proof {
                        reveal_strlit("Failed to get access token");
                    }
                    auth_failure(again, "Failed to get access token")
                }
            },
            SessionEvent::TokenSaved(Ok(())) => {
                self.stage = Stage::Authenticate { again, step: AuthStep::CheckPlayback };
                Step { lines: no_lines(), request: Request::CurrentPlayback }
            },
            SessionEvent::AuthorizeUrl(Err(err))
            | SessionEvent::CodeRead(Err(err))
            | SessionEvent::TokenRequested(Err(err))
            | SessionEvent::TokenSaved(Err(err)) => {
                self.stage = Stage::Done;
                auth_failure(again, err.as_str())
            },
            SessionEvent::Playback(p) => {
                if matches!(self.stage, Stage::NowPlaying) {
                    self.stage = Stage::Done;
                    let text = report_playback(p);
                    Step { lines: one_line(false, text), request: Request::Finish }
                } else {
                    match p {
                        Some(PlaybackState { item: Some(PlayingItem::Track { name, duration_ms }), progress_ms: Some(pr) }) => {
                            self.stage = Stage::Authenticate { again, step: AuthStep::ShowProgress };
                            let progress_ms = (pr as u32) as u64;
                            Step {
                                lines: no_lines(),
                                request: Request::ShowProgress { track_name: name, progress_ms, duration_ms: duration_ms as u32 },
                            }
                        },
                        Some(PlaybackState { item: Some(PlayingItem::Episode { name }), .. }) => {
                            let (next, out) = after_auth_step(again, one_line(false, join2("Playing episode: ", name.as_str())));
                            self.stage = next;
                            out
                        },
                        _ => {
                            let (next, out) = after_auth_step(again, no_lines());
                            self.stage = next;
                            out
                        },
                    }
                }
            },
            SessionEvent::ProgressShown => {
                let (next, out) = after_auth_step(again, no_lines());
                self.stage = next;
                out
            },
            SessionEvent::Refreshed(ok) => {
                if ok {
                    self.stage = Stage::Devices;
                    Step { lines: no_lines(), request: Request::ListDevices }
                } else {
                    self.stage = Stage::Authenticate { again: true, step: AuthStep::AuthorizeUrl };
                    Step { lines: no_lines(), request: Request::AuthorizeUrl }
                }
            },
            SessionEvent::Devices(ds) => {
                if ds.len() == 0 {
                    self.stage = Stage::Done;
                    Step {
                        lines: one_line(false, String::from_str("No active devices found. Open the Spotify app and try again.")),
                        request: Request::Finish,
                    }
                } else {
                    let lines = list_devices(&ds);
                    if playlist_id_accepted(self.playlist_id.as_str()) {
                        self.stage = Stage::StartPlayback;
                        let device_id = match &ds[0].id {
                            Some(id) => Some(id.clone()),
                            None => None,
                        };
                        Step {
                            lines,
                            request: Request::StartPlayback { playlist_id: self.playlist_id.clone(), device_id },
                        }
                    } else {
                        self.stage = Stage::Done;
                        Step { lines, request: Request::Abort(String::from_str("Invalid playlist ID")) }
                    }
                }
            },
            SessionEvent::PlaybackStarted(r) => match r {
                Ok(()) => {
                    self.stage = Stage::NowPlaying;
                    Step { lines: no_lines(), request: Request::CurrentPlayback }
                },
                Err(err) => {
                    self.stage = Stage::Done;
                    Step { lines: one_line(true, join2("Error starting playback: ", err.as_str())), request: Request::Finish }
                },
            },
        }
    }
}

/// How far a stage is from the end of the session; every step lowers it.
pub open spec fn stage_rank(s: Stage) -> nat {
    match s {
        Stage::LoadToken => 20,
        Stage::Authenticate { again, step } => {
            let base: nat = if again { 5 } else { 13 };
            base + match step {
                AuthStep::AuthorizeUrl => 6nat,
                AuthStep::ReadCode => 5nat,
                AuthStep::RequestToken => 4nat,
                AuthStep::FetchToken => 3nat,
                AuthStep::SaveToken => 2nat,
                AuthStep::CheckPlayback => 1nat,
                AuthStep::ShowProgress => 0nat,
            }
        },
        Stage::Refresh => 12,
        Stage::Devices => 4,
        Stage::StartPlayback => 3,
        Stage::NowPlaying => 2,
        Stage::Done => 0,
    }
}

/// Every session ends: each step moves to a stage of lower rank, so a session
/// takes at most twenty steps, and an ended session takes no further event.
pub proof fn law_session_progresses(stage: Stage, pid: Seq<char>, e: SessionEvent, next: Stage, out: Step)
    requires
        session_step(stage, pid, e, next, out),
    ensures
        stage_rank(next) < stage_rank(stage),
        !accepts(Stage::Done, e),
{
}

/// The session ends exactly when it asks to finish or to abort.
pub proof fn law_ends_with_final_request(stage: Stage, pid: Seq<char>, e: SessionEvent, next: Stage, out: Step)
    requires
        session_step(stage, pid, e, next, out),
    ensures
        next == Stage::Done <==> (out.request is Finish || out.request is Abort),
{
}

/// Playback is only ever started on the session's playlist, when it is a valid
/// id, and on the first device listed.
pub proof fn law_playback_target(stage: Stage, pid: Seq<char>, e: SessionEvent, next: Stage, out: Step)
    requires
        session_step(stage, pid, e, next, out),
        out.request is StartPlayback,
    ensures
        valid_playlist_id(pid),
        out.request matches Request::StartPlayback { playlist_id, device_id } && playlist_id@ == pid
            && (e matches SessionEvent::Devices(ds) && ds@.len() > 0 && crate::watcher::opt_view(device_id)
            == crate::watcher::opt_view(ds@[0].id)),
{
}

/// The token is refreshed only after it was loaded or after the first round
/// of authentication, and a second round follows only a failed refresh.
pub proof fn law_second_round_follows_failed_refresh(stage: Stage, pid: Seq<char>, e: SessionEvent, next: Stage, out: Step)
    requires
        session_step(stage, pid, e, next, out),
    ensures
        next matches Stage::Authenticate { again: true, step: AuthStep::AuthorizeUrl } ==> stage == Stage::Refresh
            && e == SessionEvent::Refreshed(false),
        out.request is RefreshToken ==> stage == Stage::LoadToken || stage matches Stage::Authenticate { again: false, .. },
{
}

} // verus!

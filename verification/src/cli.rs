//! The command line: what each subcommand does, and the plan of the setup
//! that stores the Spotify credentials in the shell profile.
use vstd::prelude::*;
use vstd::string::*;

use crate::text::{
    all_digits, contains, decimal, decimal_string, decimal_value, digit_value, has_infix, is_digit,
    join2, lemma_decimal_len, lemma_decimal_reads_back,
};

verus! {

/// The view of an optional string slice.
pub open spec fn opt_str_view(o: Option<&str>) -> Option<Seq<char>> {
    match o {
        Some(s) => Some(s@),
        None => None,
    }
}

/// Tilde expansion with home directory `home` (`None` when it is unknown): a
/// leading `~` alone or before `/` becomes the home directory; any other
/// input, and any input when the home directory is unknown, stays as it is.
pub open spec fn tilde_expanded(input: Seq<char>, home: Option<Seq<char>>) -> Seq<char> {
    if input.len() > 0 && input[0] == '~' && (input.len() == 1 || input[1] == '/') {
        match home {
            Some(h) => h + input.subrange(1, input.len() as int),
            None => input,
        }
    } else {
        input
    }
}

/// What `shellexpand` gives for `input`: `tilde_expanded`, except that a
/// leading `~\\` is expanded on Windows only, so there either result may come.
pub open spec fn tilde_result(input: Seq<char>, home: Option<Seq<char>>, r: Seq<char>) -> bool {
    if input.len() > 1 && input[0] == '~' && input[1] == '\\' {
        r == input || (home matches Some(h) && r == h + input.subrange(1, input.len() as int))
    } else {
        r == tilde_expanded(input, home)
    }
}

/// Calls `shellexpand::tilde_with_context` on `input`, with `home` as the
/// home directory. The contract claims what its source shows: a leading `~`
/// that stands alone or before `/` (or before `\\`, on Windows only) is
/// replaced by `home` when it is known, and every other input comes back
/// unchanged.
#[verifier::external_body]
fn expand_tilde(input: &str, home: Option<&str>) -> (r: String)
    ensures
        tilde_result(input@, opt_str_view(home), r@),
{
    shellexpand::tilde_with_context(input, || home).into_owned()
}

/// The shell that is assumed when none is known.
pub open spec fn default_shell() -> Seq<char> {
    "/bin/bash"@
}

/// The profile file of `shell`: the zsh one for a shell whose path names zsh,
/// else the bash one.
pub open spec fn profile_for(shell: Seq<char>) -> Seq<char> {
    if has_infix(shell, "zsh"@) {
        "~/.zshrc"@
    } else {
        "~/.bashrc"@
    }
}

/// The lines appended to the profile to export the credentials.
pub open spec fn export_text(client_id: Seq<char>, client_secret: Seq<char>, redirect_uri: Seq<char>) -> Seq<char> {
    "\nexport RSPOTIFY_CLIENT_ID="@ + client_id + "\nexport RSPOTIFY_CLIENT_SECRET="@ + client_secret
        + "\nexport RSPOTIFY_REDIRECT_URI="@ + redirect_uri + "\n"@
}

/// A subcommand with its arguments.
pub enum CliCommand {
    /// Store the credentials; `shell` is the user's shell, when known.
    Setup {
        client_id: String,
        client_secret: String,
        redirect_uri: String,
        shell: Option<String>,
        home: Option<String>,
    },
    Start { verbose: bool },
    Stop,
    /// No valid subcommand was given.
    Missing,
}

/// What setting up does: the variables to set, and the profile to back up
/// and append to.
pub struct SetupPlan {
    /// Environment variables to set, as (name, value).
    pub env_vars: Vec<(String, String)>,
    /// The profile file as the user writes it.
    pub profile: String,
    /// The profile file with the home directory expanded.
    pub profile_path: String,
    /// Where the profile is copied before it is changed.
    pub backup_path: String,
    /// The text appended to the profile.
    pub export_commands: String,
    /// The message that confirms the setup.
    pub confirmation: String,
    /// The message that tells where the backup is.
    pub backup_notice: String,
}

/// What a subcommand leads to.
pub enum CliAction {
    Configure(SetupPlan),
    /// Announce, then launch `program` with `args`.
    Launch { announcement: String, program: String, args: Vec<String> },
    /// Announce, then stop the running daemon, whose process id is recorded
    /// in `pid_file` (see `stop_plan`).
    Stop { announcement: String, pid_file: String },
    /// Report and exit with `exit_code`.
    Fail { message: String, exit_code: i32 },
}

/// `p` is the plan of the setup for these credentials, this shell and this
/// home directory (`None` when unknown): it sets the three `RSPOTIFY_*`
/// variables, picks the profile of the shell, backs it up beside itself
/// under the `.backup` suffix, appends the exports to it, and reports both.
pub open spec fn is_setup_plan(
    client_id: Seq<char>,
    client_secret: Seq<char>,
    redirect_uri: Seq<char>,
    shell: Option<Seq<char>>,
    home: Option<Seq<char>>,
    p: SetupPlan,
) -> bool {
    &&& p.env_vars@.len() == 3
    &&& p.env_vars@[0].0@ == "RSPOTIFY_CLIENT_ID"@ && p.env_vars@[0].1@ == client_id
    &&& p.env_vars@[1].0@ == "RSPOTIFY_CLIENT_SECRET"@ && p.env_vars@[1].1@ == client_secret
    &&& p.env_vars@[2].0@ == "RSPOTIFY_REDIRECT_URI"@ && p.env_vars@[2].1@ == redirect_uri
    &&& p.profile@ == profile_for(
        match shell {
            Some(s) => s,
            None => default_shell(),
        },
    )
    &&& p.profile_path@ == tilde_expanded(p.profile@, home)
    &&& p.backup_path@ == p.profile_path@ + ".backup"@
    &&& p.export_commands@ == export_text(client_id, client_secret, redirect_uri)
    &&& p.confirmation@ == "Spotify API keys and redirect URI have been set up and saved to "@
        + p.profile@
    &&& p.backup_notice@ == "Backup do arquivo de perfil criado em: "@ + p.backup_path@
}

/// Whatever the shell and the home directory, setting up appends the same
/// three exports to the profile: the client id, the client secret and the
/// redirect URI, each on a line of its own, between blank-line separators.
pub proof fn law_setup_exports_all_credentials(
    client_id: Seq<char>,
    client_secret: Seq<char>,
    redirect_uri: Seq<char>,
    shell: Option<Seq<char>>,
    home: Option<Seq<char>>,
    p: SetupPlan,
    other_shell: Option<Seq<char>>,
    other_home: Option<Seq<char>>,
    q: SetupPlan,
)
    requires
        is_setup_plan(client_id, client_secret, redirect_uri, shell, home, p),
        is_setup_plan(client_id, client_secret, redirect_uri, other_shell, other_home, q),
    ensures
        p.export_commands@ == q.export_commands@,
        p.export_commands@ == "\nexport RSPOTIFY_CLIENT_ID="@ + client_id + "\nexport RSPOTIFY_CLIENT_SECRET="@
            + client_secret + "\nexport RSPOTIFY_REDIRECT_URI="@ + redirect_uri + "\n"@,
{
}

/// The plan of the setup for the given credentials, shell and home directory.
pub fn setup_plan(
    client_id: &str,
    client_secret: &str,
    redirect_uri: &str,
    shell: Option<&str>,
    home: Option<&str>,
) -> (p: SetupPlan)
    ensures
        is_setup_plan(
            client_id@,
            client_secret@,
            redirect_uri@,
            opt_str_view(shell),
            opt_str_view(home),
            p,
        ),
{
    proof {
        reveal_strlit("~/.zshrc");
        reveal_strlit("~/.bashrc");
    }
    let mut env_vars: Vec<(String, String)> = Vec::new();
    env_vars.push((String::from_str("RSPOTIFY_CLIENT_ID"), String::from_str(client_id)));
    env_vars.push((String::from_str("RSPOTIFY_CLIENT_SECRET"), String::from_str(client_secret)));
    env_vars.push((String::from_str("RSPOTIFY_REDIRECT_URI"), String::from_str(redirect_uri)));
    let uses_zsh = match shell {
        Some(s) => contains(s, "zsh"),
        None => contains("/bin/bash", "zsh"),
    };
    let profile = if uses_zsh {
        String::from_str("~/.zshrc")
    } else {
        String::from_str("~/.bashrc")
    };
    let profile_path = expand_tilde(profile.as_str(), home);
    let backup_path = join2(profile_path.as_str(), ".backup");
    let mut export_commands = join2("\nexport RSPOTIFY_CLIENT_ID=", client_id);
    export_commands.append("\nexport RSPOTIFY_CLIENT_SECRET=");
    export_commands.append(client_secret);
    export_commands.append("\nexport RSPOTIFY_REDIRECT_URI=");
    export_commands.append(redirect_uri);
    export_commands.append("\n");
    let confirmation = join2(
        "Spotify API keys and redirect URI have been set up and saved to ",
        profile.as_str(),
    );
    let backup_notice = join2("Backup do arquivo de perfil criado em: ", backup_path.as_str());
    SetupPlan {
        env_vars,
        profile,
        profile_path,
        backup_path,
        export_commands,
        confirmation,
        backup_notice,
    }
}

/// The file, in the configuration directory, where the running daemon
/// records its process id.
pub open spec fn pid_file_spec() -> Seq<char> {
    "branchfy.pid"@
}

/// The name of the file where the running daemon records its process id.
pub fn pid_file_name() -> (r: String)
    ensures
        r@ == pid_file_spec(),
{
    String::from_str("branchfy.pid")
}

/// The process id that a pid file holding `t` names: `t` must be a
/// non-empty run of decimal digits whose number fits in a `u32`.
pub open spec fn parsed_pid(t: Seq<char>) -> Option<u32> {
    if t.len() > 0 && all_digits(t) && decimal_value(t) <= u32::MAX {
        Some(decimal_value(t) as u32)
    } else {
        None
    }
}

/// The text the daemon records in its pid file.
pub fn pid_record(pid: u32) -> (r: String)
    ensures
        r@ == decimal(pid as nat),
        parsed_pid(r@) == Some(pid),
{
    proof {
        law_pid_round_trip(pid);
    }
    decimal_string(pid)
}

/// Reads a process id back from the text of a pid file.
pub fn parse_pid(text: &str) -> (r: Option<u32>)
    ensures
        r == parsed_pid(text@),
{
    let n = text.unicode_len();
    if n == 0 {
        return None;
    }
    let mut acc: u64 = 0;
    let mut i: usize = 0;
    assert(text@.take(0) =~= Seq::<char>::empty());
    while i < n
        invariant
            n == text@.len(),
            0 < n,
            i <= n,
            all_digits(text@.take(i as int)),
            acc == decimal_value(text@.take(i as int)),
            acc <= u32::MAX,
        decreases n - i,
    {
        let c = text.get_char(i);
        let code = c as u32;
        if code < 48 || code > 57 {
            assert(!is_digit(text@[i as int]));
            return None;
        }
        let ghost before = text@.take(i as int);
        let ghost after = text@.take(i + 1);
        assert(after.drop_last() =~= before);
        assert(after.last() == c);
        acc = acc * 10 + (code - 48) as u64;
        assert(acc == decimal_value(after));
        assert forall|j: int| 0 <= j < after.len() implies is_digit(#[trigger] after[j]) by {
            if j < i {
                assert(after[j] == before[j]);
            }
        }
        if acc > 0xffff_ffff {
            proof {
                if all_digits(text@) {
                    lemma_value_of_prefix(text@, i + 1);
                }
            }
            return None;
        }
        i += 1;
    }
    assert(text@.take(n as int) =~= text@);
    Some(acc as u32)
}

/// A longer run of digits is worth at least as much as its prefix.
proof fn lemma_value_of_prefix(t: Seq<char>, i: int)
    requires
        0 <= i <= t.len(),
        all_digits(t),
    ensures
        decimal_value(t) >= decimal_value(t.take(i)),
    decreases t.len(),
{
    if i < t.len() {
        let init = t.drop_last();
        assert forall|j: int| 0 <= j < init.len() implies is_digit(#[trigger] init[j]) by {
            assert(init[j] == t[j]);
        }
        lemma_value_of_prefix(init, i);
        assert(init.take(i) =~= t.take(i));
        assert(decimal_value(t) == decimal_value(init) * 10 + digit_value(t.last()));
    } else {
        assert(t.take(i) =~= t);
    }
}

/// What the recorded pid is read back as: the pid itself.
pub proof fn law_pid_round_trip(pid: u32)
    ensures
        parsed_pid(decimal(pid as nat)) == Some(pid),
{
    lemma_decimal_reads_back(pid as nat);
    lemma_decimal_len(pid as nat);
}

/// What stopping does.
pub enum StopAction {
    /// Ask the process `pid`, the running daemon, to terminate.
    Signal { pid: u32 },
    /// No daemon is recorded as running: report `message`.
    NotRunning { message: String },
}

/// Stopping, given the text of the pid file (`None` when there is none): the
/// recorded daemon is signalled; without a readable pid nothing is running.
pub fn stop_plan(pid_text: Option<&str>) -> (a: StopAction)
    ensures
        match pid_text {
            Some(t) => match parsed_pid(t@) {
                Some(pid) => a == (StopAction::Signal { pid }),
                None => a matches StopAction::NotRunning { message } && message@
                    == "Branchfy is not running."@,
            },
            None => a matches StopAction::NotRunning { message } && message@
                == "Branchfy is not running."@,
        },
{
    let parsed = match pid_text {
        Some(t) => parse_pid(t),
        None => None,
    };
    match parsed {
        Some(pid) => StopAction::Signal { pid },
        None => StopAction::NotRunning { message: String::from_str("Branchfy is not running.") },
    }
}

/// What each subcommand leads to: setup plans the profile change, start
/// announces itself and launches the daemon, stop announces itself and stops
/// the daemon recorded in the pid file, and no subcommand is a failure with
/// exit code 1.
pub fn plan_command(cmd: CliCommand) -> (a: CliAction)
    ensures
        match (cmd, a) {
            (
                CliCommand::Setup { client_id, client_secret, redirect_uri, shell, home },
                CliAction::Configure(p),
            ) => {
                is_setup_plan(
                    client_id@,
                    client_secret@,
                    redirect_uri@,
                    match shell {
                        Some(s) => Some(s@),
                        None => None,
                    },
                    match home {
                        Some(h) => Some(h@),
                        None => None,
                    },
                    p,
                )
            },
            (CliCommand::Start { verbose }, CliAction::Launch { announcement, program, args }) => {
                &&& announcement@ == (if verbose {
                    "Starting Branchfy in verbose mode..."@
                } else {
                    "Starting Branchfy in background..."@
                })
                &&& program@ == "cargo"@
                &&& args@.len() == 1
                &&& args@[0]@ == "run"@
            },
            (CliCommand::Stop, CliAction::Stop { announcement, pid_file }) => {
                &&& announcement@ == "Stopping Branchfy..."@
                &&& pid_file@ == pid_file_spec()
            },
            (CliCommand::Missing, CliAction::Fail { message, exit_code }) => {
                &&& message@ == "No valid subcommand was provided. Use --help for more information."@
                &&& exit_code == 1
            },
            _ => false,
        },
{
    match cmd {
        CliCommand::Setup { client_id, client_secret, redirect_uri, shell, home } => {
            let shell_ref: Option<&str> = match &shell {
                Some(s) => Some(s.as_str()),
                None => None,
            };
            let home_ref: Option<&str> = match &home {
                Some(h) => Some(h.as_str()),
                None => None,
            };
            let plan = setup_plan(
                client_id.as_str(),
                client_secret.as_str(),
                redirect_uri.as_str(),
                shell_ref,
                home_ref,
            );
            CliAction::Configure(plan)
        },
        CliCommand::Start { verbose } => {
            let announcement = if verbose {
                String::from_str("Starting Branchfy in verbose mode...")
            } else {
                String::from_str("Starting Branchfy in background...")
            };
            let mut args: Vec<String> = Vec::new();
            args.push(String::from_str("run"));
            CliAction::Launch { announcement, program: String::from_str("cargo"), args }
        },
        CliCommand::Stop => CliAction::Stop {
            announcement: String::from_str("Stopping Branchfy..."),
            pid_file: pid_file_name(),
        },
        CliCommand::Missing => CliAction::Fail {
            message: String::from_str(
                "No valid subcommand was provided. Use --help for more information.",
            ),
            exit_code: 1,
        },
    }
}

} // verus!

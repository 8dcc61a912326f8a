use branchfy::cli::{
    parse_pid, pid_file_name, pid_record, plan_command, setup_plan, stop_plan, CliAction, CliCommand,
    StopAction,
};

#[test]
fn setup_plan_for_zsh() {
    let p = setup_plan("ID", "SECRET", "http://localhost/", Some("/usr/bin/zsh"), Some("/home/u"));
    assert_eq!(p.profile, "~/.zshrc");
    assert_eq!(p.profile_path, "/home/u/.zshrc");
    assert_eq!(p.backup_path, format!("{}.backup", p.profile_path));
    assert_eq!(
        p.export_commands,
        "\nexport RSPOTIFY_CLIENT_ID=ID\nexport RSPOTIFY_CLIENT_SECRET=SECRET\nexport RSPOTIFY_REDIRECT_URI=http://localhost/\n"
    );
    assert_eq!(p.confirmation, "Spotify API keys and redirect URI have been set up and saved to ~/.zshrc");
    assert_eq!(p.backup_notice, format!("Backup do arquivo de perfil criado em: {}", p.backup_path));
    let vars: Vec<(String, String)> = p.env_vars.clone();
    assert_eq!(
        vars,
        vec![
            ("RSPOTIFY_CLIENT_ID".to_string(), "ID".to_string()),
            ("RSPOTIFY_CLIENT_SECRET".to_string(), "SECRET".to_string()),
            ("RSPOTIFY_REDIRECT_URI".to_string(), "http://localhost/".to_string()),
        ]
    );
}

#[test]
fn setup_plan_for_bash_and_unknown_shell() {
    let p = setup_plan("a", "b", "c", Some("/bin/bash"), Some("/h"));
    assert_eq!(p.profile_path, "/h/.bashrc");
    assert_eq!(p.backup_path, "/h/.bashrc.backup");
    assert_eq!(p.profile, "~/.bashrc");
    let q = setup_plan("a", "b", "c", None, Some("/h/"));
    assert_eq!(q.profile, "~/.bashrc");
    assert_eq!(q.profile_path, "/h//.bashrc");
}

#[test]
fn plan_start_commands() {
    match plan_command(CliCommand::Start { verbose: true }) {
        CliAction::Launch { announcement, program, args } => {
            assert_eq!(announcement, "Starting Branchfy in verbose mode...");
            assert_eq!(program, "cargo");
            assert_eq!(args, vec!["run".to_string()]);
        }
        _ => panic!("expected a launch"),
    }
    match plan_command(CliCommand::Start { verbose: false }) {
        CliAction::Launch { announcement, .. } => {
            assert_eq!(announcement, "Starting Branchfy in background...")
        }
        _ => panic!("expected a launch"),
    }
}

#[test]
fn plan_stop_and_missing() {
    match plan_command(CliCommand::Stop) {
        CliAction::Stop { announcement, pid_file } => {
            assert_eq!(announcement, "Stopping Branchfy...");
            assert_eq!(pid_file, "branchfy.pid");
        }
        _ => panic!("expected a halt"),
    }
    match plan_command(CliCommand::Missing) {
        CliAction::Fail { message, exit_code } => {
            assert_eq!(message, "No valid subcommand was provided. Use --help for more information.");
            assert_eq!(exit_code, 1);
        }
        _ => panic!("expected a failure"),
    }
}

#[test]
fn plan_setup_command() {
    let cmd = CliCommand::Setup {
        client_id: "I".to_string(),
        client_secret: "S".to_string(),
        redirect_uri: "R".to_string(),
        shell: Some("zsh".to_string()),
        home: Some("/root".to_string()),
    };
    match plan_command(cmd) {
        CliAction::Configure(p) => {
            assert_eq!(p.profile, "~/.zshrc");
            assert_eq!(p.env_vars[0], ("RSPOTIFY_CLIENT_ID".to_string(), "I".to_string()));
            assert_eq!(p.env_vars[2], ("RSPOTIFY_REDIRECT_URI".to_string(), "R".to_string()));
            assert_eq!(p.profile_path, "/root/.zshrc");
            assert_eq!(p.backup_path, "/root/.zshrc.backup");
            assert_eq!(
                p.export_commands,
                "\nexport RSPOTIFY_CLIENT_ID=I\nexport RSPOTIFY_CLIENT_SECRET=S\nexport RSPOTIFY_REDIRECT_URI=R\n"
            );
        }
        _ => panic!("expected a setup plan"),
    }
}

#[test]
fn pid_file_is_named() {
    assert_eq!(pid_file_name(), "branchfy.pid");
}

#[test]
fn pid_parse_cases() {
    assert_eq!(parse_pid("1234"), Some(1234));
    assert_eq!(parse_pid("0"), Some(0));
    assert_eq!(parse_pid("4294967295"), Some(4294967295));
    assert_eq!(parse_pid("4294967296"), None);
    assert_eq!(parse_pid(""), None);
    assert_eq!(parse_pid("12a"), None);
    assert_eq!(parse_pid("-1"), None);
    assert_eq!(parse_pid("99999999999999999999x"), None);
}

#[test]
fn pid_record_reads_back() {
    assert_eq!(pid_record(4321), "4321");
    assert_eq!(parse_pid(&pid_record(4321)), Some(4321));
    assert_eq!(parse_pid(&pid_record(u32::MAX)), Some(u32::MAX));
}

#[test]
fn stop_signals_recorded_daemon() {
    match stop_plan(Some("77")) {
        StopAction::Signal { pid } => assert_eq!(pid, 77),
        _ => panic!("expected a signal"),
    }
}

#[test]
fn stop_without_daemon_reports() {
    for text in [None, Some("garbage")] {
        match stop_plan(text) {
            StopAction::NotRunning { message } => assert_eq!(message, "Branchfy is not running."),
            _ => panic!("expected nothing to stop"),
        }
    }
}

#[test]
fn setup_plan_without_home_keeps_tilde() {
    let p = setup_plan("a", "b", "c", Some("/bin/zsh"), None);
    assert_eq!(p.profile_path, "~/.zshrc");
    assert_eq!(p.backup_path, "~/.zshrc.backup");
}

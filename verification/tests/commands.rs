use pactrack::commands::{
    build_details_shell_command, build_upgrade_aur_shell_command,
    build_upgrade_official_shell_command, build_upgrade_shell_command, capture_outcome,
    command_from_words, custom_check_command, is_allowed, parse_command_string, run_capture,
    shell_join, CommandError, DetectedAurHelper, ProcessOutput, ResolvedCommand,
};
use pactrack::config::{AurHelperMode, EffectiveConfig};
use pactrack::detect::{
    detect_aur_helper, detect_aur_helper_with_path, has_binary, is_executable_file, FileProbe,
};
use pactrack::scratch::{
    aur_query_command, checkupdates_db_path_from_inputs, db_path_query_command,
    filter_pacman_qu_output, query_command, reported_db_path, sync_command,
};

fn program_file() -> FileProbe {
    FileProbe { is_file: true, mode: Some(0o100755) }
}

fn nothing_there() -> FileProbe {
    FileProbe { is_file: false, mode: None }
}

fn words(list: &[&str]) -> Vec<String> {
    list.iter().map(|w| w.to_string()).collect()
}

fn command(program: &str, args: &[&str]) -> ResolvedCommand {
    ResolvedCommand { program: program.to_string(), args: words(args) }
}

#[test]
fn auto_helper_prefers_paru_over_yay() {
    let paru = vec![program_file()];
    let yay = vec![program_file()];

    let helper = detect_aur_helper_with_path(AurHelperMode::Auto, &paru, &yay);

    assert_eq!(helper, Some(DetectedAurHelper::Paru));
}

#[test]
fn explicit_yay_requires_binary_to_exist() {
    let paru = vec![nothing_there()];
    let yay = vec![nothing_there()];
    let helper = detect_aur_helper_with_path(AurHelperMode::Yay, &paru, &yay);
    assert_eq!(helper, None);

    let yay = vec![program_file()];
    let helper = detect_aur_helper_with_path(AurHelperMode::Yay, &paru, &yay);
    assert_eq!(helper, Some(DetectedAurHelper::Yay));
}

#[test]
fn checkupdates_db_path_prefers_env_override() {
    let path = checkupdates_db_path_from_inputs(Some("/custom/check-db"), None, None);
    assert_eq!(path, "/custom/check-db");
}

#[test]
fn checkupdates_db_path_uses_tmpdir_and_uid_defaults() {
    let path = checkupdates_db_path_from_inputs(None, Some("/tmpx"), Some("1234"));
    assert_eq!(path, "/tmpx/checkup-db-1234");
}

#[test]
fn filter_pacman_qu_output_drops_bracket_lines() {
    let input = "pacman 1.0-1 -> 1.0-2\nwarning: [ignored package]\nopenssl 3.1-1 -> 3.1-2\n";
    let out = filter_pacman_qu_output(input);
    assert_eq!(out, "pacman 1.0-1 -> 1.0-2\nopenssl 3.1-1 -> 3.1-2");
}

#[test]
fn filter_keeps_lines_as_they_are_and_drops_blank_ones() {
    assert_eq!(filter_pacman_qu_output(""), "");
    assert_eq!(filter_pacman_qu_output("\n \n\t\n"), "");
    assert_eq!(filter_pacman_qu_output("  a 1 -> 2  \r\n\r\nb 1 -> 2"), "  a 1 -> 2  \nb 1 -> 2");
    assert_eq!(filter_pacman_qu_output("only [ here\nonly ] here\n] both [\n"), "only [ here\nonly ] here");
    assert_eq!(filter_pacman_qu_output("a\r"), "a\r");
}

#[test]
fn filter_agrees_with_the_lines_of_std() {
    let inputs = ["a\nb", "a\r\nb\r\n", "a\r", "\r\n", "a\n\nb\n", "x [y] z\nq\r\r\n", "\n", "a\r\n\rb"];
    for input in inputs {
        let expected = input
            .lines()
            .filter(|line| {
                let t = line.trim();
                !t.is_empty() && !(t.contains('[') && t.contains(']'))
            })
            .collect::<Vec<_>>()
            .join("\n");
        assert_eq!(filter_pacman_qu_output(input), expected);
    }
}

#[test]
fn scratch_path_falls_back_where_values_are_missing_or_blank() {
    assert_eq!(checkupdates_db_path_from_inputs(None, None, None), "/tmp/checkup-db-0");
    assert_eq!(
        checkupdates_db_path_from_inputs(Some("   "), Some(" "), Some("")),
        "/tmp/checkup-db-0"
    );
    assert_eq!(
        checkupdates_db_path_from_inputs(Some("  /custom/db \n"), Some("/tmpx"), Some("7")),
        "/custom/db"
    );
    assert_eq!(checkupdates_db_path_from_inputs(None, Some("/run/user/"), None), "/run/user/checkup-db-0");
    assert_eq!(checkupdates_db_path_from_inputs(None, None, Some("1000")), "/tmp/checkup-db-1000");
}

#[test]
fn executable_means_a_regular_file_with_an_execute_bit() {
    assert!(is_executable_file(&FileProbe { is_file: true, mode: Some(0o100755) }));
    assert!(is_executable_file(&FileProbe { is_file: true, mode: Some(0o100001) }));
    assert!(is_executable_file(&FileProbe { is_file: true, mode: Some(0o100010) }));
    assert!(is_executable_file(&FileProbe { is_file: true, mode: Some(0o100100) }));
    assert!(!is_executable_file(&FileProbe { is_file: true, mode: Some(0o100644) }));
    assert!(!is_executable_file(&FileProbe { is_file: false, mode: Some(0o040755) }));
    assert!(!is_executable_file(&FileProbe { is_file: true, mode: None }));
}

#[test]
fn a_binary_is_found_in_any_directory() {
    assert!(!has_binary(&vec![]));
    assert!(!has_binary(&vec![nothing_there(), nothing_there()]));
    assert!(has_binary(&vec![nothing_there(), program_file()]));
    assert!(has_binary(&vec![program_file(), nothing_there()]));
}

#[test]
fn auto_prefers_paru_wherever_the_two_lie() {
    let early = vec![program_file(), nothing_there()];
    let late = vec![nothing_there(), program_file()];
    assert_eq!(
        detect_aur_helper_with_path(AurHelperMode::Auto, &late, &early),
        Some(DetectedAurHelper::Paru)
    );
    assert_eq!(
        detect_aur_helper_with_path(AurHelperMode::Auto, &early, &late),
        Some(DetectedAurHelper::Paru)
    );
    let none = vec![nothing_there(), nothing_there()];
    assert_eq!(
        detect_aur_helper_with_path(AurHelperMode::Auto, &none, &late),
        Some(DetectedAurHelper::Yay)
    );
    assert_eq!(detect_aur_helper_with_path(AurHelperMode::Auto, &none, &none), None);
}

#[test]
fn modes_that_name_a_helper_look_for_no_other() {
    let there = vec![program_file()];
    let missing = vec![nothing_there()];
    assert_eq!(detect_aur_helper_with_path(AurHelperMode::Paru, &missing, &there), None);
    assert_eq!(
        detect_aur_helper_with_path(AurHelperMode::Paru, &there, &there),
        Some(DetectedAurHelper::Paru)
    );
    assert_eq!(detect_aur_helper_with_path(AurHelperMode::Off, &there, &there), None);
}

#[test]
fn no_helper_where_the_user_repository_is_off() {
    let there = vec![program_file()];
    assert_eq!(detect_aur_helper(AurHelperMode::Auto, false, &there, &there), None);
    assert_eq!(
        detect_aur_helper(AurHelperMode::Auto, true, &there, &there),
        Some(DetectedAurHelper::Paru)
    );
}

#[test]
fn helper_binaries() {
    assert_eq!(DetectedAurHelper::Paru.binary(), "paru");
    assert_eq!(DetectedAurHelper::Yay.binary(), "yay");
}

#[test]
fn exit_code_must_be_there_and_allowed() {
    assert!(is_allowed(Some(0), &[0]));
    assert!(is_allowed(Some(1), &[0, 1]));
    assert!(is_allowed(Some(2), &[0, 2]));
    assert!(!is_allowed(Some(1), &[0]));
    assert!(!is_allowed(Some(1), &[0, 2]));
    assert!(!is_allowed(None, &[0, 1]));
    assert!(!is_allowed(Some(0), &[]));
    assert!(!is_allowed(Some(-1), &[0]));
}

#[test]
fn run_succeeds_on_allowed_code_and_trims_stderr() {
    let cmd = command("pacman", &["-Qu"]);
    let out = capture_outcome(&cmd, &[0, 1], Some(1), "listing\n".to_string(), "  warn \n")
        .expect("1 is allowed");
    assert_eq!(out.stdout, "listing\n");
    assert_eq!(out.stderr, "warn");
}

#[test]
fn run_fails_with_nonzero_on_other_codes() {
    let cmd = command("pacman", &["-Qu", "two words"]);
    let err = capture_outcome(&cmd, &[0, 1], Some(3), String::new(), " boom\n").unwrap_err();
    assert_eq!(
        err,
        CommandError::NonZero {
            command: "pacman -Qu 'two words'".to_string(),
            status: 3,
            stderr: "boom".to_string(),
        }
    );
    assert_eq!(err.message(), "command `pacman -Qu 'two words'` exited with 3: boom");
}

#[test]
fn run_without_exit_code_fails_with_minus_one_and_placeholder() {
    let cmd = command("fakeroot", &["--", "pacman"]);
    let err = capture_outcome(&cmd, &[0], None, "out".to_string(), " \n").unwrap_err();
    assert_eq!(
        err,
        CommandError::NonZero {
            command: "fakeroot -- pacman".to_string(),
            status: -1,
            stderr: "<no stderr>".to_string(),
        }
    );
    assert_eq!(err.message(), "command `fakeroot -- pacman` exited with -1: <no stderr>");
}

#[test]
fn run_capture_reads_bytes_as_text() {
    let cmd = command("pacman", &[]);
    let spawned = Ok(ProcessOutput {
        code: Some(0),
        stdout: vec![b'a', 0xff, b'b', b'\n'],
        stderr: "caf\u{e9} ".as_bytes().to_vec(),
    });
    let out = run_capture(&cmd, &[0], spawned).expect("0 is allowed");
    assert_eq!(out.stdout, "a\u{fffd}b\n");
    assert_eq!(out.stderr, "caf\u{e9}");
}

#[test]
fn run_capture_reports_a_program_that_did_not_start() {
    let cmd = command("missing-program", &["x"]);
    let err = run_capture(&cmd, &[0], Err("No such file or directory (os error 2)".to_string()))
        .unwrap_err();
    assert_eq!(
        err,
        CommandError::Spawn {
            program: "missing-program".to_string(),
            source: "No such file or directory (os error 2)".to_string(),
        }
    );
    assert_eq!(
        err.message(),
        "failed to spawn `missing-program`: No such file or directory (os error 2)"
    );
}

#[test]
fn error_messages() {
    assert_eq!(
        CommandError::InvalidCommand("'oops".to_string()).message(),
        "invalid configured command `'oops`"
    );
    assert_eq!(
        CommandError::Io { context: "create temp pacman db at /x".to_string(), source: "denied".to_string() }
            .message(),
        "failed filesystem operation (create temp pacman db at /x): denied"
    );
    assert_eq!(
        CommandError::NonZero { command: "c".to_string(), status: i32::MIN, stderr: "e".to_string() }
            .message(),
        "command `c` exited with -2147483648: e"
    );
    assert_eq!(
        CommandError::NonZero { command: "c".to_string(), status: 127, stderr: "e".to_string() }.message(),
        "command `c` exited with 127: e"
    );
}

#[test]
fn command_string_is_split_like_a_shell_would() {
    let cmd = parse_command_string("checkupdates --arg 'two words' \"three more words\"")
        .expect("well formed");
    assert_eq!(cmd.program, "checkupdates");
    assert_eq!(cmd.args, words(&["--arg", "two words", "three more words"]));
    let cmd = parse_command_string("  single  ").expect("one word");
    assert_eq!(cmd, command("single", &[]));
}

#[test]
fn command_string_without_words_or_with_open_quote_is_invalid() {
    assert_eq!(parse_command_string(""), Err(CommandError::InvalidCommand(String::new())));
    assert_eq!(parse_command_string("   "), Err(CommandError::InvalidCommand("   ".to_string())));
    assert_eq!(
        parse_command_string("cmd 'open"),
        Err(CommandError::InvalidCommand("cmd 'open".to_string()))
    );
    assert_eq!(
        parse_command_string("# only a comment"),
        Err(CommandError::InvalidCommand("# only a comment".to_string()))
    );
}

#[test]
fn command_from_words_takes_the_first_as_program() {
    assert_eq!(command_from_words("a b", Some(words(&["a", "b"]))), Ok(command("a", &["b"])));
    assert_eq!(
        command_from_words("raw", Some(vec![])),
        Err(CommandError::InvalidCommand("raw".to_string()))
    );
    assert_eq!(command_from_words("raw", None), Err(CommandError::InvalidCommand("raw".to_string())));
}

#[test]
fn custom_check_gets_nocolor_appended() {
    assert_eq!(
        custom_check_command("checkupdates -x"),
        Ok(command("checkupdates", &["-x", "--nocolor"]))
    );
    assert_eq!(custom_check_command("\"")
        , Err(CommandError::InvalidCommand("\"".to_string())));
}

#[test]
fn shell_join_quotes_what_needs_quoting() {
    assert_eq!(shell_join("pacman", &words(&["-Qu"])), "pacman -Qu");
    assert_eq!(shell_join("my prog", &words(&["a b", "", "it's"])), "'my prog' 'a b' '' 'it'\\''s'");
    assert_eq!(shell_join("solo", &vec![]), "solo");
}

#[test]
fn details_command_for_auto_with_helper() {
    let config = EffectiveConfig::default();
    let cmd = build_details_shell_command(&config, Some(DetectedAurHelper::Paru)).expect("auto");
    assert_eq!(
        cmd,
        "pacman -Qu --color never; echo; paru -Qua; echo; read -n 1 -s -r -p 'Press any key to close...'"
    );
}

#[test]
fn details_command_without_helper_or_without_aur() {
    let mut config = EffectiveConfig::default();
    let cmd = build_details_shell_command(&config, None).expect("auto");
    assert_eq!(
        cmd,
        "pacman -Qu --color never; echo; echo 'AUR helper not found (expected paru or yay)'; echo; read -n 1 -s -r -p 'Press any key to close...'"
    );
    config.enable_aur = false;
    let cmd = build_details_shell_command(&config, Some(DetectedAurHelper::Yay)).expect("auto");
    assert_eq!(cmd, "pacman -Qu --color never; echo; read -n 1 -s -r -p 'Press any key to close...'");
}

#[test]
fn details_command_for_custom_check() {
    let mut config = EffectiveConfig::default();
    config.enable_aur = false;
    config.official_check_cmd = "checkupdates 'a b'".to_string();
    let cmd = build_details_shell_command(&config, None).expect("well formed");
    assert_eq!(
        cmd,
        "checkupdates 'a b' --nocolor; echo; read -n 1 -s -r -p 'Press any key to close...'"
    );
    config.official_check_cmd = "'".to_string();
    assert_eq!(
        build_details_shell_command(&config, None),
        Err(CommandError::InvalidCommand("'".to_string()))
    );
}

#[test]
fn upgrade_commands() {
    let mut config = EffectiveConfig::default();
    assert_eq!(build_upgrade_shell_command(&config, Some(DetectedAurHelper::Yay)), "yay -Syu");
    assert_eq!(build_upgrade_shell_command(&config, Some(DetectedAurHelper::Paru)), "paru -Syu");
    assert_eq!(build_upgrade_shell_command(&config, None), "sudo pacman -Syu");
    config.upgrade_cmd = "topgrade -y".to_string();
    assert_eq!(build_upgrade_shell_command(&config, Some(DetectedAurHelper::Yay)), "topgrade -y");
    assert_eq!(build_upgrade_official_shell_command(), "sudo pacman -Syu");
    assert_eq!(
        build_upgrade_aur_shell_command(Some(DetectedAurHelper::Paru)),
        Some("paru -Sua".to_string())
    );
    assert_eq!(build_upgrade_aur_shell_command(Some(DetectedAurHelper::Yay)), Some("yay -Sua".to_string()));
    assert_eq!(build_upgrade_aur_shell_command(None), None);
}

#[test]
fn scratch_commands() {
    assert_eq!(db_path_query_command(), command("pacman-conf", &["DBPath"]));
    assert_eq!(
        sync_command("/tmp/checkup-db-0"),
        command(
            "fakeroot",
            &[
                "--",
                "pacman",
                "-Sy",
                "--disable-sandbox-filesystem",
                "--dbpath",
                "/tmp/checkup-db-0",
                "--logfile",
                "/dev/null"
            ]
        )
    );
    assert_eq!(
        query_command("/tmp/checkup-db-0"),
        command("pacman", &["-Qu", "--dbpath", "/tmp/checkup-db-0", "--color", "never"])
    );
    assert_eq!(aur_query_command(DetectedAurHelper::Yay), command("yay", &["-Qua"]));
    assert_eq!(aur_query_command(DetectedAurHelper::Paru), command("paru", &["-Qua"]));
}

#[test]
fn reported_db_path_is_the_first_filled_line() {
    assert_eq!(reported_db_path("/var/lib/pacman/\n"), Some("/var/lib/pacman/".to_string()));
    assert_eq!(reported_db_path("\n  \n  /a/b  \r\n/c\n"), Some("/a/b".to_string()));
    assert_eq!(reported_db_path(""), None);
    assert_eq!(reported_db_path(" \n\t\n"), None);
}

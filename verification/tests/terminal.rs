use pactrack::commands::{CommandError, ResolvedCommand};
use pactrack::config::EffectiveConfig;
use pactrack::terminal::{
    command_in_terminal, fallback_terminals, launch_in_terminal, parse_terminal_spec,
    resolve_terminal, terminal_exec_delimiter, terminal_from_command, TerminalSpec,
};

fn words(list: &[&str]) -> Vec<String> {
    list.iter().map(|w| w.to_string()).collect()
}

fn terminal(program: &str, args: &[&str], delimiter: &str) -> TerminalSpec {
    TerminalSpec {
        program: program.to_string(),
        args: words(args),
        exec_delimiter: delimiter.to_string(),
    }
}

#[test]
fn gnome_terminal_takes_two_dashes() {
    assert_eq!(terminal_exec_delimiter("gnome-terminal"), "--");
    assert_eq!(terminal_exec_delimiter("kitty"), "-e");
    assert_eq!(terminal_exec_delimiter(""), "-e");
    assert_eq!(terminal_exec_delimiter("/usr/bin/gnome-terminal"), "-e");
}

#[test]
fn terminal_is_read_out_of_a_line() {
    assert_eq!(
        parse_terminal_spec("alacritty --class 'Pac Track'"),
        Ok(terminal("alacritty", &["--class", "Pac Track"], "-e"))
    );
    assert_eq!(
        parse_terminal_spec("/usr/bin/gnome-terminal --wait"),
        Ok(terminal("/usr/bin/gnome-terminal", &["--wait"], "--"))
    );
    assert_eq!(parse_terminal_spec(""), Err(CommandError::InvalidCommand(String::new())));
    assert_eq!(
        parse_terminal_spec("kitty \"x"),
        Err(CommandError::InvalidCommand("kitty \"x".to_string()))
    );
}

#[test]
fn name_decides_the_delimiter() {
    let cmd = ResolvedCommand { program: "/opt/x/term".to_string(), args: words(&["-a"]) };
    assert_eq!(
        terminal_from_command(cmd, Some("gnome-terminal".to_string())),
        terminal("/opt/x/term", &["-a"], "--")
    );
    let cmd = ResolvedCommand { program: "gnome-terminal".to_string(), args: vec![] };
    assert_eq!(terminal_from_command(cmd, None), terminal("gnome-terminal", &[], "--"));
    let cmd = ResolvedCommand { program: "gnome-terminal".to_string(), args: vec![] };
    assert_eq!(
        terminal_from_command(cmd, Some("xterm".to_string())),
        terminal("gnome-terminal", &[], "-e")
    );
}

#[test]
fn configured_terminal_goes_before_everything() {
    let installed = vec![true; 6];
    assert_eq!(
        resolve_terminal("foot -a", Some("xterm"), &installed),
        Some(terminal("foot", &["-a"], "-e"))
    );
    assert_eq!(resolve_terminal("'broken", Some("xterm"), &installed), None);
}

#[test]
fn terminal_of_the_environment_goes_before_the_fallbacks() {
    let installed = vec![true; 6];
    assert_eq!(
        resolve_terminal("auto", Some("gnome-terminal"), &installed),
        Some(terminal("gnome-terminal", &[], "--"))
    );
    assert_eq!(
        resolve_terminal("auto", Some("'broken"), &installed),
        Some(terminal("kitty", &[], "-e"))
    );
    assert_eq!(resolve_terminal("auto", Some(""), &installed), Some(terminal("kitty", &[], "-e")));
}

#[test]
fn first_installed_fallback_is_taken() {
    assert_eq!(
        fallback_terminals(),
        vec!["kitty", "alacritty", "gnome-terminal", "konsole", "xfce4-terminal", "xterm"]
    );
    assert_eq!(
        resolve_terminal("auto", None, &vec![false, false, true, true, false, true]),
        Some(terminal("gnome-terminal", &[], "--"))
    );
    assert_eq!(
        resolve_terminal("auto", None, &vec![false, false, false, false, false, true]),
        Some(terminal("xterm", &[], "-e"))
    );
    assert_eq!(resolve_terminal("auto", None, &vec![false; 6]), None);
    assert_eq!(resolve_terminal("auto", None, &vec![]), None);
    assert_eq!(resolve_terminal("auto", None, &vec![false, true]), Some(terminal("alacritty", &[], "-e")));
    assert_eq!(
        resolve_terminal("auto", None, &vec![false, false, false, false, false, false, true]),
        None
    );
}

#[test]
fn command_runs_a_login_shell_in_the_terminal() {
    assert_eq!(
        command_in_terminal(terminal("kitty", &["--hold"], "-e"), "sudo pacman -Syu"),
        ResolvedCommand {
            program: "kitty".to_string(),
            args: words(&["--hold", "-e", "bash", "-lc", "sudo pacman -Syu"]),
        }
    );
}

#[test]
fn launch_gives_the_command_or_says_that_there_is_no_terminal() {
    let mut config = EffectiveConfig::default();
    assert_eq!(
        launch_in_terminal(&config, "yay -Syu", None, &vec![false, false, true]),
        Ok(ResolvedCommand {
            program: "gnome-terminal".to_string(),
            args: words(&["--", "bash", "-lc", "yay -Syu"]),
        })
    );
    assert_eq!(
        launch_in_terminal(&config, "yay -Syu", None, &vec![]),
        Err(CommandError::InvalidCommand(
            "no supported terminal found (set terminal in config)".to_string()
        ))
    );
    config.terminal = "wezterm start".to_string();
    assert_eq!(
        launch_in_terminal(&config, "echo hi", Some("xterm"), &vec![true; 6]),
        Ok(ResolvedCommand {
            program: "wezterm".to_string(),
            args: words(&["start", "-e", "bash", "-lc", "echo hi"]),
        })
    );
}

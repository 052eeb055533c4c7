use promptline::decor::{Color, DecoratedString};
use promptline::hg::{bytes_to_hex_prefix, hg_info, hg_join_exec, HgError};
use promptline::prompt::{
    assemble_line, conda_display, cwd_display, hostname_display, nix_shell_display, shell_display,
    status_display, time_display, user_display, ShellError,
};

#[test]
fn color_codes() {
    assert_eq!(Color::Red.to_ansi(), 31);
    assert_eq!(Color::Green.to_ansi(), 32);
    assert_eq!(Color::Yellow.to_ansi(), 33);
    assert_eq!(Color::Blue.to_ansi(), 34);
    assert_eq!(Color::Magenta.to_ansi(), 35);
    assert_eq!(Color::Cyan.to_ansi(), 36);
    assert_eq!(Color::White.to_ansi(), 37);
    assert_eq!(Color::Red.code_str(), "31");
    assert_eq!(Color::White.code_str(), "37");
}

#[test]
fn decorated_string_rendering() {
    assert_eq!(DecoratedString::new("hi".to_string()).to_ansi(), "hi");
    assert_eq!(
        DecoratedString::new("hi".to_string()).bold().to_ansi(),
        "\x1b[1mhi\x1b[22m"
    );
    assert_eq!(
        DecoratedString::new("hi".to_string()).colored(Color::Green).to_ansi(),
        "\x1b[32mhi\x1b[39m"
    );
    assert_eq!(
        DecoratedString::new("hi".to_string()).colored(Color::Red).bold().to_ansi(),
        "\x1b[1m\x1b[31mhi\x1b[39m\x1b[22m"
    );
    assert_eq!(
        DecoratedString::new("hi".to_string()).bold().colored(Color::Cyan).to_ansi(),
        "\x1b[36m\x1b[1mhi\x1b[22m\x1b[39m"
    );
}

#[test]
fn time_is_bold_cyan() {
    assert_eq!(time_display("12:30".to_string()), "\x1b[36m\x1b[1m12:30\x1b[22m\x1b[39m");
}

#[test]
fn superuser_is_red_everyone_else_magenta() {
    assert_eq!(user_display("root".to_string()), "\x1b[1m\x1b[31mroot\x1b[39m\x1b[22m");
    assert_eq!(user_display("alice".to_string()), "\x1b[1m\x1b[35malice\x1b[39m\x1b[22m");
}

#[test]
fn hostname_is_bold_green() {
    assert_eq!(hostname_display("box".to_string()), "\x1b[1m\x1b[32mbox\x1b[39m\x1b[22m");
}

#[test]
fn zero_status_green_nonzero_red() {
    assert_eq!(status_display("0".to_string()), "\x1b[1m\x1b[32m0\x1b[39m\x1b[22m");
    assert_eq!(status_display("1".to_string()), "\x1b[1m\x1b[31m1\x1b[39m\x1b[22m");
    assert_eq!(status_display("130".to_string()), "\x1b[1m\x1b[31m130\x1b[39m\x1b[22m");
}

#[test]
fn cwd_collapses_home_prefix() {
    assert_eq!(
        cwd_display(Some("/home/u/src".to_string()), Some("/home/u".to_string())),
        "\x1b[1m\x1b[34m~/src\x1b[39m\x1b[22m"
    );
    assert_eq!(
        cwd_display(Some("/tmp".to_string()), Some("/home/u".to_string())),
        "\x1b[1m\x1b[34m/tmp\x1b[39m\x1b[22m"
    );
    assert_eq!(
        cwd_display(Some("/tmp".to_string()), None),
        "\x1b[1m\x1b[34m/tmp\x1b[39m\x1b[22m"
    );
    assert_eq!(cwd_display(None, None), "\x1b[1m\x1b[31m!!!\x1b[39m\x1b[22m");
}

#[test]
fn shell_name_is_the_file_name_component() {
    assert_eq!(shell_display("/bin/zsh"), Ok("\x1b[1mzsh\x1b[22m".to_string()));
    // A trailing separator does not hide the name, as std's path parsing has it.
    assert_eq!(shell_display("/bin/"), Ok("\x1b[1mbin\x1b[22m".to_string()));
    assert_eq!(shell_display("/"), Err(ShellError::NoShellName));
    assert_eq!(shell_display("/bin/.."), Err(ShellError::NoShellName));
    assert_eq!(ShellError::EnvNotSet.message(), "shell env not set");
    assert_eq!(ShellError::NoShellName.message(), "failed to get shell name");
}

#[test]
fn conda_segment() {
    assert_eq!(conda_display("base"), "\x1b[1m\u{1f40d} base\x1b[22m");
}

#[test]
fn nix_shell_segment() {
    assert_eq!(nix_shell_display(Some("dev".to_string())), "\x1b[1mnix: dev\x1b[22m");
    assert_eq!(nix_shell_display(None), "\x1b[1mnix: nix-shell\x1b[22m");
}

#[test]
fn line_assembly() {
    let parts = vec!["a".to_string(), "b".to_string(), "c".to_string()];
    assert_eq!(assemble_line(&parts), "\u{250c}[a]-[b]-[c]\n\u{2514}> ");
    let one = vec!["x".to_string()];
    assert_eq!(assemble_line(&one), "\u{250c}[x]\n\u{2514}> ");
    let none: Vec<String> = vec![];
    assert_eq!(assemble_line(&none), "\u{250c}[]\n\u{2514}> ");
}

#[test]
fn hex_prefix_rendering() {
    let bytes = vec![0x00u8, 0xff, 0x1a, 0x2b, 0x3c, 0x4d, 0x99, 0x77];
    assert_eq!(bytes_to_hex_prefix(&bytes, 6), "00ff1a2b3c4d");
    assert_eq!(bytes_to_hex_prefix(&bytes, 0), "");
    assert_eq!(bytes_to_hex_prefix(&vec![0x0fu8], 1), "0f");
}

#[test]
fn hg_summary_joins_components() {
    let dirstate = vec![0xabu8, 0xcd, 0xef, 0x01, 0x23, 0x45, 0x67];
    assert_eq!(
        hg_info(Some("bm\n"), Some("default\n"), &dirstate),
        "\x1b[1m\x1b[32mbm default abcdef012345\x1b[39m\x1b[22m"
    );
    assert_eq!(
        hg_info(None, Some("default\n"), &dirstate),
        "\x1b[1m\x1b[32mdefault abcdef012345\x1b[39m\x1b[22m"
    );
}

#[test]
fn hg_empty_first_component_still_claims_its_slot() {
    let dirstate = vec![0xabu8];
    assert_eq!(
        hg_info(Some("\n"), Some("default"), &dirstate),
        "\x1b[1m\x1b[32m default ab\x1b[39m\x1b[22m"
    );
}

#[test]
fn hg_nothing_readable_renders_nothing() {
    let empty: Vec<u8> = vec![];
    assert_eq!(hg_info(None, None, &empty), "");
}

#[test]
fn hg_join_skips_empty_components() {
    let parts = vec!["a".to_string(), "".to_string(), "c".to_string()];
    assert_eq!(hg_join_exec(&parts), "a c");
}

#[test]
fn hg_short_dirstate_uses_what_is_there() {
    let dirstate = vec![0x01u8, 0x02];
    assert_eq!(hg_info(None, None, &dirstate), "\x1b[1m\x1b[32m0102\x1b[39m\x1b[22m");
}

#[test]
fn hg_error_messages() {
    assert_eq!(HgError::NoCwd.message(), "failed to get working directory");
    assert_eq!(HgError::NotHg.message(), "working directory not in hg repo");
}

use promptline::git::{parse_redirect, classify_head, format_identity, ref_display_name, GitError, HeadDescriptor};
use promptline::paths::{file_name, join, last_segment, parent_of, walk_step, WalkNext};
use promptline::probe::{probe_start, probe_step, render_success, ProbeEvent, ProbeState};
use promptline::text::{starts_with, trim};

const HEX40: &str = "0123456789abcdef0123456789abcdef01234567";

fn drive(start: &str, events: Vec<ProbeEvent>) -> Result<String, GitError> {
    let mut st = probe_start(start.to_string());
    for ev in events {
        st = probe_step(st, ev);
    }
    match st {
        ProbeState::Done { outcome } => outcome,
        _ => panic!("probe did not finish"),
    }
}

#[test]
fn absence_after_exhausted_walk() {
    let r = drive(
        "/a/b",
        vec![
            ProbeEvent::MarkerExists(false),
            ProbeEvent::MarkerExists(false),
            ProbeEvent::MarkerExists(false),
        ],
    );
    assert_eq!(r, Err(GitError::NotGitRepo));
}

#[test]
fn walk_reaches_marker_at_depth_two() {
    let mut st = probe_start("/a/b/c".to_string());
    st = probe_step(st, ProbeEvent::MarkerExists(false));
    st = probe_step(st, ProbeEvent::MarkerExists(false));
    st = probe_step(st, ProbeEvent::MarkerExists(true));
    match st {
        ProbeState::Marker { dir } => assert_eq!(dir, "/a"),
        _ => panic!("expected the marker state"),
    }
}

#[test]
fn success_does_not_depend_on_depth() {
    for depth in 0..4 {
        let mut events = Vec::new();
        for _ in 0..depth {
            events.push(ProbeEvent::MarkerExists(false));
        }
        events.push(ProbeEvent::MarkerExists(true));
        events.push(ProbeEvent::MarkerIsDir);
        events.push(ProbeEvent::FileContent(format!("{HEX40}\n")));
        let r = drive("/a/b/c/d", events);
        assert_eq!(r, Ok(HEX40[..14].to_string()));
    }
}

#[test]
fn redirect_round_trip_absolute() {
    assert_eq!(parse_redirect("gitdir: /abs/path"), Ok("/abs/path".to_string()));
    let mut st = ProbeState::Marker { dir: "/repo".to_string() };
    st = probe_step(st, ProbeEvent::MarkerFile("gitdir: /abs/path\n".to_string()));
    match st {
        ProbeState::Head { git_dir } => assert_eq!(git_dir, "/abs/path"),
        _ => panic!("expected the head state"),
    }
}

#[test]
fn redirect_round_trip_relative() {
    assert_eq!(
        parse_redirect("gitdir: ../sibling/.git\n"),
        Ok("../sibling/.git".to_string())
    );
    let mut st = ProbeState::Marker { dir: "/repo/sub".to_string() };
    st = probe_step(st, ProbeEvent::MarkerFile("gitdir: ../sibling/.git\n".to_string()));
    match st {
        ProbeState::Head { git_dir } => assert_eq!(git_dir, "/repo/sub/../sibling/.git"),
        _ => panic!("expected the head state"),
    }
}

#[test]
fn marker_directory_is_the_metadata_directory() {
    let mut st = ProbeState::Marker { dir: "/repo".to_string() };
    st = probe_step(st, ProbeEvent::MarkerIsDir);
    match st {
        ProbeState::Head { git_dir } => assert_eq!(git_dir, "/repo/.git"),
        _ => panic!("expected the head state"),
    }
}

#[test]
fn symbolic_head_formats_name_and_short_id() {
    let mut st = ProbeState::Head { git_dir: "/repo/.git".to_string() };
    st = probe_step(st, ProbeEvent::FileContent("ref: refs/heads/main\n".to_string()));
    match &st {
        ProbeState::ResolveRef { git_dir, ref_path } => {
            assert_eq!(git_dir, "/repo/.git");
            assert_eq!(ref_path, "refs/heads/main");
        }
        _ => panic!("expected the ref state"),
    }
    st = probe_step(st, ProbeEvent::FileContent(format!("{HEX40}\n")));
    match st {
        ProbeState::Done { outcome } => {
            assert_eq!(outcome, Ok("main 0123456789abcd".to_string()))
        }
        _ => panic!("expected the probe to finish"),
    }
}

#[test]
fn detached_head_formats_short_id_alone() {
    let mut st = ProbeState::Head { git_dir: "/repo/.git".to_string() };
    st = probe_step(st, ProbeEvent::FileContent(format!("{HEX40}\n")));
    match st {
        ProbeState::Done { outcome } => {
            assert_eq!(outcome, Ok("0123456789abcd".to_string()))
        }
        _ => panic!("expected the probe to finish"),
    }
}

#[test]
fn short_detached_id_is_a_reported_failure() {
    let mut st = ProbeState::Head { git_dir: "/repo/.git".to_string() };
    st = probe_step(st, ProbeEvent::FileContent("abc123\n".to_string()));
    match st {
        ProbeState::Done { outcome } => assert_eq!(outcome, Err(GitError::IdTooShort)),
        _ => panic!("expected the probe to finish"),
    }
}

#[test]
fn short_ref_id_is_a_reported_failure() {
    let mut st = ProbeState::ResolveRef {
        git_dir: "/repo/.git".to_string(),
        ref_path: "refs/heads/main".to_string(),
    };
    st = probe_step(st, ProbeEvent::FileContent("abc\n".to_string()));
    match st {
        ProbeState::Done { outcome } => assert_eq!(outcome, Err(GitError::IdTooShort)),
        _ => panic!("expected the probe to finish"),
    }
}

#[test]
fn exactly_fourteen_characters_suffice() {
    assert_eq!(format_identity(None, "0123456789abcd"), Ok("0123456789abcd".to_string()));
    assert_eq!(format_identity(None, "0123456789abc"), Err(GitError::IdTooShort));
    assert_eq!(
        format_identity(Some("main"), "0123456789abcdef"),
        Ok("main 0123456789abcd".to_string())
    );
}

#[test]
fn probe_is_idempotent_over_unchanged_answers() {
    let events = || {
        vec![
            ProbeEvent::MarkerExists(false),
            ProbeEvent::MarkerExists(true),
            ProbeEvent::MarkerIsDir,
            ProbeEvent::FileContent("ref: refs/heads/dev\n".to_string()),
            ProbeEvent::FileContent(format!("{HEX40}\n")),
        ]
    };
    let first = drive("/a/b", events());
    let second = drive("/a/b", events());
    assert_eq!(first, second);
    assert_eq!(first, Ok("dev 0123456789abcd".to_string()));
}

#[test]
fn malformed_redirect_is_its_own_failure() {
    assert_eq!(parse_redirect("gitdir:/abs/path"), Err(GitError::UnexpectedGitContent));
    assert_eq!(parse_redirect("worktree: /x"), Err(GitError::UnexpectedGitContent));
    let mut st = ProbeState::Marker { dir: "/repo".to_string() };
    st = probe_step(st, ProbeEvent::MarkerFile("not a redirect".to_string()));
    match st {
        ProbeState::Done { outcome } => {
            let e = outcome.unwrap_err();
            assert_eq!(e, GitError::UnexpectedGitContent);
            assert_ne!(e, GitError::ReadGitFile);
            assert_ne!(e, GitError::NotGitRepo);
        }
        _ => panic!("expected the probe to finish"),
    }
}

#[test]
fn each_read_failure_keeps_its_tag() {
    let mut st = ProbeState::Marker { dir: "/r".to_string() };
    st = probe_step(st, ProbeEvent::MarkerUnreadable);
    assert!(matches!(st, ProbeState::Done { outcome: Err(GitError::ReadGitFile) }));

    let mut st = ProbeState::Head { git_dir: "/r/.git".to_string() };
    st = probe_step(st, ProbeEvent::FileUnreadable);
    assert!(matches!(st, ProbeState::Done { outcome: Err(GitError::ReadHead) }));

    let mut st = ProbeState::ResolveRef {
        git_dir: "/r/.git".to_string(),
        ref_path: "refs/heads/main".to_string(),
    };
    st = probe_step(st, ProbeEvent::FileUnreadable);
    assert!(matches!(st, ProbeState::Done { outcome: Err(GitError::ReadRef) }));
}

#[test]
fn ref_name_is_the_file_name_component() {
    assert_eq!(ref_display_name("refs/heads/main"), Ok("main".to_string()));
    // A trailing separator does not hide the name.
    assert_eq!(ref_display_name("refs/heads/"), Ok("heads".to_string()));
    assert_eq!(ref_display_name("refs/heads/main/."), Ok("main".to_string()));
    // A path ending in the parent component has no name to show.
    assert_eq!(ref_display_name("refs/parent/.."), Err(GitError::NoRefName));
    assert_eq!(ref_display_name(".."), Err(GitError::NoRefName));
    assert_eq!(ref_display_name("."), Err(GitError::NoRefName));
    assert_eq!(ref_display_name("/"), Err(GitError::NoRefName));

    let mut st = ProbeState::ResolveRef {
        git_dir: "/r/.git".to_string(),
        ref_path: "refs/parent/..".to_string(),
    };
    st = probe_step(st, ProbeEvent::FileContent(format!("{HEX40}\n")));
    assert!(matches!(st, ProbeState::Done { outcome: Err(GitError::NoRefName) }));

    let mut st = ProbeState::ResolveRef {
        git_dir: "/r/.git".to_string(),
        ref_path: "refs/heads/dev/".to_string(),
    };
    st = probe_step(st, ProbeEvent::FileContent(format!("{HEX40}\n")));
    match st {
        ProbeState::Done { outcome } => assert_eq!(outcome, Ok("dev 0123456789abcd".to_string())),
        _ => panic!("expected the probe to finish"),
    }
}

#[test]
fn head_classification() {
    match classify_head("ref: refs/heads/main\n") {
        HeadDescriptor::Symbolic(p) => assert_eq!(p, "refs/heads/main"),
        _ => panic!("expected a symbolic head"),
    }
    match classify_head(&format!("{HEX40}\n")) {
        HeadDescriptor::Detached(id) => assert_eq!(id, HEX40),
        _ => panic!("expected a detached head"),
    }
}

#[test]
fn success_rendering_is_bold_green() {
    assert_eq!(
        render_success("main 0123456789abcd".to_string()),
        "\x1b[1m\x1b[32mmain 0123456789abcd\x1b[39m\x1b[22m"
    );
}

#[test]
fn error_messages() {
    assert_eq!(GitError::NoCwd.message(), "failed to get cwd");
    assert_eq!(GitError::CanonicalCwd.message(), "failed to canonicalize cwd");
    assert_eq!(GitError::ReadGitFile.message(), "failed to read .git file");
    assert_eq!(GitError::ReadHead.message(), "failed to read git HEAD");
    assert_eq!(GitError::NotGitRepo.message(), "not a git repo");
    assert_eq!(GitError::UnexpectedGitContent.message(), "unexpected git content");
    assert_eq!(GitError::ReadRef.message(), "failed to read ref");
    assert_eq!(GitError::NoRefName.message(), "failed to get ref name");
    assert_eq!(GitError::IdTooShort.message(), "revision id too short");
}

#[test]
fn text_helpers() {
    assert_eq!(trim("  hi there\n"), "hi there");
    assert_eq!(trim("\t\r\n "), "");
    assert_eq!(trim("x"), "x");
    assert!(starts_with("gitdir: /x", "gitdir: "));
    assert!(!starts_with("gitdir:", "gitdir: "));
}

#[test]
fn trim_matches_unicode_whitespace() {
    // The trimmed set is the Unicode white-space set, as str::trim uses.
    assert_eq!(trim("\u{a0}hi\u{3000}"), "hi");
    assert_eq!(trim("\u{2028}x\u{85}"), "x");
    for s in ["\u{a0} id \u{2028}", "\u{1680}\u{200a}a b\u{202f}\u{205f}", "plain", ""] {
        assert_eq!(trim(s), s.trim());
    }
}

#[test]
fn path_helpers() {
    assert_eq!(parent_of("/a/b"), Some("/a".to_string()));
    assert_eq!(parent_of("/a"), Some("/".to_string()));
    assert_eq!(parent_of("/"), None);
    assert_eq!(last_segment("refs/heads/main"), "main");
    assert_eq!(last_segment("refs/heads/"), "");
    assert_eq!(join("/a", "b"), "/a/b");
    assert_eq!(join("/a/", "b"), "/a/b");
    assert_eq!(join("/a", "/b"), "/b");
}

#[test]
fn file_name_matches_the_path_components() {
    // The file-name component agrees with std's path parsing.
    let cases = [
        "refs/heads/main",
        "refs/heads/",
        "/bin/zsh",
        "/bin/",
        "a/..",
        "a/../",
        "..",
        ".",
        "./",
        "a/.",
        "a/./",
        "/",
        "a//b",
        "a//",
        "...",
        "a/.hg",
        "a.",
    ];
    for case in cases {
        let expected = std::path::Path::new(case)
            .file_name()
            .map(|n| n.to_str().unwrap());
        assert_eq!(file_name(case), expected, "path {case:?}");
    }
}

#[test]
fn walk_step_moves_strictly_upward() {
    assert!(matches!(walk_step("/a/b", true), WalkNext::Found));
    match walk_step("/a/b", false) {
        WalkNext::Up(p) => assert_eq!(p, "/a"),
        _ => panic!("expected one step upward"),
    }
    assert!(matches!(walk_step("/", false), WalkNext::Exhausted));
}

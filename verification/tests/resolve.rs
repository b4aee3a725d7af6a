//! Binary resolution: candidate validation, the override convention, and
//! the resolution state machine.

use libffmpeg::find::{
    check_search_paths, env_key_for, find_name_in_entries, override_from_env, resolve_start,
    resolve_step, validate_binary, FileType, FindBinaryError, ResolveEvent, ResolveOutcome,
    ResolveState,
};
use libffmpeg::text::{octal_string, split_search_paths, str_eq, to_ascii_upper, trim_spaces};

#[test]
fn validate_rejects_directory() {
    let r = validate_binary(String::from("/usr/bin"), FileType::Directory, 0o755);
    match r {
        Err(FindBinaryError::InvalidFileType {
            binary_path,
            actual,
            expected,
        }) => {
            assert_eq!(binary_path, "/usr/bin");
            assert_eq!(actual, FileType::Directory);
            assert_eq!(expected, FileType::File);
        }
        other => panic!("expected InvalidFileType, got {other:?}"),
    }
}

#[test]
fn validate_rejects_non_executable() {
    let r = validate_binary(String::from("/tmp/probe"), FileType::File, 0o644);
    match r {
        Err(FindBinaryError::NotExecutable {
            binary_path,
            mode,
            mask,
        }) => {
            assert_eq!(binary_path, "/tmp/probe");
            assert_eq!(mode, "644");
            assert_eq!(mask, "111");
        }
        other => panic!("expected NotExecutable, got {other:?}"),
    }
}

#[test]
fn validate_accepts_executable_file() {
    let r = validate_binary(String::from("/usr/bin/ffprobe"), FileType::File, 0o755);
    assert_eq!(r, Ok(String::from("/usr/bin/ffprobe")));
}

#[test]
fn validate_accepts_single_exec_bit() {
    assert!(validate_binary(String::from("/x"), FileType::File, 0o100).is_ok());
    assert!(validate_binary(String::from("/x"), FileType::File, 0o010).is_ok());
    assert!(validate_binary(String::from("/x"), FileType::File, 0o001).is_ok());
}

#[test]
fn validate_rejects_symlink_and_fifo() {
    assert!(matches!(
        validate_binary(String::from("/x"), FileType::Symlink, 0o777),
        Err(FindBinaryError::InvalidFileType {
            actual: FileType::Symlink,
            ..
        })
    ));
    assert!(matches!(
        validate_binary(String::from("/x"), FileType::Fifo, 0o777),
        Err(FindBinaryError::InvalidFileType {
            actual: FileType::Fifo,
            ..
        })
    ));
}

#[test]
fn file_type_classification_order() {
    assert_eq!(
        FileType::from_flags(true, false, false, false, false, false, false),
        FileType::Directory
    );
    assert_eq!(
        FileType::from_flags(false, true, false, false, false, false, false),
        FileType::File
    );
    assert_eq!(
        FileType::from_flags(false, false, true, false, false, false, false),
        FileType::Symlink
    );
    assert_eq!(
        FileType::from_flags(false, false, false, true, false, false, false),
        FileType::BlockDevice
    );
    assert_eq!(
        FileType::from_flags(false, false, false, false, true, false, false),
        FileType::CharDevice
    );
    assert_eq!(
        FileType::from_flags(false, false, false, false, false, true, false),
        FileType::Fifo
    );
    assert_eq!(
        FileType::from_flags(false, false, false, false, false, false, true),
        FileType::Socket
    );
    assert_eq!(
        FileType::from_flags(false, false, false, false, false, false, false),
        FileType::Other
    );
    // A directory flag outranks every other flag.
    assert_eq!(
        FileType::from_flags(true, true, true, true, true, true, true),
        FileType::Directory
    );
}

#[test]
fn octal_rendering() {
    assert_eq!(octal_string(0), "0");
    assert_eq!(octal_string(0o644), "644");
    assert_eq!(octal_string(0o755), "755");
    assert_eq!(octal_string(0o111), "111");
    assert_eq!(octal_string(8), "10");
}

#[test]
fn env_key_convention() {
    assert_eq!(env_key_for("probe"), "LIBFFMPEG_PROBE_PATH");
    assert_eq!(env_key_for("ffprobe"), "LIBFFMPEG_FFPROBE_PATH");
    assert_eq!(env_key_for("ffmpeg"), "LIBFFMPEG_FFMPEG_PATH");
}

#[test]
fn upper_and_trim_helpers() {
    assert_eq!(to_ascii_upper("ffprobe-7.x"), "FFPROBE-7.X");
    assert_eq!(trim_spaces("  /usr/bin/ffprobe \t\n"), "/usr/bin/ffprobe");
    assert_eq!(trim_spaces("   "), "");
    assert!(str_eq("abc", "abc"));
    assert!(!str_eq("abc", "abd"));
    assert!(!str_eq("abc", "ab"));
}

#[test]
fn override_policy() {
    assert_eq!(override_from_env(None), None);
    assert_eq!(override_from_env(Some(String::from("   "))), None);
    assert_eq!(
        override_from_env(Some(String::from(" /opt/probe "))),
        Some(String::from("/opt/probe"))
    );
}

#[test]
fn search_path_splitting() {
    let segs = split_search_paths("/usr/bin:/bin::/opt/x");
    assert_eq!(segs, vec!["/usr/bin", "/bin", "", "/opt/x"]);
    assert_eq!(split_search_paths(""), vec![""]);
    assert_eq!(split_search_paths("abc"), vec!["abc"]);
}

#[test]
fn missing_search_path_is_fatal() {
    assert!(matches!(
        check_search_paths(None),
        Err(FindBinaryError::PathUnset { .. })
    ));
    assert_eq!(
        check_search_paths(Some(String::from("/usr/bin"))),
        Ok(String::from("/usr/bin"))
    );
}

#[test]
fn entry_lookup_first_match() {
    let entries = vec![
        String::from("ffplay"),
        String::from("ffprobe"),
        String::from("ffprobe"),
    ];
    assert_eq!(find_name_in_entries(&entries, "ffprobe"), Some(1));
    assert_eq!(find_name_in_entries(&entries, "ffmpeg"), None);
    assert_eq!(find_name_in_entries(&Vec::new(), "ffprobe"), None);
}

#[test]
fn valid_override_wins_without_scanning() {
    // Even with directories standing ready, a validated override decides
    // the resolution, and a later match elsewhere cannot change it.
    let s = resolve_start(true, false, 3);
    assert_eq!(
        s,
        ResolveState::ValidatingOverride {
            from_env: false,
            dirs: 3
        }
    );
    let s = resolve_step(
        s,
        ResolveEvent::OverrideChecked {
            result: Ok(String::from("/opt/probe")),
        },
    );
    assert_eq!(
        s,
        ResolveState::Done {
            outcome: ResolveOutcome::Found {
                path: String::from("/opt/probe")
            }
        }
    );
    let s = resolve_step(
        s,
        ResolveEvent::DirFinished {
            found: Some(String::from("/usr/bin/probe")),
        },
    );
    assert_eq!(
        s,
        ResolveState::Done {
            outcome: ResolveOutcome::Found {
                path: String::from("/opt/probe")
            }
        }
    );
}

#[test]
fn absent_binary_resolves_not_found() {
    // No override, two directories, no match anywhere: "not found", not an
    // error.
    let s = resolve_start(false, false, 2);
    assert_eq!(s, ResolveState::Scanning { pending: 2 });
    let s = resolve_step(s, ResolveEvent::DirFinished { found: None });
    assert_eq!(s, ResolveState::Scanning { pending: 1 });
    let s = resolve_step(s, ResolveEvent::DirFinished { found: None });
    assert_eq!(
        s,
        ResolveState::Done {
            outcome: ResolveOutcome::NotFound
        }
    );
}

#[test]
fn invalid_caller_override_falls_back_to_scan() {
    let s = resolve_start(true, false, 2);
    let e = validate_binary(String::from("/bad"), FileType::Directory, 0).unwrap_err();
    let s = resolve_step(s, ResolveEvent::OverrideChecked { result: Err(e) });
    assert_eq!(s, ResolveState::Scanning { pending: 2 });
    let s = resolve_step(
        s,
        ResolveEvent::DirFinished {
            found: Some(String::from("/usr/bin/probe")),
        },
    );
    assert_eq!(
        s,
        ResolveState::Done {
            outcome: ResolveOutcome::Found {
                path: String::from("/usr/bin/probe")
            }
        }
    );
}

#[test]
fn env_override_to_non_executable_fails_without_scan() {
    // Resolving "probe" with the override variable set to a non-executable
    // regular file: the resolution fails via that override and does not
    // fall back to search-path scanning in the same call cycle.
    assert_eq!(env_key_for("probe"), "LIBFFMPEG_PROBE_PATH");
    let err = validate_binary(String::from("/tmp/not-exec"), FileType::File, 0o644).unwrap_err();
    assert!(matches!(err, FindBinaryError::NotExecutable { .. }));
    let s = resolve_start(true, true, 4);
    let s = resolve_step(
        s,
        ResolveEvent::OverrideChecked {
            result: Err(err.clone()),
        },
    );
    assert_eq!(
        s,
        ResolveState::Done {
            outcome: ResolveOutcome::Failed { error: err }
        }
    );
    // Whatever the abandoned scans report later changes nothing.
    let s = resolve_step(
        s,
        ResolveEvent::DirFinished {
            found: Some(String::from("/usr/bin/probe")),
        },
    );
    assert!(matches!(
        s,
        ResolveState::Done {
            outcome: ResolveOutcome::Failed {
                error: FindBinaryError::NotExecutable { .. }
            }
        }
    ));
}

#[test]
fn no_directories_resolves_not_found_immediately() {
    assert_eq!(
        resolve_start(false, false, 0),
        ResolveState::Done {
            outcome: ResolveOutcome::NotFound
        }
    );
}

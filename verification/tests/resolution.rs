//! End-to-end resolution scenarios: the source pipeline, its error
//! taxonomy, the consulted-path record, and the discovery of candidate
//! locations.

use aldm::{
    resolve, run_gui, Config, EnvReading, Error, FileCandidate, FileOutcome, FsPath, FsSnapshot,
    LevelFilter,
};

fn source_path(s: &str) -> FsPath {
    FsPath::parse(s)
}

fn readable_snapshot(paths: &[&str]) -> FsSnapshot {
    let mut fs = FsSnapshot::new();
    for path in paths {
        fs.record(source_path(path), true, false);
    }
    fs
}

fn decoded(path: &str, config: Config) -> FileCandidate {
    FileCandidate { path: source_path(path), outcome: FileOutcome::Decoded(config) }
}

#[test]
fn malformed_file_halts_resolution() {
    // First candidate missing, second readable but malformed, third
    // readable and valid: resolution fails naming the second, and the
    // third contributes nothing.
    let fs = readable_snapshot(&["/two", "/three"]);
    let candidates = vec![
        FileCandidate { path: source_path("/one"), outcome: FileOutcome::Absent(String::new()) },
        FileCandidate {
            path: source_path("/two"),
            outcome: FileOutcome::Malformed(String::from("bad syntax")),
        },
        decoded("/three", Config::from_fields(None, Some(LevelFilter::Trace), None)),
    ];
    let err = resolve(None, &EnvReading::unset(), candidates, &fs)
        .expect_err("a malformed candidate must halt resolution");
    match err {
        Error::ConfigFileFormat { path, message } => {
            assert_eq!(path.render(), "/two");
            assert_eq!(message, "bad syntax");
        },
        other => panic!("wrong error: {}", other.message()),
    }
}

#[test]
fn environment_wins_over_files_and_user_file_over_system_file() {
    // LOG_LEVEL_FILTER=debug in the environment; a user file sets
    // no_color = true; a system file sets log_level_filter = warn and
    // no_color = false.
    let env = EnvReading {
        log_dirpath: None,
        log_level_filter: Some(String::from("debug")),
        no_color: None,
    };
    let fs = readable_snapshot(&["/user", "/system"]);
    let candidates = vec![
        decoded("/user", Config::from_fields(None, None, Some(true))),
        decoded(
            "/system",
            Config::from_fields(None, Some(LevelFilter::Warn), Some(false)),
        ),
    ];
    let (config, consulted) =
        resolve(None, &env, candidates, &fs).expect("resolution must succeed");
    assert_eq!(config.log_level_filter, Some(LevelFilter::Debug));
    assert_eq!(config.no_color, Some(true));
    assert_eq!(config.log_dirpath, None);
    assert!(config.is_loaded());
    let consulted: Vec<String> = consulted.iter().map(|p| p.render()).collect();
    assert_eq!(consulted, vec![String::from("/user"), String::from("/system")]);
}

#[test]
fn no_sources_at_all_yields_the_default_loaded() {
    let fs = FsSnapshot::new();
    let candidates = vec![
        FileCandidate { path: source_path("/one"), outcome: FileOutcome::Absent(String::new()) },
        FileCandidate { path: source_path("/two"), outcome: FileOutcome::Absent(String::new()) },
    ];
    let (config, consulted) = resolve(None, &EnvReading::unset(), candidates, &fs)
        .expect("resolution must succeed with no sources");
    let default = Config::default();
    assert_eq!(config.log_dirpath, default.log_dirpath);
    assert_eq!(config.log_level_filter, default.log_level_filter);
    assert_eq!(config.no_color, default.no_color);
    assert!(config.is_loaded());
    assert!(consulted.is_empty());
}

#[test]
fn explicit_value_wins_over_the_environment() {
    let env = EnvReading {
        log_dirpath: None,
        log_level_filter: Some(String::from("warn")),
        no_color: None,
    };
    let explicit = Config::from_fields(None, Some(LevelFilter::Trace), None);
    let fs = FsSnapshot::new();
    let (config, _) =
        resolve(Some(explicit), &env, Vec::new(), &fs).expect("resolution must succeed");
    assert_eq!(config.log_level_filter, Some(LevelFilter::Trace));
}

#[test]
fn unreadable_candidate_is_skipped_quietly() {
    let mut fs = FsSnapshot::new();
    fs.record(source_path("/locked"), false, false);
    let candidates = vec![
        // Exists but is not readable: skipped, even though it decodes.
        decoded("/locked", Config::from_fields(None, Some(LevelFilter::Off), None)),
    ];
    let (config, consulted) = resolve(None, &EnvReading::unset(), candidates, &fs)
        .expect("an unreadable candidate must not be fatal");
    assert_eq!(config.log_level_filter, Some(LevelFilter::Info));
    assert!(consulted.is_empty());
}

#[test]
fn vanished_candidate_surfaces_as_skip_not_crash() {
    // Probed readable, but the read failed a moment later: the quiet
    // pipeline skips it.
    let fs = readable_snapshot(&["/gone"]);
    let candidates = vec![
        FileCandidate {
            path: source_path("/gone"),
            outcome: FileOutcome::Absent(String::from("interrupted")),
        },
    ];
    let (config, consulted) = resolve(None, &EnvReading::unset(), candidates, &fs)
        .expect("a vanished candidate must not be fatal");
    assert_eq!(config.log_level_filter, Some(LevelFilter::Info));
    // The probe said readable, so the path still counts as consulted.
    assert_eq!(consulted.len(), 1);
}

#[test]
fn run_gui_resolves_without_an_explicit_value() {
    let env = EnvReading {
        log_dirpath: None,
        log_level_filter: Some(String::from("error")),
        no_color: None,
    };
    let (config, consulted) =
        run_gui(&env, Vec::new(), &FsSnapshot::new()).expect("resolution must succeed");
    assert_eq!(config.log_level_filter, Some(LevelFilter::Error));
    assert!(consulted.is_empty());
}

#[test]
fn try_filepath_demands_the_file() {
    let fs = FsSnapshot::new();
    let mut acc = Config::new();
    let err = acc
        .try_filepath(&source_path("/missing"), &fs, FileOutcome::Absent(String::new()))
        .expect_err("a missing file is a hard error in the demanding form");
    match err {
        Error::FindConfigFile { path } => assert_eq!(path.render(), "/missing"),
        other => panic!("wrong error: {}", other.message()),
    }
}

#[test]
fn try_filepath_reports_an_unreadable_file() {
    let mut fs = FsSnapshot::new();
    fs.record(source_path("/locked"), false, false);
    let mut acc = Config::new();
    let err = acc
        .try_filepath(&source_path("/locked"), &fs, FileOutcome::Absent(String::new()))
        .expect_err("an unreadable file is a hard error in the demanding form");
    match err {
        Error::ReadConfigFile { path, message } => {
            assert_eq!(path.render(), "/locked");
            assert_eq!(message, "permission denied");
        },
        other => panic!("wrong error: {}", other.message()),
    }
}

#[test]
fn try_filepath_reports_a_vanished_file_with_its_cause() {
    // Probed readable, but the read failed a moment later: the demanding
    // form surfaces the ordinary read error, with the cause attached.
    let fs = readable_snapshot(&["/gone2"]);
    let mut acc = Config::new();
    let err = acc
        .try_filepath(
            &source_path("/gone2"),
            &fs,
            FileOutcome::Absent(String::from("interrupted")),
        )
        .expect_err("a vanished file is a hard error in the demanding form");
    match err {
        Error::ReadConfigFile { path, message } => {
            assert_eq!(path.render(), "/gone2");
            assert_eq!(message, "interrupted");
        },
        other => panic!("wrong error: {}", other.message()),
    }
}

#[test]
fn try_filepath_merges_a_decoded_file() {
    let fs = readable_snapshot(&["/good"]);
    let mut acc = Config::new();
    acc.try_filepath(
        &source_path("/good"),
        &fs,
        FileOutcome::Decoded(Config::from_fields(None, None, Some(true))),
    )
    .expect("a readable decoded file must merge");
    assert_eq!(acc.no_color, Some(true));
    assert!(acc.is_loaded());
}

#[test]
fn try_optional_filepath_without_a_path_is_an_error() {
    let mut acc = Config::new();
    let err = acc
        .try_optional_filepath(&None, &FsSnapshot::new(), FileOutcome::Absent(String::new()))
        .expect_err("demanding a file with no path at all must fail");
    assert!(matches!(err, Error::FindOptionalConfigFile));
}

#[test]
fn optional_filepath_without_a_path_is_a_no_op() {
    let mut acc = Config::new();
    acc.optional_filepath(&None, &FsSnapshot::new(), FileOutcome::Absent(String::new()))
        .expect("no path, no work");
    assert!(!acc.is_loaded());
}

#[test]
fn filepath_skips_missing_but_rejects_malformed() {
    let fs = readable_snapshot(&["/present"]);
    let mut acc = Config::new();
    acc.filepath(&source_path("/missing"), &fs, FileOutcome::Absent(String::new()))
        .expect("a missing file is skipped quietly");
    let err = acc
        .filepath(
            &source_path("/present"),
            &fs,
            FileOutcome::Malformed(String::from("not yaml")),
        )
        .expect_err("malformed content is never ignored");
    match err {
        Error::ConfigFileFormat { path, message } => {
            assert_eq!(path.render(), "/present");
            assert_eq!(message, "not yaml");
        },
        other => panic!("wrong error: {}", other.message()),
    }
}

#[test]
fn error_messages_name_the_offending_path() {
    let format_err = Error::ConfigFileFormat {
        path: source_path("/etc/app.yaml"),
        message: String::from("while parsing"),
    };
    assert_eq!(
        format_err.message(),
        "the config file at /etc/app.yaml has incorrect format: while parsing"
    );
    let read_err = Error::ReadConfigFile {
        path: source_path("/etc/app.yaml"),
        message: String::from("permission denied"),
    };
    assert_eq!(
        read_err.message(),
        "could not read the config file at /etc/app.yaml: permission denied"
    );
    let find_err = Error::FindConfigFile { path: source_path("/x") };
    assert_eq!(find_err.message(), "could not find a config file at /x");
    let write_err = Error::WriteConfigFile {
        path: source_path("/x"),
        message: String::from("disk full"),
    };
    assert_eq!(write_err.message(), "could not write a config file at /x: disk full");
    let discovery_err = Error::RetrieveConfigUserAppBaseDirectories {
        message: String::from("no home"),
    };
    assert_eq!(
        discovery_err.message(),
        "could not retrieve the XDG base directories for the user: no home"
    );
    let dir_err = Error::CreateConfigDirectory {
        path: source_path("/x"),
        message: String::from("denied"),
    };
    assert_eq!(dir_err.message(), "could not create the config directory at /x: denied");
    let create_err = Error::CreateConfigFile {
        path: source_path("/x"),
        message: String::from("denied"),
    };
    assert_eq!(create_err.message(), "could not create the config file at /x: denied");
    assert_eq!(
        Error::FindOptionalConfigFile.message(),
        "could not find an optional config file"
    );
}

#[test]
fn candidate_list_keeps_the_documented_priority_order() {
    let candidates = aldm::candidate_config_filepaths(
        "aldm",
        Some(source_path("/explicit.yaml")),
        source_path("/home/user/.config/aldm/aldm.yaml"),
    );
    let rendered: Vec<String> = candidates.iter().map(|p| p.render()).collect();
    assert_eq!(
        rendered,
        vec![
            String::from("/explicit.yaml"),
            String::from("/home/user/.config/aldm/aldm.yaml"),
            String::from("/etc/aldm.yaml"),
            String::from("/var/tmp/aldm/aldm.yaml"),
        ]
    );
}

#[test]
fn config_filename_appends_the_extension() {
    assert_eq!(aldm::config_filename("aldm"), "aldm.yaml");
}

#[test]
fn discovery_returns_the_fixed_locations_around_the_user_one() {
    // The per-user location depends on the process environment; when the
    // environment does not even determine it, that is the documented
    // discovery failure.
    match aldm::discover_config_filepaths("aldm", None) {
        Ok(candidates) => {
            assert_eq!(candidates.len(), 3);
            assert_eq!(candidates[1].render(), "/etc/aldm.yaml");
            assert_eq!(candidates[2].render(), "/var/tmp/aldm/aldm.yaml");
        },
        Err(e) => assert!(matches!(e, Error::RetrieveConfigUserAppBaseDirectories { .. })),
    }
}

#[test]
fn probing_records_only_prefixes_of_the_given_paths() {
    // Live probe against the real filesystem: the root exists, so the
    // snapshot holds an entry for it, and the ancestry walk finds an
    // existing ancestor for any path under it.
    let paths = vec![source_path("/"), source_path("/var/tmp")];
    let snapshot = aldm::probe_paths(&paths);
    assert!(snapshot.contains_path(&source_path("/")));
    let ancestor = snapshot
        .largest_existing_ancestor(&source_path("/var/tmp"))
        .expect("the root at least exists");
    assert!(ancestor.components.len() <= 2);
}

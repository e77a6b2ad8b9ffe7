use rapidgzip_cli::arguments::UsageError;
use rapidgzip_cli::cli::{Cli, IoReadModeArg, KeepIndexMode, RawArgs};
use rapidgzip_cli::input::{
    classify_by_scheme, classify_input, index_source, resolve_io_read_mode, resolved_parallelism,
    should_force_sequential_for_url_no_index, IndexSource, InputKind,
};
use rapidgzip_cli::output::{
    derive_output_name, finalize_failure, finalize_output_file, infer_output_path,
    prepare_failure, prepare_output_file, resolve_output_target, FinalizeStep, OutputError,
    OutputTarget,
};
use std::path::{Path, PathBuf};

fn parse(args: &[&str]) -> Result<Cli, UsageError> {
    Cli::try_parse_from(args.iter().map(PathBuf::from).collect())
}

#[test]
fn cli_parses_io_mode_and_keep_index() {
    let cli = parse(&[
        "rapidgzip-rs-cli",
        "input.gz",
        "--io-read-mode",
        "sequential",
        "--keep-index",
        "off",
    ])
    .unwrap();

    assert_eq!(cli.io_read_mode, IoReadModeArg::Sequential);
    assert_eq!(cli.keep_index, KeepIndexMode::Off);
}

#[test]
fn url_without_index_forces_sequential_only_in_auto_mode() {
    let auto_cli = parse(&["rapidgzip-rs-cli", "https://example.org/a.gz"]).unwrap();
    let explicit_cli = parse(&[
        "rapidgzip-rs-cli",
        "https://example.org/a.gz",
        "--io-read-mode",
        "pread",
    ])
    .unwrap();

    assert!(should_force_sequential_for_url_no_index(
        &auto_cli,
        &InputKind::Url
    ));
    assert_eq!(
        resolve_io_read_mode(&auto_cli, &InputKind::Url),
        IoReadModeArg::Sequential
    );
    assert!(!should_force_sequential_for_url_no_index(
        &explicit_cli,
        &InputKind::Url
    ));
    assert_eq!(
        resolve_io_read_mode(&explicit_cli, &InputKind::Url),
        IoReadModeArg::Pread
    );
}

#[test]
fn imported_index_keeps_auto_mode() {
    let cli = parse(&["p", "https://example.org/a.gz", "--import-index", "a.idx"]).unwrap();
    assert_eq!(
        resolve_io_read_mode(&cli, &InputKind::Url),
        IoReadModeArg::Auto
    );
    let local = parse(&["p", "a.gz"]).unwrap();
    assert_eq!(
        resolve_io_read_mode(&local, &InputKind::Stdin),
        IoReadModeArg::Auto
    );
}

#[test]
fn cli_accepts_compatibility_flags() {
    let cli = parse(&[
        "rapidgzip-rs-cli",
        "input.gz",
        "--decompress",
        "--keep",
        "--stdout",
        "--force",
    ])
    .unwrap();

    assert!(cli.decompress);
    assert!(cli.keep);
    assert!(cli.stdout);
    assert!(cli.force);
}

#[test]
fn cli_parses_count_modes() {
    let cli = parse(&["rapidgzip-rs-cli", "input.gz", "--count-lines", "--verbose"]).unwrap();

    assert!(cli.count_lines);
    assert!(cli.verbose);
}

#[test]
fn cli_has_defaults() {
    let cli = parse(&["rapidgzip-rs-cli", "input.gz"]).unwrap();
    assert_eq!(cli.input, "input.gz");
    assert!(cli.output.is_none() && cli.export_index.is_none() && cli.import_index.is_none());
    assert!(!cli.stdout && !cli.force && !cli.decompress && !cli.keep);
    assert!(!cli.count && !cli.count_lines && !cli.benchmark_only);
    assert!(!cli.quiet && !cli.verbose);
    assert_eq!(cli.parallelism, 0);
    assert_eq!(cli.chunk_size, 4 * 1024 * 1024);
    assert_eq!(cli.io_read_mode, IoReadModeArg::Auto);
    assert_eq!(cli.keep_index, KeepIndexMode::Auto);
}

#[test]
fn cli_reads_every_value() {
    let cli = parse(&[
        "rapidgzip-rs-cli",
        "-fdk",
        "-o",
        "out.txt",
        "-P",
        "22",
        "--chunk-size=16777216",
        "--export-index",
        "e.idx",
        "--import-index",
        "i.idx",
        "--io-read-mode=locked-read-and-seek",
        "--keep-index=on",
        "-q",
        "-",
    ])
    .unwrap();
    assert_eq!(cli.input, "-");
    assert_eq!(cli.output, Some(PathBuf::from("out.txt")));
    assert!(cli.force && cli.decompress && cli.keep && cli.quiet);
    assert_eq!(cli.parallelism, 22);
    assert_eq!(cli.chunk_size, 16777216);
    assert_eq!(cli.export_index, Some(PathBuf::from("e.idx")));
    assert_eq!(cli.import_index, Some(PathBuf::from("i.idx")));
    assert_eq!(cli.io_read_mode, IoReadModeArg::LockedReadAndSeek);
    assert_eq!(cli.keep_index, KeepIndexMode::On);
    let short = parse(&["p", "x", "-l", "-v"]).unwrap();
    assert!(short.count_lines && short.verbose);
    let stdout = parse(&["p", "-c", "x"]).unwrap();
    assert!(stdout.stdout);
}

#[test]
fn cli_refuses_options_that_exclude_each_other() {
    let pairs = [
        ["--stdout", "--output=x"],
        ["--quiet", "--verbose"],
        ["--count", "--count-lines"],
        ["--count", "--benchmark-only"],
        ["--count-lines", "--benchmark-only"],
        ["--count", "--stdout"],
        ["--count-lines", "--output=x"],
        ["--benchmark-only", "--stdout"],
        ["--benchmark-only", "--output=x"],
    ];
    for pair in pairs {
        let error = parse(&["rapidgzip-rs-cli", "input.gz", pair[0], pair[1]]).unwrap_err();
        assert_eq!(error.exit_code, 2);
        assert!(error.message.contains("cannot be used with"), "{}", error.message);
    }
}

#[test]
fn cli_refuses_what_it_does_not_know() {
    for args in [
        vec!["p"],
        vec!["p", "a", "b"],
        vec!["p", "a", "--nonsense"],
        vec!["p", "a", "-P", "many"],
        vec!["p", "a", "-P", "4294967296"],
        vec!["p", "a", "--chunk-size=-1"],
        vec!["p", "a", "--io-read-mode", "Auto"],
        vec!["p", "a", "--keep-index", "maybe"],
    ] {
        assert_eq!(parse(&args).unwrap_err().exit_code, 2, "{:?}", args);
    }
    let help = parse(&["p", "--help"]).unwrap_err();
    assert_eq!(help.exit_code, 0);
    assert!(help.message.contains("A high-performance parallel gzip decompressor"));
    assert!(help.message.contains("locked-read-and-seek"));
    let version = parse(&["p", "--version"]).unwrap_err();
    assert_eq!(version.exit_code, 0);
    assert_eq!(version.message, "rapidgzip-rs-cli 0.1.0\n");
}

fn raw(input: Option<&str>, mode: Option<&str>, keep: Option<&str>) -> RawArgs {
    RawArgs {
        input: input.map(String::from),
        output: None,
        stdout: true,
        force: false,
        decompress: false,
        keep: false,
        parallelism: Some(3),
        chunk_size: Some(9),
        export_index: None,
        import_index: None,
        io_read_mode: mode.map(String::from),
        keep_index: keep.map(String::from),
        count: false,
        count_lines: false,
        benchmark_only: false,
        quiet: false,
        verbose: true,
    }
}

#[test]
fn complete_arguments_make_a_command_line() {
    let cli = Cli::from_raw(raw(Some("x"), Some("pread"), Some("off"))).unwrap();
    assert_eq!(cli.input, "x");
    assert_eq!(cli.io_read_mode, IoReadModeArg::Pread);
    assert_eq!(cli.keep_index, KeepIndexMode::Off);
    assert_eq!(cli.parallelism, 3);
    assert_eq!(cli.chunk_size, 9);
    assert!(cli.stdout && cli.verbose && !cli.force);
    for incomplete in [
        raw(None, Some("auto"), Some("auto")),
        raw(Some("x"), None, Some("auto")),
        raw(Some("x"), Some("auto"), None),
        raw(Some("x"), Some("fast"), Some("auto")),
        raw(Some("x"), Some("auto"), Some("yes")),
    ] {
        assert!(Cli::from_raw(incomplete).is_none());
    }
    let mut incomplete = raw(Some("x"), Some("auto"), Some("auto"));
    incomplete.parallelism = None;
    assert!(Cli::from_raw(incomplete).is_none());
    let mut incomplete = raw(Some("x"), Some("auto"), Some("auto"));
    incomplete.chunk_size = None;
    assert!(Cli::from_raw(incomplete).is_none());
}

#[test]
fn classify_input_recognizes_local_url_and_stdin() {
    assert!(matches!(classify_input("-"), InputKind::Stdin));
    assert!(matches!(
        classify_input("https://example.org/a.gz"),
        InputKind::Url
    ));
    assert!(matches!(classify_input("file.gz"), InputKind::LocalPath(_)));
}

#[test]
fn classify_input_looks_at_the_scheme() {
    assert!(matches!(classify_input("http://h/a"), InputKind::Url));
    assert!(matches!(classify_input("HTTPS://h/a"), InputKind::Url));
    assert!(matches!(
        classify_input("ftp://h/a"),
        InputKind::LocalPath(_)
    ));
    assert!(matches!(classify_input("https:"), InputKind::LocalPath(_)));
    match classify_input("dir/file.gz") {
        InputKind::LocalPath(path) => assert_eq!(path, Path::new("dir/file.gz")),
        other => panic!("unexpected {:?}", other),
    }
    assert!(matches!(
        classify_by_scheme("x", Some("http")),
        InputKind::Url
    ));
    assert!(matches!(
        classify_by_scheme("x", Some("file")),
        InputKind::LocalPath(_)
    ));
    assert!(matches!(
        classify_by_scheme("-", Some("http")),
        InputKind::Stdin
    ));
}

#[test]
fn indexes_come_from_files_or_the_web() {
    assert!(matches!(
        index_source(&PathBuf::from("a.idx")),
        IndexSource::File
    ));
    assert!(matches!(
        index_source(&PathBuf::from("-")),
        IndexSource::File
    ));
    match index_source(&PathBuf::from("http://h/a.idx")) {
        IndexSource::Url(address) => assert_eq!(address, "http://h/a.idx"),
        IndexSource::File => panic!("expected a web address"),
    }
}

#[test]
fn parallelism_falls_back_to_the_machine() {
    assert_eq!(resolved_parallelism(3, Some(8)), 3);
    assert_eq!(resolved_parallelism(0, Some(8)), 8);
    assert_eq!(resolved_parallelism(0, None), 1);
    assert_eq!(resolved_parallelism(0, Some((1 << 32) + 5)), 5);
}

#[test]
fn infer_output_path_strips_gzip_extensions() {
    assert_eq!(
        infer_output_path(&PathBuf::from("reads.fastq.gz")).unwrap(),
        PathBuf::from("reads.fastq")
    );
    assert_eq!(
        infer_output_path(&PathBuf::from("reads.fastq.bgz")).unwrap(),
        PathBuf::from("reads.fastq")
    );
    assert!(infer_output_path(&PathBuf::from("reads.fastq")).is_err());
}

#[test]
fn output_stays_in_the_directory_of_the_input() {
    assert_eq!(
        infer_output_path(&PathBuf::from("a/b/c.gz")).unwrap(),
        PathBuf::from("a/b/c")
    );
    assert!(infer_output_path(&PathBuf::from(".gz")).is_err());
    assert!(infer_output_path(&PathBuf::from("a/.bgz")).is_err());
    let error = infer_output_path(&PathBuf::from("..")).unwrap_err();
    assert!(matches!(error, OutputError::Underivable));
    assert_eq!(
        error.message(),
        "Could not derive output path from input name. Pass --output <PATH> or --stdout"
    );
    assert_eq!(derive_output_name(Some("x.gz.gz")).unwrap(), "x.gz");
    assert_eq!(derive_output_name(Some("x.gz.bgz")).unwrap(), "x.gz");
    assert_eq!(derive_output_name(Some("\u{e9}.gz")).unwrap(), "\u{e9}");
    assert!(derive_output_name(None).is_err());
    assert!(derive_output_name(Some("gz")).is_err());
}

#[test]
fn resolve_output_target_requires_explicit_output_for_stdin_and_url() {
    let stdin_cli = parse(&["rapidgzip-rs-cli", "-"]).unwrap();
    assert!(resolve_output_target(&stdin_cli, &InputKind::Stdin).is_err());

    let url_cli = parse(&["rapidgzip-rs-cli", "https://example.org/a.gz"]).unwrap();
    assert!(resolve_output_target(&url_cli, &InputKind::Url).is_err());

    let file_cli = parse(&["rapidgzip-rs-cli", "reads.fastq.gz"]).unwrap();
    match resolve_output_target(
        &file_cli,
        &InputKind::LocalPath(PathBuf::from("reads.fastq.gz")),
    )
    .unwrap()
    {
        OutputTarget::File(path) => assert_eq!(path, PathBuf::from("reads.fastq")),
        _ => panic!("expected file output target"),
    }
}

#[test]
fn output_goes_where_it_is_sent() {
    let local = InputKind::LocalPath(PathBuf::from("x"));
    for flag in ["--count", "--count-lines", "--benchmark-only"] {
        let cli = parse(&["p", "x", flag]).unwrap();
        assert!(matches!(
            resolve_output_target(&cli, &InputKind::Stdin).unwrap(),
            OutputTarget::Discard
        ));
    }
    let cli = parse(&["p", "x", "-c"]).unwrap();
    assert!(matches!(
        resolve_output_target(&cli, &InputKind::Url).unwrap(),
        OutputTarget::Stdout
    ));
    let cli = parse(&["p", "x", "-o", "y"]).unwrap();
    match resolve_output_target(&cli, &local).unwrap() {
        OutputTarget::File(path) => assert_eq!(path, Path::new("y")),
        _ => panic!("expected file output target"),
    }
    let cli = parse(&["p", "x"]).unwrap();
    assert!(matches!(
        resolve_output_target(&cli, &local).unwrap_err(),
        OutputError::Underivable
    ));
    let error = resolve_output_target(&cli, &InputKind::Url).unwrap_err();
    assert_eq!(
        error.message(),
        "This input has no safe default output path. Pass --output <PATH> or --stdout"
    );
}

#[test]
fn existing_output_needs_force() {
    let path = PathBuf::from("dir/out.txt");
    let error = prepare_output_file(&path, false, true).unwrap_err();
    assert_eq!(
        error.message(),
        "Output file already exists: dir/out.txt. Pass --force to overwrite it"
    );
    for (force, exists) in [(true, true), (true, false), (false, false)] {
        let temp = prepare_output_file(&path, force, exists).unwrap();
        assert_eq!(temp.directory, Path::new("dir"));
        assert_eq!(temp.prefix, ".rapidgzip-rs-cli.");
        assert_eq!(temp.suffix, ".tmp");
    }
    let root = prepare_output_file(&PathBuf::from("/"), false, false).unwrap();
    assert_eq!(root.directory, Path::new("."));
}

#[test]
fn old_output_is_removed_once_the_new_one_is_safe() {
    let steps = |force: bool, exists: bool| {
        let mut step = FinalizeStep::Sync;
        let mut all = Vec::new();
        while step != FinalizeStep::Done {
            all.push(step);
            step = finalize_output_file(step, force, exists);
        }
        all
    };
    assert_eq!(
        steps(true, true),
        vec![
            FinalizeStep::Sync,
            FinalizeStep::Remove,
            FinalizeStep::Persist
        ]
    );
    assert_eq!(
        steps(false, true),
        vec![FinalizeStep::Sync, FinalizeStep::Persist]
    );
    assert_eq!(
        steps(true, false),
        vec![FinalizeStep::Sync, FinalizeStep::Persist]
    );
}

#[test]
fn output_failures_name_the_file() {
    let path = PathBuf::from("dir/out.txt");
    assert_eq!(
        prepare_failure(&path),
        "Failed to create temporary output file next to dir/out.txt"
    );
    assert_eq!(
        finalize_failure(FinalizeStep::Sync, &path),
        "Failed to flush temporary output file before finalizing dir/out.txt"
    );
    assert_eq!(
        finalize_failure(FinalizeStep::Remove, &path),
        "Failed to replace existing output file: dir/out.txt"
    );
    assert_eq!(
        finalize_failure(FinalizeStep::Persist, &path),
        "Failed to move temporary output file into place: dir/out.txt"
    );
}

#[test]
fn help_describes_the_modes() {
    let error = parse(&["p", "--help"]).unwrap_err();
    assert_eq!(error.exit_code, 0);
    let words = error
        .message
        .split_whitespace()
        .collect::<Vec<_>>()
        .join(" ");
    for text in [
        "auto: Keep the native default behavior for the current input type",
        "sequential: Force sequential buffered reads. Useful for HDD-heavy or linear-read workloads",
        "pread: Force positioned reads on seekable files. Useful for SSD-friendly parallel access",
        "locked-read-and-seek: Force shared read/seek operations without pread. Useful as a conservative fallback",
        "on: Keep the in-memory index after reads complete",
        "off: Drop the in-memory index when it is no longer needed",
        "[alias: --parallelism]",
    ] {
        assert!(words.contains(text), "{} is missing in {}", text, words);
    }
}

#[test]
fn inference_undoes_the_extensions_in_any_directory() {
    for directory in ["", "/", ".", "..", "a", "a/", "a//", "a/.", "a/../b", "/x/y.gz"] {
        let directory = Path::new(directory);
        for stem in ["s", "reads.fastq", ".hidden", "x.gz", "12:30", "c:x", "a\\b", "...", "\u{e9}t\u{e9}"] {
            for extension in [".gz", ".bgz"] {
                let path = directory.join(format!("{}{}", stem, extension));
                let output = infer_output_path(&path).unwrap();
                assert_eq!(output, directory.join(stem));
                assert_eq!(output.file_name(), Path::new(stem).file_name());
                assert_eq!(output.parent(), path.parent());
                assert_ne!(output, path);
            }
        }
    }
}

#[test]
fn output_is_never_the_input() {
    for path in ["..gz", "a/..gz", "...gz", "..gz/..gz", "a/...bgz", "c:x.gz", "x.gz/"] {
        let path = PathBuf::from(path);
        assert_ne!(infer_output_path(&path).unwrap(), path);
    }
}

#[test]
fn defaults_stand_on_lines_of_their_own() {
    let error = parse(&["p", "--help"]).unwrap_err();
    let defaults: Vec<&str> = error
        .message
        .lines()
        .map(str::trim)
        .filter(|line| line.starts_with("[default: "))
        .collect();
    assert_eq!(
        defaults,
        vec![
            "[default: 0]",
            "[default: 4194304]",
            "[default: auto]",
            "[default: auto]",
        ]
    );
    let drops = error.message.find("when it is no longer needed").unwrap();
    assert!(error.message.rfind("[default: auto]").unwrap() > drops);
    assert!(error.message.starts_with("A high-performance parallel gzip decompressor"));
}

#[test]
fn short_help_has_a_description() {
    let error = parse(&["p", "-h"]).unwrap_err();
    assert_eq!(error.exit_code, 0);
    assert!(error
        .message
        .starts_with("Command-line decompressor for .gz and .bgz data"));
    assert!(error.message.contains("[default: 4194304]"));
}

use rapidgzip_cli::cli::{Cli, IoReadModeArg};
use rapidgzip_cli::decimal::{append_decimal, parse_u64};
use rapidgzip_cli::input::InputKind;
use rapidgzip_cli::notices::{
    cancelled_notice, compatibility_notices, config_notice, export_notice, import_notice,
    job_notice, log_info, log_verbose, open_failure, opening_notice, output_notice,
    startup_notices, step_notices,
};
use rapidgzip_cli::output::OutputTarget;
use rapidgzip_cli::session::{is_cancelled, job_of, reader_config, Action, Job, Phase, Session};
use rapidgzip_cli::text::{same_text, strip_suffix, text_after_last};
use std::path::PathBuf;
use std::sync::atomic::{AtomicBool, Ordering};

fn cli(args: &[&str]) -> Cli {
    let mut argv = vec![PathBuf::from("rapidgzip-rs-cli")];
    argv.extend(args.iter().map(PathBuf::from));
    Cli::try_parse_from(argv).unwrap()
}

#[test]
fn cancellation_is_seen() {
    let flag = AtomicBool::new(false);
    assert!(!is_cancelled(&flag));
    flag.store(true, Ordering::Relaxed);
    assert!(is_cancelled(&flag));
}

#[test]
fn numbers_are_written_and_read() {
    for n in [0, 7, 10, 99, 100, 12345, u64::MAX] {
        let mut text = String::from("=");
        append_decimal(&mut text, n);
        assert_eq!(text, format!("={}", n));
        assert_eq!(parse_u64(&text[1..]), Some(n));
    }
    assert_eq!(parse_u64("+12"), Some(12));
    assert_eq!(parse_u64("007"), Some(7));
    for text in ["", "+", "-1", "1 ", " 1", "1x", "++1", "18446744073709551616"] {
        assert_eq!(parse_u64(text), text.parse::<u64>().ok(), "{:?}", text);
        assert_eq!(parse_u64(text), None);
    }
}

#[test]
fn texts_are_cut() {
    assert!(same_text("ab", "ab") && !same_text("ab", "aB") && !same_text("a", "ab"));
    assert_eq!(text_after_last("a/b/c", '/'), Some("c"));
    assert_eq!(text_after_last("a/", '/'), Some(""));
    assert_eq!(text_after_last("\u{e9}/\u{fc}", '/'), Some("\u{fc}"));
    assert_eq!(text_after_last("abc", '/'), None);
    assert_eq!(strip_suffix("a.gz", ".gz"), Some("a"));
    assert_eq!(strip_suffix("gz", ".gz"), None);
    assert_eq!(strip_suffix("a.gzz", ".gz"), None);
}

#[test]
fn jobs_follow_the_options() {
    assert_eq!(job_of(&cli(&["x", "--count"])), Job::CountBytes);
    assert_eq!(job_of(&cli(&["x", "-l"])), Job::CountLines);
    assert_eq!(job_of(&cli(&["x", "--benchmark-only"])), Job::Benchmark);
    assert_eq!(job_of(&cli(&["x"])), Job::Decompress);
}

#[test]
fn indexes_in_use_are_kept() {
    let kept = |args: &[&str]| reader_config(&cli(args), &InputKind::Stdin).keep_index;
    assert_eq!(kept(&["x"]), None);
    assert_eq!(kept(&["x", "--import-index", "i"]), Some(true));
    assert_eq!(kept(&["x", "--export-index", "e"]), Some(true));
    assert_eq!(kept(&["x", "--keep-index", "on"]), Some(true));
    assert_eq!(
        kept(&["x", "--keep-index", "off", "--export-index", "e"]),
        Some(false)
    );
    let config = reader_config(&cli(&["x", "-P", "3"]), &InputKind::Url);
    assert_eq!(config.parallelism, 3);
    assert_eq!(config.chunk_size, 4194304);
    assert_eq!(config.io_read_mode, IoReadModeArg::Sequential);
}

#[test]
fn full_run_has_all_steps_in_order() {
    let cli = cli(&[
        "x.gz",
        "-v",
        "--import-index",
        "i",
        "--export-index",
        "e",
    ]);
    let target = OutputTarget::File(PathBuf::from("x"));
    let mut session = Session::new(&cli, &target);
    assert_eq!(session.next(false), Action::Open);
    assert_eq!(session.next(false), Action::ImportIndex);
    assert_eq!(session.next(false), Action::PrepareOutput);
    assert_eq!(session.next(false), Action::Read);
    session.on_chunk(100);
    assert_eq!(session.next(false), Action::Read);
    session.on_chunk(23);
    assert_eq!(session.next(false), Action::Read);
    session.on_chunk(0);
    assert_eq!(session.next(false), Action::FinalizeOutput);
    assert_eq!(session.next(false), Action::Summarize(123));
    assert_eq!(session.next(false), Action::ExportIndex);
    assert_eq!(session.next(false), Action::Finish);
    assert_eq!(session.next(false), Action::Finish);
}

#[test]
fn cancelled_run_keeps_no_output() {
    let cli = cli(&["x.gz", "-v", "--export-index", "e"]);
    let target = OutputTarget::File(PathBuf::from("x"));
    let mut session = Session::new(&cli, &target);
    assert_eq!(session.next(false), Action::Open);
    assert_eq!(session.next(false), Action::PrepareOutput);
    assert_eq!(session.next(false), Action::Read);
    session.on_chunk(100);
    assert_eq!(session.next(true), Action::Abort(1));
    assert_eq!(session.phase, Phase::Abort);
    assert_eq!(session.next(true), Action::Abort(1));
}

#[test]
fn late_cancellation_keeps_no_output() {
    let cli = cli(&["x.gz"]);
    let mut session = Session::new(&cli, &OutputTarget::File(PathBuf::from("x")));
    session.next(false);
    session.next(false);
    assert_eq!(session.next(false), Action::Read);
    session.on_chunk(0);
    assert_eq!(session.next(true), Action::Abort(1));
}

#[test]
fn counts_are_printed_even_when_cancelled() {
    let cli = cli(&["x.gz", "--count"]);
    let mut session = Session::new(&cli, &OutputTarget::Discard);
    assert_eq!(session.next(false), Action::Open);
    assert_eq!(session.next(false), Action::Read);
    session.on_chunk(41);
    assert_eq!(session.next(true), Action::Report(41));
    assert_eq!(session.next(true), Action::Abort(1));
}

#[test]
fn lines_are_counted_across_pieces() {
    let data: Vec<u8> = b"one\ntwo\n\nthree and a longer line to fill the vector units\nlast".to_vec();
    let cli = cli(&["x.gz", "--count-lines"]);
    for cut in [1, 3, 4, 8, 33, data.len()] {
        let mut session = Session::new(&cli, &OutputTarget::Discard);
        assert_eq!(session.next(false), Action::Open);
        for piece in data.chunks(cut) {
            assert_eq!(session.next(false), Action::Read);
            session.on_data(piece);
        }
        assert_eq!(session.next(false), Action::Read);
        session.on_data(&[]);
        assert_eq!(session.next(false), Action::Report(4));
        assert_eq!(session.total_bytes, data.len() as u64);
        assert_eq!(session.next(false), Action::Finish);
    }
}

#[test]
fn write_failures_count_only_without_cancellation() {
    let cli = cli(&["x.gz", "-c"]);
    let mut session = Session::new(&cli, &OutputTarget::Stdout);
    session.next(false);
    assert_eq!(session.next(false), Action::Read);
    assert!(session.on_write_failure(false));
    assert!(!session.ended);
    assert!(!session.on_write_failure(true));
    assert!(session.ended);
    assert_eq!(session.next(true), Action::Abort(1));
}

#[test]
fn benchmark_summarizes() {
    let cli = cli(&["x.gz", "--benchmark-only"]);
    let mut session = Session::new(&cli, &OutputTarget::Discard);
    session.next(false);
    assert_eq!(session.next(false), Action::Read);
    session.on_chunk(5);
    session.next(false);
    session.on_chunk(0);
    assert_eq!(session.next(false), Action::Summarize(5));
    assert_eq!(session.next(false), Action::Finish);
}

#[test]
fn messages_follow_verbosity() {
    let (normal, quiet, verbose) = (cli(&["x"]), cli(&["x", "-q"]), cli(&["x", "-v"]));
    assert_eq!(log_info(&normal, "m".into()), Some("m".into()));
    assert_eq!(log_info(&quiet, "m".into()), None);
    assert_eq!(log_verbose(&normal, "m".into()), None);
    assert_eq!(log_verbose(&verbose, "m".into()), Some("m".into()));
    assert_eq!(cancelled_notice(&quiet), None);
    assert_eq!(
        cancelled_notice(&normal).unwrap(),
        ">> Operation cancelled. Temporary output will be discarded."
    );
    assert_eq!(job_notice(&normal, Job::CountBytes), None);
    assert_eq!(
        job_notice(&normal, Job::Decompress).unwrap(),
        ">> Decompressing..."
    );
    assert_eq!(
        job_notice(&normal, Job::Benchmark).unwrap(),
        ">> Decompressing (benchmark-only mode: data will be discarded)..."
    );
}

#[test]
fn startup_warns_of_memory() {
    let auto = cli(&["https://h/x", "-P", "4"]);
    let notices = startup_notices(&auto, &InputKind::Url, None);
    assert_eq!(notices.len(), 2);
    assert_eq!(
        notices[0],
        ">> URL input without an imported index uses sequential buffered reads to avoid redundant HTTP range requests."
    );
    assert_eq!(
        notices[1],
        ">> Warning: sequential URL decoding with parallelism 4 retains more compressed input in memory for correctness. Memory usage may be significant; prefer -P 1 or import an index if needed."
    );
    let single = cli(&["https://h/x", "-P", "1", "--io-read-mode", "sequential"]);
    assert!(startup_notices(&single, &InputKind::Url, Some(8)).is_empty());
    let machine = cli(&["https://h/x", "--io-read-mode", "sequential"]);
    assert_eq!(startup_notices(&machine, &InputKind::Url, Some(8)).len(), 1);
    let quiet = cli(&["https://h/x", "-q"]);
    assert!(startup_notices(&quiet, &InputKind::Url, Some(8)).is_empty());
    assert!(startup_notices(&auto, &InputKind::Stdin, Some(8)).is_empty());
}

#[test]
fn details_are_told_on_request() {
    let verbose = cli(&["x", "-v", "-d", "-k", "-P", "2", "--keep-index", "on"]);
    assert_eq!(
        config_notice(&verbose, &InputKind::Url).unwrap(),
        ">> Builder config: parallelism=2, chunk_size=4194304, requested_io_read_mode=Auto, effective_io_read_mode=Sequential, keep_index=On"
    );
    assert_eq!(
        compatibility_notices(&verbose),
        vec![
            ">> --decompress accepted for compatibility; rapidgzip-rs-cli only supports decompression",
            ">> --keep accepted for compatibility; rapidgzip-rs-cli never deletes the input file",
        ]
    );
    let plain = cli(&["x", "-d", "-k"]);
    assert!(config_notice(&plain, &InputKind::Url).is_none());
    assert!(compatibility_notices(&plain).is_empty());
    assert_eq!(
        opening_notice(&plain, &InputKind::Url).unwrap(),
        ">> Opening URL: x"
    );
    assert_eq!(
        opening_notice(&plain, &InputKind::LocalPath(PathBuf::from("x"))).unwrap(),
        ">> Opening file: x"
    );
    assert_eq!(
        opening_notice(&plain, &InputKind::Stdin).unwrap(),
        ">> Spooling standard input into a temporary file for seekable decompression..."
    );
}

#[test]
fn paths_are_told() {
    let verbose = cli(&["x", "-v", "--import-index", "a b.idx", "--export-index", "q\"t"]);
    assert_eq!(
        import_notice(&verbose).unwrap(),
        ">> Importing index from \"a b.idx\""
    );
    assert_eq!(
        export_notice(&verbose).unwrap(),
        ">> Exporting index to \"q\\\"t\""
    );
    let target = OutputTarget::File(PathBuf::from("dir/out"));
    assert_eq!(
        output_notice(&verbose, &target).unwrap(),
        ">> Output file: dir/out"
    );
    assert!(output_notice(&verbose, &OutputTarget::Stdout).is_none());
    let plain = cli(&["x"]);
    assert!(output_notice(&plain, &target).is_none());
    assert!(import_notice(&plain).is_none());
    assert!(export_notice(&plain).is_none());
    let quiet = cli(&["x", "-q", "--import-index", "i", "--export-index", "e"]);
    assert!(import_notice(&quiet).is_none());
    assert!(export_notice(&quiet).is_none());
}

#[test]
fn open_failures_name_the_input() {
    let cli = cli(&["in.gz"]);
    assert_eq!(
        open_failure(&cli, &InputKind::LocalPath(PathBuf::from("in.gz"))),
        "Failed to open input file: in.gz"
    );
    assert_eq!(
        open_failure(&cli, &InputKind::Url),
        "Failed to open HTTP reader in rapidgzip"
    );
    assert_eq!(
        open_failure(&cli, &InputKind::Stdin),
        "Failed to open spooled standard input in rapidgzip"
    );
}

/// All messages of a run that reads one piece, step by step.
fn told(cli: &Cli, kind: &InputKind, target: &OutputTarget, cancelled: bool) -> Vec<Vec<String>> {
    let mut session = Session::new(cli, target);
    let mut all = Vec::new();
    loop {
        let earlier = session.phase;
        let action = session.next(cancelled);
        all.push(step_notices(cli, kind, target, Some(1), earlier, session.phase));
        match action {
            Action::Read => session.on_chunk(0),
            Action::Finish | Action::Abort(_) => return all,
            _ => {}
        }
    }
}

#[test]
fn messages_come_at_their_steps() {
    let kind = InputKind::LocalPath(PathBuf::from("x.gz"));
    let file = OutputTarget::File(PathBuf::from("x"));
    let full = cli(&[
        "x.gz", "-v", "-d", "--import-index", "i", "--export-index", "e",
    ]);
    assert_eq!(
        told(&full, &kind, &file, false),
        vec![
            vec![
                ">> Builder config: parallelism=0, chunk_size=4194304, requested_io_read_mode=Auto, effective_io_read_mode=Auto, keep_index=Auto",
                ">> Opening file: x.gz",
            ],
            vec![">> Importing index from \"i\""],
            vec![
                ">> --decompress accepted for compatibility; rapidgzip-rs-cli only supports decompression",
                ">> Output file: x",
            ],
            vec![">> Decompressing..."],
            vec![],
            vec![],
            vec![">> Exporting index to \"e\""],
            vec![],
        ]
    );
    let plain = cli(&["x.gz", "-c"]);
    assert_eq!(
        told(&plain, &kind, &OutputTarget::Stdout, false),
        vec![
            vec![">> Opening file: x.gz"],
            vec![">> Decompressing..."],
            vec![],
        ]
    );
    assert_eq!(
        told(&plain, &kind, &OutputTarget::Stdout, true),
        vec![
            vec![">> Opening file: x.gz"],
            vec![
                ">> Decompressing...",
                ">> Operation cancelled. Temporary output will be discarded.",
            ],
        ]
    );
    let quiet = cli(&["x.gz", "-q", "--import-index", "i", "--export-index", "e"]);
    for cancelled in [false, true] {
        assert!(told(&quiet, &kind, &file, cancelled)
            .iter()
            .all(|notices| notices.is_empty()));
    }
}

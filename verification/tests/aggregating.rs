use md5sum::aggregate::{
    apply_outcome, md5sum_finish, produce_step, run_check, ConsoleLine, RunConfiguration,
    RunState, Sink,
};
use md5sum::decimal::decimal_string;
use md5sum::digest::digest_bytes;
use md5sum::engine::{md5sum_check, MD5Check};

fn plain_config() -> RunConfiguration {
    RunConfiguration {
        ignore_missing: false,
        quiet: false,
        status: false,
        strict: false,
        warn: false,
    }
}

fn texts(lines: &[ConsoleLine]) -> Vec<(Sink, String)> {
    lines.iter().map(|l| (l.sink, l.text.clone())).collect()
}

#[test]
fn all_matching_targets_exit_zero_with_one_ok_line_each() {
    let outcomes = vec![
        MD5Check::MatchSuccess("a.txt".to_string()),
        MD5Check::MatchSuccess("b.txt".to_string()),
        MD5Check::MatchSuccess("c.txt".to_string()),
    ];
    let out = run_check(&plain_config(), &outcomes);
    assert_eq!(0, out.exit_code);
    assert_eq!(
        vec![
            (Sink::Output, "a.txt: OK".to_string()),
            (Sink::Output, "b.txt: OK".to_string()),
            (Sink::Output, "c.txt: OK".to_string()),
        ],
        texts(&out.lines)
    );
}

#[test]
fn a_mismatch_prints_failed_and_the_singular_summary() {
    let outcomes = vec![
        MD5Check::MatchSuccess("a.txt".to_string()),
        MD5Check::MatchFailed("b.txt".to_string()),
    ];
    let out = run_check(&plain_config(), &outcomes);
    assert_eq!(1, out.exit_code);
    assert_eq!(
        vec![
            (Sink::Output, "a.txt: OK".to_string()),
            (Sink::Diagnostic, "b.txt: FAILED".to_string()),
            (
                Sink::Diagnostic,
                "md5sum: WARNING: 1 computed checksum did NOT match".to_string()
            ),
        ],
        texts(&out.lines)
    );
}

#[test]
fn several_mismatches_pluralize_the_summary_with_the_count() {
    let outcomes = vec![
        MD5Check::MatchFailed("a".to_string()),
        MD5Check::MatchFailed("b".to_string()),
        MD5Check::MatchFailed("c".to_string()),
    ];
    let out = run_check(&plain_config(), &outcomes);
    assert_eq!(1, out.exit_code);
    assert_eq!(
        (
            Sink::Diagnostic,
            "md5sum: WARNING: 3 computed checksums did NOT match".to_string()
        ),
        texts(&out.lines)[3]
    );
}

#[test]
fn strict_aborts_on_the_first_bad_format_line() {
    let mut config = plain_config();
    config.strict = true;
    let outcomes = vec![
        MD5Check::MatchSuccess("a.txt".to_string()),
        MD5Check::BadFormat,
        MD5Check::MatchSuccess("never-reached.txt".to_string()),
        MD5Check::MatchFailed("never-reached-either.txt".to_string()),
    ];
    let out = run_check(&config, &outcomes);
    assert_eq!(1, out.exit_code);
    assert_eq!(
        vec![
            (Sink::Output, "a.txt: OK".to_string()),
            (Sink::Diagnostic, "ERROR: line badly formatted".to_string()),
        ],
        texts(&out.lines)
    );
}

#[test]
fn without_strict_bad_format_is_silent_unless_warn() {
    let outcomes = vec![MD5Check::BadFormat, MD5Check::MatchSuccess("a.txt".to_string())];

    let out = run_check(&plain_config(), &outcomes);
    assert_eq!(0, out.exit_code);
    assert_eq!(vec![(Sink::Output, "a.txt: OK".to_string())], texts(&out.lines));

    let mut warn_config = plain_config();
    warn_config.warn = true;
    let out = run_check(&warn_config, &outcomes);
    assert_eq!(0, out.exit_code);
    assert_eq!(
        vec![
            (Sink::Diagnostic, "WARNING: line badly formatted".to_string()),
            (Sink::Output, "a.txt: OK".to_string()),
        ],
        texts(&out.lines)
    );
}

#[test]
fn a_missing_target_aborts_unless_ignore_missing() {
    let outcomes = vec![
        MD5Check::MatchSuccess("a.txt".to_string()),
        MD5Check::ReadError("gone.txt".to_string(), "no such file".to_string()),
        MD5Check::MatchSuccess("never-reached.txt".to_string()),
    ];

    let out = run_check(&plain_config(), &outcomes);
    assert_eq!(1, out.exit_code);
    assert_eq!(
        vec![
            (Sink::Output, "a.txt: OK".to_string()),
            (Sink::Diagnostic, "FAILED: could not read gone.txt".to_string()),
        ],
        texts(&out.lines)
    );

    let mut config = plain_config();
    config.ignore_missing = true;
    let out = run_check(&config, &outcomes);
    assert_eq!(0, out.exit_code);
    assert_eq!(
        vec![
            (Sink::Output, "a.txt: OK".to_string()),
            (Sink::Output, "never-reached.txt: OK".to_string()),
        ],
        texts(&out.lines)
    );
}

#[test]
fn status_suppresses_lines_but_not_the_exit_code() {
    let mut config = plain_config();
    config.status = true;
    let outcomes = vec![
        MD5Check::MatchSuccess("a.txt".to_string()),
        MD5Check::MatchFailed("b.txt".to_string()),
    ];
    let out = run_check(&config, &outcomes);
    assert_eq!(1, out.exit_code);
    // The summary is suppressed by quiet only, not by status.
    assert_eq!(
        vec![(
            Sink::Diagnostic,
            "md5sum: WARNING: 1 computed checksum did NOT match".to_string()
        )],
        texts(&out.lines)
    );

    config.quiet = true;
    let out = run_check(&config, &outcomes);
    assert_eq!(1, out.exit_code);
    assert!(out.lines.is_empty());
}

#[test]
fn apply_outcome_and_finish_step_through_a_run() {
    let config = plain_config();
    let mut state = RunState::new();

    let (lines, abort) =
        apply_outcome(&mut state, &config, &MD5Check::MatchSuccess("a.txt".to_string()));
    assert!(!abort);
    assert_eq!(vec![(Sink::Output, "a.txt: OK".to_string())], texts(&lines));

    let (lines, abort) =
        apply_outcome(&mut state, &config, &MD5Check::MatchFailed("b.txt".to_string()));
    assert!(!abort);
    assert_eq!(vec![(Sink::Diagnostic, "b.txt: FAILED".to_string())], texts(&lines));

    let (lines, code) = md5sum_finish(&state, &config);
    assert_eq!(1, code);
    assert_eq!(
        vec![(
            Sink::Diagnostic,
            "md5sum: WARNING: 1 computed checksum did NOT match".to_string()
        )],
        texts(&lines)
    );
}

#[test]
fn empty_file_manifest_line_verifies_end_to_end() {
    let line = "d41d8cd98f00b204e9800998ecf8427e *empty.txt";
    let computed = Ok(digest_bytes(b""));
    let outcome = md5sum_check(line, computed);
    assert_eq!(MD5Check::MatchSuccess("empty.txt".to_string()), outcome);

    let out = run_check(&plain_config(), &vec![outcome]);
    assert_eq!(0, out.exit_code);
    assert_eq!(vec![(Sink::Output, "empty.txt: OK".to_string())], texts(&out.lines));
}

#[test]
fn produce_mode_prints_a_line_per_target_and_fails_fast() {
    let config = plain_config();

    let (lines, abort) = produce_step("empty.txt", Ok(digest_bytes(b"")), &config);
    assert!(!abort);
    assert_eq!(
        vec![(
            Sink::Output,
            "d41d8cd98f00b204e9800998ecf8427e  empty.txt".to_string()
        )],
        texts(&lines)
    );

    let (lines, abort) =
        produce_step("gone.txt", Err("no such file".to_string()), &config);
    assert!(abort);
    assert_eq!(
        vec![(
            Sink::Diagnostic,
            "Error when reading \"gone.txt\": no such file".to_string()
        )],
        texts(&lines)
    );

    let mut quiet_config = plain_config();
    quiet_config.quiet = true;
    let (lines, abort) =
        produce_step("gone.txt", Err("no such file".to_string()), &quiet_config);
    assert!(abort);
    assert!(lines.is_empty());
}

#[test]
fn counts_render_in_decimal() {
    assert_eq!("0", decimal_string(0));
    assert_eq!("7", decimal_string(7));
    assert_eq!("10", decimal_string(10));
    assert_eq!("12045", decimal_string(12045));
}

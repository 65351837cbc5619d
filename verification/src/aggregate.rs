//! The result aggregator: folds the ordered outcomes of a verification
//! run, under the five run flags, into console lines and a process exit
//! code. Failed targets accumulate across the run; a strict-mode format
//! violation or a non-ignored read error aborts the run on the spot.

use vstd::prelude::*;

use crate::decimal::{decimal_string, spec_decimal};
use crate::digest::Digest;
use crate::engine::MD5Check;
use crate::hex::spec_hex_of_bytes;
use crate::parse::{format_md5sum_line, spec_format_line};

verus! {

/// The five flags of a verification run, fixed for its whole lifetime.
#[derive(Clone, Copy, PartialEq, Eq, Structural, Debug)]
pub struct RunConfiguration {
    pub ignore_missing: bool,
    pub quiet: bool,
    pub status: bool,
    pub strict: bool,
    pub warn: bool,
}

/// Which console stream a line belongs on.
#[derive(Clone, Copy, PartialEq, Eq, Structural, Debug)]
pub enum Sink {
    Output,
    Diagnostic,
}

/// One line of console text, destined for `sink`.
#[derive(Clone, Debug, PartialEq, Eq)]
pub struct ConsoleLine {
    pub sink: Sink,
    pub text: String,
}

/// The mathematical form of a console line.
#[verifier::ext_equal]
pub struct LineModel {
    pub sink: Sink,
    pub text: Seq<char>,
}

/// The models of a sequence of console lines.
pub open spec fn spec_lines_of(lines: Seq<ConsoleLine>) -> Seq<LineModel> {
    lines.map(|i: int, l: ConsoleLine| LineModel { sink: l.sink, text: l.text@ })
}

/// `"<name>: OK"`, on the output stream.
pub open spec fn spec_ok_line(name: Seq<char>) -> LineModel {
    LineModel { sink: Sink::Output, text: name + ": OK"@ }
}

/// `"<name>: FAILED"`, on the diagnostic stream.
pub open spec fn spec_failed_line(name: Seq<char>) -> LineModel {
    LineModel { sink: Sink::Diagnostic, text: name + ": FAILED"@ }
}

/// The strict-mode abort message for a malformed line.
pub open spec fn spec_format_error_line() -> LineModel {
    LineModel { sink: Sink::Diagnostic, text: "ERROR: line badly formatted"@ }
}

/// The warning for a malformed line outside strict mode.
pub open spec fn spec_warn_line() -> LineModel {
    LineModel { sink: Sink::Diagnostic, text: "WARNING: line badly formatted"@ }
}

/// The abort message for an unreadable target.
pub open spec fn spec_unreadable_line(name: Seq<char>) -> LineModel {
    LineModel { sink: Sink::Diagnostic, text: "FAILED: could not read "@ + name }
}

/// The end-of-run summary: the count of failed targets in decimal, with
/// `checksum` in the singular for one failure and `checksums` for more.
pub open spec fn spec_summary_line(count: nat) -> LineModel {
    LineModel {
        sink: Sink::Diagnostic,
        text: "md5sum: WARNING: "@ + spec_decimal(count) + " computed checksum"@ + (if count >= 2 {
            "s"@
        } else {
            Seq::<char>::empty()
        }) + " did NOT match"@,
    }
}

/// The console lines one outcome produces: an `OK` line unless `status`;
/// a `FAILED` line unless `status` or `quiet`; for a malformed line the
/// abort message under `strict`, else a warning under `warn` unless
/// `quiet`, else nothing; for an unreadable target the abort message,
/// unless `ignore_missing` skips the line entirely.
pub open spec fn spec_outcome_lines(config: RunConfiguration, oc: MD5Check) -> Seq<LineModel> {
    match oc {
        MD5Check::MatchSuccess(name) => if !config.status {
            seq![spec_ok_line(name@)]
        } else {
            Seq::empty()
        },
        MD5Check::MatchFailed(name) => if !config.status && !config.quiet {
            seq![spec_failed_line(name@)]
        } else {
            Seq::empty()
        },
        MD5Check::BadFormat => if config.strict {
            seq![spec_format_error_line()]
        } else if config.warn && !config.quiet {
            seq![spec_warn_line()]
        } else {
            Seq::empty()
        },
        MD5Check::ReadError(name, _) => if !config.ignore_missing {
            seq![spec_unreadable_line(name@)]
        } else {
            Seq::empty()
        },
    }
}

/// Whether an outcome aborts the run at once: a malformed line under
/// `strict`, or an unreadable target not covered by `ignore_missing`.
pub open spec fn spec_outcome_aborts(config: RunConfiguration, oc: MD5Check) -> bool {
    match oc {
        MD5Check::BadFormat => config.strict,
        MD5Check::ReadError(_, _) => !config.ignore_missing,
        _ => false,
    }
}

/// The failed-target names an outcome records: exactly the target of a
/// `MatchFailed`, nothing otherwise.
pub open spec fn spec_outcome_failed(oc: MD5Check) -> Seq<Seq<char>> {
    match oc {
        MD5Check::MatchFailed(name) => seq![name@],
        _ => Seq::empty(),
    }
}

/// The end-of-run lines: the summary if any target failed, unless `quiet`
/// suppresses it (`status` does not).
pub open spec fn spec_summary_lines(config: RunConfiguration, failed_count: nat) -> Seq<
    LineModel,
> {
    if failed_count == 0 || config.quiet {
        Seq::empty()
    } else {
        seq![spec_summary_line(failed_count)]
    }
}

/// The exit code of a run that was not aborted: zero exactly when no
/// target failed.
pub open spec fn spec_final_exit(failed_count: nat) -> int {
    if failed_count == 0 {
        0
    } else {
        1
    }
}

/// The grown list of failed targets across a verification run.
pub struct RunState {
    pub failed_targets: Vec<String>,
}

impl RunState {
    /// The recorded failed-target names.
    pub open spec fn failed(&self) -> Seq<Seq<char>> {
        self.failed_targets.deep_view()
    }

    /// A fresh run: nothing failed yet.
    pub fn new() -> (r: Self)
        ensures
            r.failed() == Seq::<Seq<char>>::empty(),
    {
        let r = RunState { failed_targets: Vec::new() };
        proof {
            assert(r.failed() =~= Seq::<Seq<char>>::empty());
        }
        r
    }
}

/// Applies one outcome to the run: returns the console lines it produces
/// and whether the run aborts here, and records its failed target.
pub fn apply_outcome(state: &mut RunState, config: &RunConfiguration, outcome: &MD5Check) -> (r: (
    Vec<ConsoleLine>,
    bool,
))
    ensures
        spec_lines_of(r.0@) == spec_outcome_lines(*config, *outcome),
        r.1 == spec_outcome_aborts(*config, *outcome),
        final(state).failed() == old(state).failed() + spec_outcome_failed(*outcome),
{
    let mut lines: Vec<ConsoleLine> = Vec::new();
    let mut abort = false;
    match outcome {
        MD5Check::MatchSuccess(name) => {
            if !config.status {
                let text = name.clone().concat(": OK");
                lines.push(ConsoleLine { sink: Sink::Output, text });
            }
        },
        MD5Check::MatchFailed(name) => {
            if !config.status && !config.quiet {
                let text = name.clone().concat(": FAILED");
                lines.push(ConsoleLine { sink: Sink::Diagnostic, text });
            }
            state.failed_targets.push(name.clone());
        },
        MD5Check::BadFormat => {
            if config.strict {
                let text = String::from_str("ERROR: line badly formatted");
                lines.push(ConsoleLine { sink: Sink::Diagnostic, text });
                abort = true;
            } else if config.warn && !config.quiet {
                let text = String::from_str("WARNING: line badly formatted");
                lines.push(ConsoleLine { sink: Sink::Diagnostic, text });
            }
        },
        MD5Check::ReadError(name, _) => {
            if !config.ignore_missing {
                let mut text = String::from_str("FAILED: could not read ");
                text.append(name.as_str());
                lines.push(ConsoleLine { sink: Sink::Diagnostic, text });
                abort = true;
            }
        },
    }
    proof {
        assert(spec_lines_of(lines@) =~= spec_outcome_lines(*config, *outcome));
        assert(final(state).failed() =~= old(state).failed() + spec_outcome_failed(*outcome));
    }
    (lines, abort)
}

/// Ends a run that was not aborted: the summary lines and the exit code.
pub fn md5sum_finish(state: &RunState, config: &RunConfiguration) -> (r: (Vec<ConsoleLine>, i32))
    ensures
        spec_lines_of(r.0@) == spec_summary_lines(*config, state.failed().len()),
        r.1 as int == spec_final_exit(state.failed().len()),
{
    let count = state.failed_targets.len();
    proof {
        assert(state.failed().len() == state.failed_targets@.len());
    }
    let mut lines: Vec<ConsoleLine> = Vec::new();
    if count == 0 {
        proof {
            assert(spec_lines_of(lines@) =~= spec_summary_lines(*config, state.failed().len()));
        }
        return (lines, 0);
    }
    if !config.quiet {
        let mut text = String::from_str("md5sum: WARNING: ");
        let num = decimal_string(count);
        text.append(num.as_str());
        text.append(" computed checksum");
        if count > 1 {
            text.append("s");
        }
        text.append(" did NOT match");
        proof {
            assert(text@ == spec_summary_line(state.failed().len()).text);
        }
        lines.push(ConsoleLine { sink: Sink::Diagnostic, text });
    }
    proof {
        assert(spec_lines_of(lines@) =~= spec_summary_lines(*config, state.failed().len()));
    }
    (lines, 1)
}

/// The diagnostic line for a target that produce mode could not read.
pub open spec fn spec_produce_error_line(name: Seq<char>, error: Seq<char>) -> LineModel {
    LineModel {
        sink: Sink::Diagnostic,
        text: "Error when reading \""@ + name + "\": "@ + error,
    }
}

/// One target of a produce-mode run: a digested target contributes its
/// manifest line and the run goes on; the first unreadable target
/// reports to diagnostics (unless `quiet`) and ends the whole run with a
/// nonzero status — later targets are never touched.
pub fn produce_step(filename: &str, computed: Result<Digest, String>, config: &RunConfiguration)
    -> (r: (Vec<ConsoleLine>, bool))
    ensures
        computed matches Ok(d) ==> {
            &&& spec_lines_of(r.0@) == seq![
                LineModel {
                    sink: Sink::Output,
                    text: spec_format_line(spec_hex_of_bytes(d@), filename@),
                },
            ]
            &&& r.1 == false
        },
        computed matches Err(e) ==> {
            &&& spec_lines_of(r.0@) == (if !config.quiet {
                seq![spec_produce_error_line(filename@, e@)]
            } else {
                Seq::<LineModel>::empty()
            })
            &&& r.1 == true
        },
{
    let mut lines: Vec<ConsoleLine> = Vec::new();
    match computed {
        Ok(digest) => {
            let text = format_md5sum_line(&digest, filename);
            lines.push(ConsoleLine { sink: Sink::Output, text });
            proof {
                assert(spec_lines_of(lines@) =~= seq![
                    LineModel {
                        sink: Sink::Output,
                        text: spec_format_line(spec_hex_of_bytes(digest@), filename@),
                    },
                ]);
            }
            (lines, false)
        },
        Err(error) => {
            if !config.quiet {
                let mut text = String::from_str("Error when reading \"");
                text.append(filename);
                text.append("\": ");
                text.append(error.as_str());
                lines.push(ConsoleLine { sink: Sink::Diagnostic, text });
            }
            proof {
                assert(spec_lines_of(lines@) =~= (if !config.quiet {
                    seq![spec_produce_error_line(filename@, error@)]
                } else {
                    Seq::<LineModel>::empty()
                }));
            }
            (lines, true)
        },
    }
}

/// The mathematical form of a whole run: its console lines, in order, and
/// its exit code.
#[verifier::ext_equal]
pub struct RunModel {
    pub lines: Seq<LineModel>,
    pub exit_code: int,
}

/// Folds the outcomes in order, starting from the failed targets already
/// recorded: each outcome contributes its lines; the first aborting
/// outcome ends the run at once with exit code one, bypassing the
/// summary; otherwise the run ends with the summary lines and the final
/// exit code.
pub open spec fn spec_run_from(
    config: RunConfiguration,
    outcomes: Seq<MD5Check>,
    failed: Seq<Seq<char>>,
) -> RunModel
    decreases outcomes.len(),
{
    if outcomes.len() == 0 {
        RunModel {
            lines: spec_summary_lines(config, failed.len()),
            exit_code: spec_final_exit(failed.len()),
        }
    } else {
        let oc = outcomes[0];
        let here = spec_outcome_lines(config, oc);
        if spec_outcome_aborts(config, oc) {
            RunModel { lines: here, exit_code: 1 }
        } else {
            let rest = spec_run_from(
                config,
                outcomes.drop_first(),
                failed + spec_outcome_failed(oc),
            );
            RunModel { lines: here + rest.lines, exit_code: rest.exit_code }
        }
    }
}

/// A whole run from a fresh state.
pub open spec fn spec_run(config: RunConfiguration, outcomes: Seq<MD5Check>) -> RunModel {
    spec_run_from(config, outcomes, Seq::empty())
}

/// `spec_lines_of` distributes over concatenation.
pub proof fn lemma_lines_of_concat(a: Seq<ConsoleLine>, b: Seq<ConsoleLine>)
    ensures
        spec_lines_of(a + b) =~= spec_lines_of(a) + spec_lines_of(b),
{
}

/// A whole run's console lines and exit code.
pub struct RunOutput {
    pub lines: Vec<ConsoleLine>,
    pub exit_code: i32,
}

/// Runs the aggregator over a whole ordered sequence of outcomes: exactly
/// the model [`spec_run`], as console lines and an exit code.
pub fn run_check(config: &RunConfiguration, outcomes: &Vec<MD5Check>) -> (r: RunOutput)
    ensures
        spec_lines_of(r.lines@) == spec_run(*config, outcomes@).lines,
        r.exit_code as int == spec_run(*config, outcomes@).exit_code,
{
    let mut state = RunState::new();
    let mut lines: Vec<ConsoleLine> = Vec::new();
    let mut i: usize = 0;
    proof {
        assert(outcomes@.skip(0) =~= outcomes@);
        assert(spec_lines_of(lines@) =~= Seq::<LineModel>::empty());
        assert(spec_lines_of(lines@) + spec_run_from(*config, outcomes@, state.failed()).lines
            =~= spec_run_from(*config, outcomes@, state.failed()).lines);
    }
    while i < outcomes.len()
        invariant
            i <= outcomes@.len(),
            spec_run(*config, outcomes@).lines == spec_lines_of(lines@) + spec_run_from(
                *config,
                outcomes@.skip(i as int),
                state.failed(),
            ).lines,
            spec_run(*config, outcomes@).exit_code == spec_run_from(
                *config,
                outcomes@.skip(i as int),
                state.failed(),
            ).exit_code,
        decreases outcomes@.len() - i,
    {
        let ghost rem_pre = outcomes@.skip(i as int);
        let ghost failed_pre = state.failed();
        let oc = &outcomes[i];
        assert(rem_pre[0] == *oc);
        let (mut ls, abort) = apply_outcome(&mut state, config, oc);
        proof {
            lemma_lines_of_concat(lines@, ls@);
        }
        lines.append(&mut ls);
        if abort {
            proof {
                assert(spec_run_from(*config, rem_pre, failed_pre).lines =~= spec_outcome_lines(
                    *config,
                    *oc,
                ));
            }
            return RunOutput { lines, exit_code: 1 };
        }
        proof {
            assert(rem_pre.drop_first() =~= outcomes@.skip(i + 1));
        }
        i = i + 1;
    }
    proof {
        assert(outcomes@.skip(i as int) =~= Seq::<MD5Check>::empty());
    }
    let (mut ls, code) = md5sum_finish(&state, config);
    proof {
        lemma_lines_of_concat(lines@, ls@);
    }
    lines.append(&mut ls);
    RunOutput { lines, exit_code: code }
}

/// A run of nothing but matches verifies: it exits zero and prints
/// exactly one `OK` line per outcome, in order, each naming its target —
/// `status` being off; `quiet` does not touch `OK` lines.
pub proof fn lemma_all_matches_verify(config: RunConfiguration, outcomes: Seq<MD5Check>)
    requires
        !config.status,
        forall|k: int| 0 <= k < outcomes.len() ==> #[trigger] outcomes[k] is MatchSuccess,
    ensures
        spec_run(config, outcomes).exit_code == 0,
        spec_run(config, outcomes).lines.len() == outcomes.len(),
        forall|k: int|
            0 <= k < outcomes.len() ==> spec_run(config, outcomes).lines[k] == spec_ok_line(
                #[trigger] outcomes[k]->MatchSuccess_0@,
            ),
    decreases outcomes.len(),
{
    if outcomes.len() > 0 {
        let oc = outcomes[0];
        assert(oc is MatchSuccess);
        assert(Seq::<Seq<char>>::empty() + spec_outcome_failed(oc) =~= Seq::<Seq<char>>::empty());
        lemma_all_matches_verify(config, outcomes.drop_first());
        let rest = spec_run(config, outcomes.drop_first());
        assert(spec_run(config, outcomes).lines =~= seq![spec_ok_line(oc->MatchSuccess_0@)]
            + rest.lines);
        assert forall|k: int| 0 <= k < outcomes.len() implies spec_run(config, outcomes).lines[k]
            == spec_ok_line(#[trigger] outcomes[k]->MatchSuccess_0@) by {
            if k > 0 {
                assert(outcomes.drop_first()[k - 1] == outcomes[k]);
                assert(rest.lines[k - 1] == spec_ok_line(outcomes.drop_first()[k - 1]->MatchSuccess_0@));
            }
        }
    }
}

/// Helper for the abort laws, generalized over the failures already
/// recorded: once the first aborting outcome is reached, the outcomes
/// after it have no effect, and the run exits one.
proof fn lemma_run_from_abort(
    config: RunConfiguration,
    outcomes: Seq<MD5Check>,
    failed: Seq<Seq<char>>,
    i: int,
)
    requires
        0 <= i < outcomes.len(),
        spec_outcome_aborts(config, outcomes[i]),
        forall|j: int| 0 <= j < i ==> !spec_outcome_aborts(config, #[trigger] outcomes[j]),
    ensures
        spec_run_from(config, outcomes, failed) == spec_run_from(
            config,
            outcomes.take(i + 1),
            failed,
        ),
        spec_run_from(config, outcomes, failed).exit_code == 1,
    decreases i,
{
    if i == 0 {
        assert(outcomes.take(1)[0] == outcomes[0]);
        assert(spec_run_from(config, outcomes, failed) =~= spec_run_from(
            config,
            outcomes.take(1),
            failed,
        ));
    } else {
        let oc = outcomes[0];
        assert(!spec_outcome_aborts(config, oc));
        assert(outcomes.drop_first()[i - 1] == outcomes[i]);
        assert(forall|j: int|
            0 <= j < i - 1 ==> !spec_outcome_aborts(config, #[trigger] outcomes.drop_first()[j]));
        lemma_run_from_abort(
            config,
            outcomes.drop_first(),
            failed + spec_outcome_failed(oc),
            i - 1,
        );
        assert(outcomes.take(i + 1)[0] == oc);
        assert(outcomes.take(i + 1).drop_first() =~= outcomes.drop_first().take(i));
        assert(spec_run_from(config, outcomes, failed) =~= spec_run_from(
            config,
            outcomes.take(i + 1),
            failed,
        ));
    }
}

/// Under `strict`, the first malformed-line outcome — no earlier outcome
/// aborting — ends the run on the spot with exit code one: the outcomes
/// after it are never processed.
pub proof fn lemma_strict_bad_format_aborts(
    config: RunConfiguration,
    outcomes: Seq<MD5Check>,
    i: int,
)
    requires
        config.strict,
        0 <= i < outcomes.len(),
        outcomes[i] is BadFormat,
        forall|j: int| 0 <= j < i ==> !spec_outcome_aborts(config, #[trigger] outcomes[j]),
    ensures
        spec_run(config, outcomes) == spec_run(config, outcomes.take(i + 1)),
        spec_run(config, outcomes).exit_code == 1,
{
    lemma_run_from_abort(config, outcomes, Seq::empty(), i);
}

/// Without `ignore_missing`, the first unreadable target — no earlier
/// outcome aborting — ends the run on the spot with exit code one.
pub proof fn lemma_unignored_read_error_aborts(
    config: RunConfiguration,
    outcomes: Seq<MD5Check>,
    i: int,
)
    requires
        !config.ignore_missing,
        0 <= i < outcomes.len(),
        outcomes[i] is ReadError,
        forall|j: int| 0 <= j < i ==> !spec_outcome_aborts(config, #[trigger] outcomes[j]),
    ensures
        spec_run(config, outcomes) == spec_run(config, outcomes.take(i + 1)),
        spec_run(config, outcomes).exit_code == 1,
{
    lemma_run_from_abort(config, outcomes, Seq::empty(), i);
}

/// Helper for the skip law, generalized over the failures already
/// recorded.
proof fn lemma_run_from_skip(
    config: RunConfiguration,
    outcomes: Seq<MD5Check>,
    failed: Seq<Seq<char>>,
    i: int,
)
    requires
        config.ignore_missing,
        0 <= i < outcomes.len(),
        outcomes[i] is ReadError,
    ensures
        spec_run_from(config, outcomes, failed) == spec_run_from(
            config,
            outcomes.remove(i),
            failed,
        ),
    decreases i,
{
    if i == 0 {
        let oc = outcomes[0];
        assert(!spec_outcome_aborts(config, oc));
        assert(spec_outcome_lines(config, oc) =~= Seq::<LineModel>::empty());
        assert(failed + spec_outcome_failed(oc) =~= failed);
        assert(outcomes.remove(0) =~= outcomes.drop_first());
        assert(spec_run_from(config, outcomes, failed) =~= spec_run_from(
            config,
            outcomes.remove(0),
            failed,
        ));
    } else {
        let oc = outcomes[0];
        assert(outcomes.remove(i)[0] == oc);
        if spec_outcome_aborts(config, oc) {
            assert(spec_run_from(config, outcomes, failed) =~= spec_run_from(
                config,
                outcomes.remove(i),
                failed,
            ));
        } else {
            assert(outcomes.drop_first()[i - 1] == outcomes[i]);
            lemma_run_from_skip(
                config,
                outcomes.drop_first(),
                failed + spec_outcome_failed(oc),
                i - 1,
            );
            assert(outcomes.remove(i).drop_first() =~= outcomes.drop_first().remove(i - 1));
            assert(spec_run_from(config, outcomes, failed) =~= spec_run_from(
                config,
                outcomes.remove(i),
                failed,
            ));
        }
    }
}

/// With `ignore_missing`, an unreadable target contributes nothing at
/// all: no line, no failure, no abort — the run is the run without that
/// outcome.
pub proof fn lemma_ignored_read_error_skipped(
    config: RunConfiguration,
    outcomes: Seq<MD5Check>,
    i: int,
)
    requires
        config.ignore_missing,
        0 <= i < outcomes.len(),
        outcomes[i] is ReadError,
    ensures
        spec_run(config, outcomes) == spec_run(config, outcomes.remove(i)),
{
    lemma_run_from_skip(config, outcomes, Seq::empty(), i);
}

/// Helper for the exit-status law, generalized over the failures already
/// recorded.
proof fn lemma_run_from_exit(
    config: RunConfiguration,
    outcomes: Seq<MD5Check>,
    failed: Seq<Seq<char>>,
)
    ensures
        spec_run_from(config, outcomes, failed).exit_code == 0 <==> failed.len() == 0 && (forall|
            k: int,
        |
            0 <= k < outcomes.len() ==> !spec_outcome_aborts(config, #[trigger] outcomes[k]) && !(
            outcomes[k] is MatchFailed)),
        spec_run_from(config, outcomes, failed).exit_code == 0 || spec_run_from(
            config,
            outcomes,
            failed,
        ).exit_code == 1,
    decreases outcomes.len(),
{
    if outcomes.len() > 0 {
        let oc = outcomes[0];
        if !spec_outcome_aborts(config, oc) {
            let tail = outcomes.drop_first();
            let grown = failed + spec_outcome_failed(oc);
            lemma_run_from_exit(config, tail, grown);
            assert(grown.len() == failed.len() + spec_outcome_failed(oc).len());
            let whole_ok = forall|k: int|
                0 <= k < outcomes.len() ==> !spec_outcome_aborts(config, #[trigger] outcomes[k])
                    && !(outcomes[k] is MatchFailed);
            let tail_ok = forall|k: int|
                0 <= k < tail.len() ==> !spec_outcome_aborts(config, #[trigger] tail[k]) && !(
                tail[k] is MatchFailed);
            if whole_ok {
                assert(!(oc is MatchFailed));
                assert forall|k: int| 0 <= k < tail.len() implies !spec_outcome_aborts(
                    config,
                    #[trigger] tail[k],
                ) && !(tail[k] is MatchFailed) by {
                    assert(tail[k] == outcomes[k + 1]);
                }
            }
            if tail_ok && !(oc is MatchFailed) {
                assert forall|k: int| 0 <= k < outcomes.len() implies !spec_outcome_aborts(
                    config,
                    #[trigger] outcomes[k],
                ) && !(outcomes[k] is MatchFailed) by {
                    if k > 0 {
                        assert(outcomes[k] == tail[k - 1]);
                    }
                }
            }
        }
    }
}

/// The exit-status contract: a run exits zero exactly when no outcome
/// aborted it and no target failed to match; every other run exits one.
pub proof fn lemma_exit_status(config: RunConfiguration, outcomes: Seq<MD5Check>)
    ensures
        spec_run(config, outcomes).exit_code == 0 <==> (forall|k: int|
            0 <= k < outcomes.len() ==> !spec_outcome_aborts(config, #[trigger] outcomes[k]) && !(
            outcomes[k] is MatchFailed)),
        spec_run(config, outcomes).exit_code == 0 || spec_run(config, outcomes).exit_code == 1,
{
    lemma_run_from_exit(config, outcomes, Seq::empty());
}

/// The summary is pluralized by the count of failed targets: exactly one
/// gives the singular message, two or more the plural one with the count
/// in decimal.
pub proof fn lemma_summary_pluralization(count: nat)
    requires
        1 <= count,
    ensures
        count == 1 ==> spec_summary_line(count).text =~= "md5sum: WARNING: 1 computed checksum did NOT match"@,
        count >= 2 ==> spec_summary_line(count).text =~= "md5sum: WARNING: "@ + spec_decimal(
            count,
        ) + " computed checksums did NOT match"@,
{
    reveal_strlit("md5sum: WARNING: ");
    reveal_strlit(" computed checksum");
    reveal_strlit("s");
    reveal_strlit(" did NOT match");
    reveal_strlit("md5sum: WARNING: 1 computed checksum did NOT match");
    reveal_strlit(" computed checksums did NOT match");
    if count == 1 {
        assert(spec_decimal(1) =~= seq!['1']);
    }
}

} // verus!

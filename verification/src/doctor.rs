use vstd::prelude::*;

use crate::checks::{
    evaluate, lemma_healthy_snapshot_no_problems, lemma_unactivated_problem_count,
    not_installed_count, problems_spec,
};
use crate::config::{ConfigSnapshot, EnvVarEntry};
use crate::numfmt::{decimal_digits, render_count};
use crate::report::{render, rendered_env};

verus! {

/// The terminal outcome of a diagnostic run: success when no problem was
/// found, otherwise a failure carrying the summarizing message.
#[derive(Debug)]
pub enum DoctorOutcome {
    Success,
    Failure(String),
}

/// Everything one diagnostic run produces: the primary output stream, the
/// warning-severity and error-severity log lines, and the terminal outcome.
/// Handing the log lines back as data keeps the run deterministic and
/// testable; the caller forwards them to its logging collaborator.
#[derive(Debug)]
pub struct DoctorReport {
    pub output: String,
    pub warnings: Vec<String>,
    pub errors: Vec<String>,
    pub outcome: DoctorOutcome,
}

/// The environment-variable namespace this tool reserves.
pub open spec fn rtx_prefix() -> Seq<char> {
    "RTX_"@
}

/// The advisory line logged when a newer version is available.
pub open spec fn version_warning(latest: Seq<char>, current: Seq<char>) -> Seq<char> {
    "new rtx version "@ + latest + " available, currently on "@ + current
}

/// The message attached to a failing run.
pub open spec fn failure_message(count: nat) -> Seq<char> {
    decimal_digits(count) + " problems found"@
}

/// The warning lines owed for a version-check result.
pub open spec fn warnings_spec(new_version: Option<String>, current_version: Seq<char>) -> Seq<
    Seq<char>,
> {
    match new_version {
        Option::Some(latest) => seq![version_warning(latest@, current_version)],
        Option::None => Seq::<Seq<char>>::empty(),
    }
}

/// The primary output: the configuration summary, the environment block,
/// each followed by a blank line, and, exactly when no problem was found,
/// the closing success line.
pub open spec fn output_spec(snapshot: ConfigSnapshot, vars: Seq<EnvVarEntry>) -> Seq<char> {
    snapshot.summary@ + "\n\n"@ + rendered_env(vars, rtx_prefix()) + "\n\n"@ + if problems_spec(
        snapshot.plugins@,
        snapshot.activated,
    ).len() == 0 {
        "No problems found\n"@
    } else {
        Seq::<char>::empty()
    }
}

/// Whether `outcome` is the terminal result owed for `count` problems:
/// success if and only if the count is zero, else a failure whose message
/// renders the count.
pub open spec fn outcome_matches(outcome: DoctorOutcome, count: nat) -> bool {
    match outcome {
        DoctorOutcome::Success => count == 0,
        DoctorOutcome::Failure(m) => count > 0 && m@ == failure_message(count),
    }
}

/// Everything the run's contract pins about a finished report.
pub open spec fn report_obeys(
    report: DoctorReport,
    snapshot: ConfigSnapshot,
    vars: Seq<EnvVarEntry>,
    new_version: Option<String>,
    current_version: Seq<char>,
) -> bool {
    &&& report.output@ == output_spec(snapshot, vars)
    &&& report.warnings@.map_values(|s: String| s@) == warnings_spec(new_version, current_version)
    &&& report.errors@.map_values(|s: String| s@) == problems_spec(
        snapshot.plugins@,
        snapshot.activated,
    )
    &&& outcome_matches(report.outcome, problems_spec(snapshot.plugins@, snapshot.activated).len())
}

/// Builds the advisory line for an available newer version.
fn version_warning_line(latest: &String, current_version: &str) -> (w: String)
    ensures
        w@ == version_warning(latest@, current_version@),
{
    let mut w = String::from_str("new rtx version ");
    w.append(latest.as_str());
    w.append(" available, currently on ");
    w.append(current_version);
    proof {
        assert(w@ =~= version_warning(latest@, current_version@));
    }
    w
}

/// Checks the rtx installation for possible problems.
pub struct Doctor {}

impl Doctor {
    /// Runs the full diagnostic cycle over an already-loaded snapshot.
    ///
    /// `env_vars` is the process environment as captured upstream, in
    /// enumeration order; `new_version` is what the best-effort version
    /// check returned, if it completed at all (its failure is represented
    /// by `None` and never affects the problems or the outcome);
    /// `current_version` is the running tool's own version, quoted in the
    /// advisory warning.
    pub fn run(
        self,
        snapshot: &ConfigSnapshot,
        env_vars: &Vec<EnvVarEntry>,
        new_version: &Option<String>,
        current_version: &str,
    ) -> (report: DoctorReport)
        ensures
            report_obeys(report, *snapshot, env_vars@, *new_version, current_version@),
    {
        let problems = evaluate(snapshot);
        proof {
            assert(problems@.len() == problems@.map_values(|p: crate::checks::Problem| p@).len());
        }

        let mut warnings: Vec<String> = Vec::new();
        match new_version {
            Option::Some(latest) => {
                let w = version_warning_line(latest, current_version);
                warnings.push(w);
                proof {
                    assert(warnings@.map_values(|s: String| s@) =~= warnings_spec(
                        *new_version,
                        current_version@,
                    ));
                }
            },
            Option::None => {
                proof {
                    assert(warnings@.map_values(|s: String| s@) =~= warnings_spec(
                        *new_version,
                        current_version@,
                    ));
                }
            },
        }

        let mut output = snapshot.summary.clone();
        output.append("\n\n");
        let env_block = render("RTX_", env_vars);
        output.append(env_block.as_str());
        output.append("\n\n");

        let mut errors: Vec<String> = Vec::new();
        let n = problems.len();
        let mut i: usize = 0;
        while i < n
            invariant
                i <= n,
                n == problems@.len(),
                errors@.len() == i,
                forall|j: int| 0 <= j < i ==> errors@[j]@ == problems@[j]@,
            decreases n - i,
        {
            let message = problems[i].message.clone();
            errors.push(message);
            i = i + 1;
        }
        proof {
            let f = |s: String| s@;
            let g = |p: crate::checks::Problem| p@;
            assert forall|j: int| 0 <= j < n implies errors@.map_values(f)[j] == problems@.map_values(
                g,
            )[j] by {
                assert(errors@.map_values(f)[j] == f(errors@[j]));
                assert(problems@.map_values(g)[j] == g(problems@[j]));
            }
            assert(errors@.map_values(f) =~= problems@.map_values(g));
        }

        let outcome = if problems.len() == 0 {
            output.append("No problems found\n");
            DoctorOutcome::Success
        } else {
            let mut m = render_count(problems.len());
            m.append(" problems found");
            proof {
                assert(m@ =~= failure_message(problems@.len() as nat));
            }
            DoctorOutcome::Failure(m)
        };
        proof {
            assert(output@ =~= output_spec(*snapshot, env_vars@));
        }

        DoctorReport { output, warnings, errors, outcome }
    }
}

/// Whether `s` ends with `suffix`.
pub open spec fn ends_with(s: Seq<char>, suffix: Seq<char>) -> bool {
    suffix.len() <= s.len() && s.subrange(s.len() - suffix.len(), s.len() as int) == suffix
}

/// A healthy snapshot — every plugin installed, activation in place — runs
/// to success: no error line is logged and the primary output closes with
/// the success line.
pub proof fn lemma_healthy_run_succeeds(
    report: DoctorReport,
    snapshot: ConfigSnapshot,
    vars: Seq<EnvVarEntry>,
    new_version: Option<String>,
    current_version: Seq<char>,
)
    requires
        report_obeys(report, snapshot, vars, new_version, current_version),
        forall|i: int| 0 <= i < snapshot.plugins@.len() ==> snapshot.plugins@[i].installed,
        snapshot.activated,
    ensures
        report.outcome is Success,
        report.errors@.len() == 0,
        ends_with(report.output@, "No problems found\n"@),
{
    lemma_healthy_snapshot_no_problems(snapshot.plugins@);
    assert(report.errors@.len() == report.errors@.map_values(|s: String| s@).len());
    let tail = "No problems found\n"@;
    let out = report.output@;
    assert(out == snapshot.summary@ + "\n\n"@ + rendered_env(vars, rtx_prefix()) + "\n\n"@ + tail);
    assert(out.subrange(out.len() - tail.len(), out.len() as int) =~= tail);
}

/// With activation missing and `k` plugins not installed, the run fails and
/// its outcome carries the count `k + 1`, both in the number of error lines
/// and in the failure message.
pub proof fn lemma_unactivated_run_fails(
    report: DoctorReport,
    snapshot: ConfigSnapshot,
    vars: Seq<EnvVarEntry>,
    new_version: Option<String>,
    current_version: Seq<char>,
)
    requires
        report_obeys(report, snapshot, vars, new_version, current_version),
        !snapshot.activated,
    ensures
        report.errors@.len() == not_installed_count(snapshot.plugins@) + 1,
        outcome_matches(report.outcome, not_installed_count(snapshot.plugins@) + 1),
{
    lemma_unactivated_problem_count(snapshot.plugins@);
    assert(report.errors@.len() == report.errors@.map_values(|s: String| s@).len());
}

/// The version check is advisory only: whatever it returned — a newer
/// version, nothing, or no answer at all — two runs over the same snapshot
/// and environment produce the same primary output, the same error lines,
/// and the same outcome, message included; only the warnings differ.
pub proof fn lemma_version_check_is_advisory(
    r1: DoctorReport,
    r2: DoctorReport,
    snapshot: ConfigSnapshot,
    vars: Seq<EnvVarEntry>,
    v1: Option<String>,
    v2: Option<String>,
    current_version: Seq<char>,
)
    requires
        report_obeys(r1, snapshot, vars, v1, current_version),
        report_obeys(r2, snapshot, vars, v2, current_version),
    ensures
        r1.output@ == r2.output@,
        r1.errors@.map_values(|s: String| s@) == r2.errors@.map_values(|s: String| s@),
        r1.outcome is Success <==> r2.outcome is Success,
        (match (r1.outcome, r2.outcome) {
            (DoctorOutcome::Failure(m1), DoctorOutcome::Failure(m2)) => m1@ == m2@,
            _ => true,
        }),
{
}

} // verus!

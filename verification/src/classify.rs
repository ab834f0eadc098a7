//! Verdict classifier: turns one run's telemetry, the problem's memory
//! limit and the output comparison into a per-test verdict.
//!
//! The memory-limit heuristic runs before any reported status is
//! trusted, because a process killed for exceeding memory can report
//! misleading signals.  The 95%/90%/95% thresholds are empirical
//! tolerances for measurement slack and must be preserved exactly.

use vstd::prelude::*;
use vstd::string::StringExecFns;

use crate::checker::check_files;
use crate::checker::outputs_equivalent;
use crate::metadata::get_ms_spec;
use crate::metadata::get_ms;
use crate::metadata::get_u64_spec;
use crate::metadata::get_u64;
use crate::metadata::Telemetry;
use crate::models::Problem;
use crate::models::Status;
use crate::models::TestResult;
use crate::models::TestResultView;

verus! {

/// `p` percent of `limit`, rounded down.
pub open spec fn pct(limit: nat, p: nat) -> nat {
    (limit * p) / 100
}

/// The memory-limit heuristic: the run is taken as out of memory when
///  - it died of a segmentation fault with peak RSS above 95% of the
///    limit, or
///  - it carries the sandbox's "killed" marker with peak RSS above 90%
///    of the limit, or
///  - it reports the runtime-error status with peak RSS above 95% of
///    the limit.
pub open spec fn mle_spec(t: Telemetry, memory_limit_kb: u64) -> bool {
    let rss = get_u64_spec(t, "max-rss"@) as nat;
    ||| (t.spec_lookup("exitsig"@) == Some("11"@) && rss > pct(memory_limit_kb as nat, 95))
    ||| (t.spec_lookup("killed"@) is Some && rss > pct(memory_limit_kb as nat, 90))
    ||| (t.spec_lookup("status"@) == Some("RE"@) && rss > pct(memory_limit_kb as nat, 95))
}

/// `rss` exceeds `p` percent of `limit` exactly when `100 rss > p limit`.
proof fn lemma_pct_cross(rss: nat, limit: nat, p: nat)
    ensures
        (rss > pct(limit, p)) == (100 * rss > p * limit),
{
    let a = limit * p;
    assert(a == 100 * (a / 100) + a % 100) by (nonlinear_arith);
    assert(0 <= a % 100 < 100) by (nonlinear_arith);
    assert(p * limit == limit * p) by (nonlinear_arith);
    if rss > a / 100 {
        assert(100 * rss >= 100 * (a / 100) + 100) by (nonlinear_arith)
            requires
                rss >= a / 100 + 1,
        ;
    }
    if 100 * rss > a {
        assert(rss > a / 100) by (nonlinear_arith)
            requires
                100 * rss > a,
                a == 100 * (a / 100) + a % 100,
                0 <= a % 100 < 100,
        ;
    }
}

/// Decide the memory-limit heuristic, as [`mle_spec`] says.
pub fn is_memory_limit_exceeded(telemetry: &Telemetry, memory_limit_kb: u64) -> (r: bool)
    ensures
        r == mle_spec(*telemetry, memory_limit_kb),
{
    let rss = get_u64(telemetry, "max-rss");
    proof {
        lemma_pct_cross(rss as nat, memory_limit_kb as nat, 95);
        lemma_pct_cross(rss as nat, memory_limit_kb as nat, 90);
    }
    let rss_scaled: u128 = 100 * (rss as u128);
    let lim: u128 = memory_limit_kb as u128;
    if telemetry.has_value("exitsig", "11") && rss_scaled > 95 * lim {
        return true;
    }
    if telemetry.contains_key("killed") && rss_scaled > 90 * lim {
        return true;
    }
    if telemetry.has_value("status", "RE") && rss_scaled > 95 * lim {
        return true;
    }
    false
}

/// Actual and expected output contents, or the mark that reading either
/// file failed.
pub enum OutputsOutcome {
    Read(String, String),
    Unavailable,
}

impl View for OutputsOutcome {
    type V = Option<(Seq<char>, Seq<char>)>;

    open spec fn view(&self) -> Option<(Seq<char>, Seq<char>)> {
        match self {
            OutputsOutcome::Read(a, e) => Some((a@, e@)),
            OutputsOutcome::Unavailable => None,
        }
    }
}

/// The verdict of one test case.  First match wins:
///  1. the memory-limit heuristic, with reported memory forced to zero
///     (peak RSS is unreliable at the kill);
///  2. a reported status: the timeout code with elapsed time forced to
///     zero (reported time is unreliable on timeout), any other status
///     as a runtime error;
///  3. the output comparison, a read failure counting as a runtime
///     error of that test.
pub open spec fn classify_spec(
    t: Telemetry,
    memory_limit_kb: u64,
    slug: Seq<char>,
    outs: Option<(Seq<char>, Seq<char>)>,
) -> TestResultView {
    if mle_spec(t, memory_limit_kb) {
        TestResultView { slug, status: Status::MLE, time: get_ms_spec(t, "time"@), memory: 0 }
    } else if t.spec_lookup("status"@) is Some {
        if t.spec_lookup("status"@) == Some("TO"@) {
            TestResultView {
                slug,
                status: Status::TLE,
                time: 0,
                memory: get_u64_spec(t, "max-rss"@),
            }
        } else {
            TestResultView {
                slug,
                status: Status::RTE,
                time: get_ms_spec(t, "time"@),
                memory: get_u64_spec(t, "max-rss"@),
            }
        }
    } else {
        match outs {
            Some((actual, expected)) => TestResultView {
                slug,
                status: if outputs_equivalent(actual, expected) {
                    Status::AC
                } else {
                    Status::WA
                },
                time: get_ms_spec(t, "time"@),
                memory: get_u64_spec(t, "max-rss"@),
            },
            None => TestResultView {
                slug,
                status: Status::RTE,
                time: get_ms_spec(t, "time"@),
                memory: get_u64_spec(t, "max-rss"@),
            },
        }
    }
}

/// Whether the classifier will need the output files at all: only when
/// neither the memory heuristic nor a reported status decides first.
pub fn needs_output_check(telemetry: &Telemetry, memory_limit_kb: u64) -> (r: bool)
    ensures
        r == (!mle_spec(*telemetry, memory_limit_kb) && telemetry.spec_lookup("status"@) is None),
{
    if is_memory_limit_exceeded(telemetry, memory_limit_kb) {
        false
    } else {
        !telemetry.contains_key("status")
    }
}

/// Classify one run, as [`classify_spec`] says, against the problem's
/// memory limit.
pub fn check_result(
    problem: &Problem,
    test_case_slug: &str,
    telemetry: &Telemetry,
    outputs: &OutputsOutcome,
) -> (r: TestResult)
    ensures
        r@ == classify_spec(*telemetry, problem.memory_limit, test_case_slug@, outputs@),
{
    let time = get_ms(telemetry, "time");
    let memory = get_u64(telemetry, "max-rss");
    if is_memory_limit_exceeded(telemetry, problem.memory_limit) {
        return TestResult {
            slug: test_case_slug.to_owned(),
            status: Status::MLE,
            time,
            memory: 0,
        };
    }
    if telemetry.contains_key("status") {
        if telemetry.has_value("status", "TO") {
            return TestResult {
                slug: test_case_slug.to_owned(),
                status: Status::TLE,
                time: 0,
                memory,
            };
        }
        return TestResult { slug: test_case_slug.to_owned(), status: Status::RTE, time, memory };
    }
    match outputs {
        OutputsOutcome::Read(actual, expected) => {
            let equivalent = check_files(actual.as_str(), expected.as_str());
            TestResult {
                slug: test_case_slug.to_owned(),
                status: if equivalent {
                    Status::AC
                } else {
                    Status::WA
                },
                time,
                memory,
            }
        },
        OutputsOutcome::Unavailable => TestResult {
            slug: test_case_slug.to_owned(),
            status: Status::RTE,
            time,
            memory,
        },
    }
}

/// Timeout precedence: wherever the memory heuristic stays silent, the
/// timeout status decides the verdict, with elapsed time forced to
/// zero, whatever the reported memory.
pub proof fn lemma_timeout_precedence(
    t: Telemetry,
    memory_limit_kb: u64,
    slug: Seq<char>,
    outs: Option<(Seq<char>, Seq<char>)>,
)
    requires
        t.spec_lookup("status"@) == Some("TO"@),
        !mle_spec(t, memory_limit_kb),
    ensures
        classify_spec(t, memory_limit_kb, slug, outs).status == Status::TLE,
        classify_spec(t, memory_limit_kb, slug, outs).time == 0,
{
}

} // verus!

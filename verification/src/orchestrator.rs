//! Job orchestrator: the state machine driving one job from received to
//! verdict emitted.
//!
//! The orchestrator holds the decisions; the application performs the
//! actions (compiling, running a test in the sandbox) and hands the
//! outcome back as an event.  Compilation is skipped for languages with
//! an empty compile command.  A failed compilation is terminal and
//! short-circuits test execution; an infrastructure failure aborts the
//! job as an internal error; no per-test verdict ever aborts the test
//! loop.

use vstd::prelude::*;

use crate::models::JudgerResult;
use crate::models::LanguageConfig;
use crate::models::ResultStatus;
use crate::models::TestResult;
use crate::models::TestResultView;

verus! {

/// How one compilation ended: cleanly, or with the compiler's captured
/// standard-error text.
pub enum CompileOutcome {
    Success,
    Failure(String),
}

/// Where a job stands.
pub enum Phase {
    Compiling,
    Testing(usize),
    Done(ResultStatus, String),
}

/// Mathematical form of a [`Phase`].
pub ghost enum PhaseView {
    Compiling,
    Testing { next: int },
    Done { status: ResultStatus, log: Seq<char> },
}

/// What the application is to do next.
pub enum Action {
    Compile,
    RunTest(usize),
    Emit,
}

/// The state of one job being judged.
pub struct Orchestrator {
    pub job_id: String,
    pub slugs: Vec<String>,
    pub phase: Phase,
    pub results: Vec<TestResult>,
}

impl Orchestrator {
    /// Where the job stands, mathematically.
    pub open spec fn phase_view(&self) -> PhaseView {
        match self.phase {
            Phase::Compiling => PhaseView::Compiling,
            Phase::Testing(i) => PhaseView::Testing { next: i as int },
            Phase::Done(status, log) => PhaseView::Done { status, log: log@ },
        }
    }

    /// Index of the test to run next; meaningful while testing.
    pub open spec fn test_index(&self) -> int {
        match self.phase {
            Phase::Testing(i) => i as int,
            _ => -1,
        }
    }

    /// The state invariant: collected results follow the test order one
    /// for one, and a job that did not end `OK` collects none.
    pub open spec fn wf(&self) -> bool {
        &&& (forall|j: int|
            0 <= j < self.results@.len() ==> (#[trigger] self.results.deep_view()[j]).slug
                == self.slugs.deep_view()[j])
        &&& match self.phase {
            Phase::Compiling => self.results@.len() == 0,
            Phase::Testing(i) => self.results@.len() == i as int && (i as int) < self.slugs@.len(),
            Phase::Done(status, _) => if status == ResultStatus::OK {
                self.results@.len() == self.slugs@.len()
            } else {
                self.results@.len() == 0
            },
        }
    }

    /// The phase a fresh job starts in: compiling where the language
    /// asks for it, else straight to the tests, or already done when
    /// there are none.
    pub open spec fn fresh_phase(needs_compile: bool, n_tests: int) -> PhaseView {
        if needs_compile {
            PhaseView::Compiling
        } else if n_tests == 0 {
            PhaseView::Done { status: ResultStatus::OK, log: Seq::empty() }
        } else {
            PhaseView::Testing { next: 0 }
        }
    }

    /// Take a job up: compilation is skipped exactly when the
    /// language's compile command is empty.
    pub fn new(job_id: String, slugs: Vec<String>, language: &LanguageConfig) -> (o: Orchestrator)
        ensures
            o.wf(),
            o.job_id@ == job_id@,
            o.slugs.deep_view() == slugs.deep_view(),
            o.results@.len() == 0,
            o.phase_view() == Self::fresh_phase(
                language.compile_command@.len() > 0,
                slugs@.len() as int,
            ),
    {
        let needs_compile = language.compile_command.len() > 0;
        let phase = if needs_compile {
            Phase::Compiling
        } else if slugs.len() == 0 {
            Phase::Done(ResultStatus::OK, String::new())
        } else {
            Phase::Testing(0)
        };
        Orchestrator { job_id, slugs, phase, results: Vec::new() }
    }

    /// What to do next, read off the phase.
    pub fn next_action(&self) -> (a: Action)
        ensures
            match a {
                Action::Compile => self.phase_view() is Compiling,
                Action::RunTest(i) => self.phase_view() == (PhaseView::Testing { next: i as int }),
                Action::Emit => self.phase_view() is Done,
            },
    {
        match &self.phase {
            Phase::Compiling => Action::Compile,
            Phase::Testing(i) => Action::RunTest(*i),
            Phase::Done(_, _) => Action::Emit,
        }
    }

    /// How [`Self::on_compile`] moves the state: success opens the test
    /// loop (or finishes an empty one), failure ends the job as a
    /// compile error carrying the compiler's diagnostic.
    pub open spec fn compile_step(
        pre: Orchestrator,
        outcome: CompileOutcome,
        post: Orchestrator,
    ) -> bool {
        &&& post.job_id@ == pre.job_id@
        &&& post.slugs.deep_view() == pre.slugs.deep_view()
        &&& post.results@.len() == 0
        &&& match outcome {
            CompileOutcome::Success => post.phase_view() == (if pre.slugs@.len() == 0 {
                PhaseView::Done { status: ResultStatus::OK, log: Seq::empty() }
            } else {
                PhaseView::Testing { next: 0 }
            }),
            CompileOutcome::Failure(stderr) => post.phase_view() == (PhaseView::Done {
                status: ResultStatus::CE,
                log: stderr@,
            }),
        }
    }

    /// Feed the compilation's outcome in.
    pub fn on_compile(&mut self, outcome: CompileOutcome)
        requires
            old(self).wf(),
            old(self).phase_view() is Compiling,
        ensures
            final(self).wf(),
            Self::compile_step(*old(self), outcome, *final(self)),
    {
        match outcome {
            CompileOutcome::Success => {
                if self.slugs.len() == 0 {
                    self.phase = Phase::Done(ResultStatus::OK, String::new());
                } else {
                    self.phase = Phase::Testing(0);
                }
            },
            CompileOutcome::Failure(stderr) => {
                self.phase = Phase::Done(ResultStatus::CE, stderr);
            },
        }
    }

    /// How [`Self::on_test`] moves the state: the result is appended
    /// and the loop advances, finishing cleanly after the last test.
    pub open spec fn test_step(pre: Orchestrator, tr: TestResult, post: Orchestrator) -> bool {
        &&& post.job_id@ == pre.job_id@
        &&& post.slugs.deep_view() == pre.slugs.deep_view()
        &&& post.results.deep_view() == pre.results.deep_view().push(tr@)
        &&& post.phase_view() == (if pre.test_index() + 1 < pre.slugs@.len() {
            PhaseView::Testing { next: pre.test_index() + 1 }
        } else {
            PhaseView::Done { status: ResultStatus::OK, log: Seq::empty() }
        })
    }

    /// Feed one classified test result in.  No verdict aborts the loop:
    /// the machine always moves on to the next test case.
    pub fn on_test(&mut self, result: TestResult)
        requires
            old(self).wf(),
            old(self).phase_view() is Testing,
            result@.slug == old(self).slugs.deep_view()[old(self).test_index()],
        ensures
            final(self).wf(),
            Self::test_step(*old(self), result, *final(self)),
    {
        let i: usize = match &self.phase {
            Phase::Testing(i) => *i,
            _ => vstd::pervasive::unreached(),
        };
        let n = self.slugs.len();
        proof {
            assert(i < n);
        }
        let ghost pre_results = self.results.deep_view();
        self.results.push(result);
        proof {
            assert(self.results.deep_view() =~= pre_results.push(result@));
        }
        if i + 1 < n {
            self.phase = Phase::Testing(i + 1);
        } else {
            self.phase = Phase::Done(ResultStatus::OK, String::new());
        }
        proof {
            assert forall|j: int| 0 <= j < self.results@.len() implies (
            #[trigger] self.results.deep_view()[j]).slug == self.slugs.deep_view()[j] by {
                if j < pre_results.len() {
                    assert(self.results.deep_view()[j] == pre_results[j]);
                }
            }
        }
    }

    /// How [`Self::on_infra_error`] moves the state: the job ends as an
    /// internal error carrying the failure's text, with no per-test
    /// outcomes.
    pub open spec fn infra_step(pre: Orchestrator, log: Seq<char>, post: Orchestrator) -> bool {
        &&& post.job_id@ == pre.job_id@
        &&& post.slugs.deep_view() == pre.slugs.deep_view()
        &&& post.results@.len() == 0
        &&& post.phase_view() == (PhaseView::Done { status: ResultStatus::IE, log })
    }

    /// Abort the job on an infrastructure failure, wherever it stands.
    pub fn on_infra_error(&mut self, log: String)
        requires
            old(self).wf(),
        ensures
            final(self).wf(),
            Self::infra_step(*old(self), log@, *final(self)),
    {
        self.results = Vec::new();
        self.phase = Phase::Done(ResultStatus::IE, log);
    }

    /// What the emitted job result holds: the job's identifier, the
    /// terminal status and log, and the collected test results.
    pub open spec fn emits(o: Orchestrator, r: JudgerResult) -> bool {
        match o.phase {
            Phase::Done(status, log) => {
                &&& r.id@ == o.job_id@
                &&& r.status == status
                &&& r.log@ == log@
                &&& r.test_results.deep_view() == o.results.deep_view()
            },
            _ => false,
        }
    }

    /// Assemble the job's result once the machine is done.
    pub fn into_result(self) -> (r: JudgerResult)
        requires
            self.wf(),
            self.phase_view() is Done,
        ensures
            Self::emits(self, r),
            r.wf(),
    {
        let job_id = self.job_id;
        let results = self.results;
        match self.phase {
            Phase::Done(status, log) => JudgerResult { id: job_id, log, status, test_results: results },
            _ => vstd::pervasive::unreached(),
        }
    }
}

/// Compile-failure short circuit: out of a failed compilation the
/// emitted job result is a compile error, its log is exactly the
/// captured diagnostic, and it carries no test results.
pub proof fn lemma_compile_failure_short_circuit(
    pre: Orchestrator,
    stderr: String,
    mid: Orchestrator,
    r: JudgerResult,
)
    requires
        pre.wf(),
        pre.phase_view() is Compiling,
        Orchestrator::compile_step(pre, CompileOutcome::Failure(stderr), mid),
        Orchestrator::emits(mid, r),
    ensures
        r.status == ResultStatus::CE,
        r.log@ == stderr@,
        r.test_results.deep_view() == Seq::<TestResultView>::empty(),
{
    assert(r.test_results.deep_view() =~= Seq::<TestResultView>::empty());
}

/// Order of the emitted results: a job that ends `OK` carries exactly
/// one result per test case, in the test cases' order, each under its
/// test's slug.
pub proof fn lemma_result_order(o: Orchestrator, r: JudgerResult)
    requires
        o.wf(),
        Orchestrator::emits(o, r),
        r.status == ResultStatus::OK,
    ensures
        r.test_results.deep_view().len() == o.slugs.deep_view().len(),
        forall|j: int|
            0 <= j < r.test_results.deep_view().len() ==> (
            #[trigger] r.test_results.deep_view()[j]).slug == o.slugs.deep_view()[j],
{
}

} // verus!

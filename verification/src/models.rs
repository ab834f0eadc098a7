//! Data model of the grading worker: jobs, problems, verdicts and results.

use vstd::prelude::*;

verus! {

/// Per-test verdict.
#[derive(Clone, Copy, Debug, PartialEq, Eq, Structural)]
pub enum Status {
    AC,
    WA,
    RTE,
    TLE,
    MLE,
}

/// Overall status of one job's result.
#[derive(Clone, Copy, Debug, PartialEq, Eq, Structural)]
pub enum ResultStatus {
    CE,
    IE,
    OK,
}

/// Whether the judged program talks over standard streams or named files.
#[derive(Clone, Copy, Debug, PartialEq, Eq, Structural)]
pub enum IoMode {
    Standard,
    File,
}

/// One code-submission job, as delivered by the queue.
#[derive(Clone, Debug)]
pub struct JudgerJob {
    pub id: String,
    pub problem_id: String,
    pub source_code: String,
    pub language: String,
}

/// Receipt published immediately when a job is taken up.
#[derive(Clone, Debug)]
pub struct JudgerAck {
    pub id: String,
}

/// Outcome of one test case.
#[derive(Clone, Debug)]
pub struct TestResult {
    pub slug: String,
    pub status: Status,
    pub time: u64,
    pub memory: u64,
}

/// Mathematical form of a [`TestResult`].
pub ghost struct TestResultView {
    pub slug: Seq<char>,
    pub status: Status,
    pub time: u64,
    pub memory: u64,
}

impl View for TestResult {
    type V = TestResultView;

    open spec fn view(&self) -> TestResultView {
        TestResultView {
            slug: self.slug@,
            status: self.status,
            time: self.time,
            memory: self.memory,
        }
    }
}

impl DeepView for TestResult {
    type V = TestResultView;

    open spec fn deep_view(&self) -> TestResultView {
        self.view()
    }
}

/// Final outcome of one job.
#[derive(Clone, Debug)]
pub struct JudgerResult {
    pub id: String,
    pub log: String,
    pub status: ResultStatus,
    pub test_results: Vec<TestResult>,
}

/// Mathematical form of a [`JudgerResult`].
pub ghost struct JudgerResultView {
    pub id: Seq<char>,
    pub log: Seq<char>,
    pub status: ResultStatus,
    pub test_results: Seq<TestResultView>,
}

impl View for JudgerResult {
    type V = JudgerResultView;

    open spec fn view(&self) -> JudgerResultView {
        JudgerResultView {
            id: self.id@,
            log: self.log@,
            status: self.status,
            test_results: self.test_results.deep_view(),
        }
    }
}

impl JudgerResult {
    /// A result that is not `OK` carries no per-test outcomes.
    pub open spec fn wf(&self) -> bool {
        self.status != ResultStatus::OK ==> self.test_results@.len() == 0
    }
}

/// Input and expected output of one test case.
#[derive(Clone, Debug)]
pub struct TestCase {
    pub input: String,
    pub output: String,
}

/// Problem metadata fetched once per job.
#[derive(Clone, Debug)]
pub struct Problem {
    pub io_mode: IoMode,
    pub input_file: Option<String>,
    pub output_file: Option<String>,
    pub time_limit: u64,
    pub memory_limit: u64,
    pub id: String,
}

impl Problem {
    /// In `File` mode the problem must name its input and output files.
    pub open spec fn wf(&self) -> bool {
        self.io_mode == IoMode::File ==> {
            &&& self.input_file is Some
            &&& self.input_file.unwrap()@.len() > 0
            &&& self.output_file is Some
            &&& self.output_file.unwrap()@.len() > 0
        }
    }
}

/// Static record of one supported language.  The commands are argument
/// vectors: program first, then its arguments, in order.
#[derive(Clone, Debug)]
pub struct LanguageConfig {
    pub language: String,
    pub ext: String,
    pub compile_command: Vec<String>,
    pub run_command: Vec<String>,
}

/// Mathematical form of a [`LanguageConfig`].
pub ghost struct LangSpec {
    pub language: Seq<char>,
    pub ext: Seq<char>,
    pub compile_command: Seq<Seq<char>>,
    pub run_command: Seq<Seq<char>>,
}

impl View for LanguageConfig {
    type V = LangSpec;

    open spec fn view(&self) -> LangSpec {
        LangSpec {
            language: self.language@,
            ext: self.ext@,
            compile_command: self.compile_command.deep_view(),
            run_command: self.run_command.deep_view(),
        }
    }
}

/// Periodic liveness signal of one worker.
#[derive(Clone, Debug)]
pub struct JudgerHeartbeat {
    pub judger_id: String,
    pub timestamp: i64,
}

} // verus!

use judger::classify::check_result;
use judger::classify::OutputsOutcome;
use judger::languages::get_language_config;
use judger::metadata::metadata_file_to_hashmap;
use judger::models::IoMode;
use judger::models::Problem;
use judger::models::ResultStatus;
use judger::models::Status;
use judger::orchestrator::Action;
use judger::orchestrator::CompileOutcome;
use judger::orchestrator::Orchestrator;

fn sample_problem() -> Problem {
    Problem {
        io_mode: IoMode::Standard,
        input_file: None,
        output_file: None,
        time_limit: 1000,
        memory_limit: 256000,
        id: "p1".to_string(),
    }
}

#[test]
fn compile_failure_short_circuits() {
    let c99 = get_language_config("C99").unwrap();
    let mut o = Orchestrator::new(
        "job-1".to_string(),
        vec!["sample/1".to_string(), "sample/2".to_string()],
        &c99,
    );
    assert!(matches!(o.next_action(), Action::Compile));
    o.on_compile(CompileOutcome::Failure("main.c:1: error: expected ';'".to_string()));
    assert!(matches!(o.next_action(), Action::Emit));
    let r = o.into_result();
    assert_eq!(r.status, ResultStatus::CE);
    assert_eq!(r.log, "main.c:1: error: expected ';'");
    assert!(r.test_results.is_empty());
    assert_eq!(r.id, "job-1");
}

#[test]
fn accepted_run_end_to_end() {
    // One test case `sample/1`, input "3 4", expected "7"; the judged
    // program printed "7\n" and the sandbox measured a clean run.
    let py = get_language_config("PYTHON3").unwrap();
    let problem = sample_problem();
    let mut o = Orchestrator::new("job-2".to_string(), vec!["sample/1".to_string()], &py);
    match o.next_action() {
        Action::RunTest(i) => {
            assert_eq!(i, 0);
            let slug = o.slugs[i].clone();
            let telemetry = metadata_file_to_hashmap("time: 0.013\nmax-rss: 3400\n");
            let outs = OutputsOutcome::Read("7\n".to_string(), "7\n".to_string());
            let tr = check_result(&problem, &slug, &telemetry, &outs);
            o.on_test(tr);
        },
        _ => panic!("expected a test run"),
    }
    assert!(matches!(o.next_action(), Action::Emit));
    let r = o.into_result();
    assert_eq!(r.status, ResultStatus::OK);
    assert_eq!(r.log, "");
    assert_eq!(r.test_results.len(), 1);
    assert_eq!(r.test_results[0].slug, "sample/1");
    assert_eq!(r.test_results[0].status, Status::AC);
    assert_eq!(r.test_results[0].time, 13);
    assert_eq!(r.test_results[0].memory, 3400);
}

#[test]
fn wrong_answer_run_end_to_end() {
    let py = get_language_config("PYTHON3").unwrap();
    let problem = sample_problem();
    let mut o = Orchestrator::new("job-3".to_string(), vec!["sample/1".to_string()], &py);
    let telemetry = metadata_file_to_hashmap("time: 0.011\nmax-rss: 3300\n");
    let outs = OutputsOutcome::Read("8\n".to_string(), "7\n".to_string());
    let tr = check_result(&problem, "sample/1", &telemetry, &outs);
    o.on_test(tr);
    let r = o.into_result();
    assert_eq!(r.status, ResultStatus::OK);
    assert_eq!(r.test_results.len(), 1);
    assert_eq!(r.test_results[0].status, Status::WA);
}

#[test]
fn infinite_loop_run_end_to_end() {
    // The sandbox killed the run at the wall-clock limit and reported
    // the timeout status; reported time is discarded.
    let py = get_language_config("PYTHON3").unwrap();
    let problem = sample_problem();
    let mut o = Orchestrator::new("job-4".to_string(), vec!["sample/1".to_string()], &py);
    let telemetry = metadata_file_to_hashmap("status: TO\nkilled: 1\ntime: 2.1\nmax-rss: 3500\n");
    let tr = check_result(&problem, "sample/1", &telemetry, &OutputsOutcome::Unavailable);
    o.on_test(tr);
    let r = o.into_result();
    assert_eq!(r.status, ResultStatus::OK);
    assert_eq!(r.test_results.len(), 1);
    assert_eq!(r.test_results[0].status, Status::TLE);
    assert_eq!(r.test_results[0].time, 0);
}

#[test]
fn crashing_test_does_not_abort_the_loop() {
    let py = get_language_config("PYTHON3").unwrap();
    let problem = sample_problem();
    let slugs = vec!["a/1".to_string(), "a/2".to_string(), "a/3".to_string()];
    let mut o = Orchestrator::new("job-5".to_string(), slugs.clone(), &py);
    let runs = [
        "status: RE\nexitsig: 6\ntime: 0.01\nmax-rss: 3000\n",
        "time: 0.01\nmax-rss: 3000\n",
        "time: 0.02\nmax-rss: 3100\n",
    ];
    for (i, meta) in runs.iter().enumerate() {
        let telemetry = metadata_file_to_hashmap(meta);
        let outs = OutputsOutcome::Read("ok\n".to_string(), "ok\n".to_string());
        let tr = check_result(&problem, &slugs[i], &telemetry, &outs);
        o.on_test(tr);
    }
    let r = o.into_result();
    assert_eq!(r.status, ResultStatus::OK);
    assert_eq!(r.test_results.len(), 3);
    assert_eq!(r.test_results[0].status, Status::RTE);
    assert_eq!(r.test_results[1].status, Status::AC);
    assert_eq!(r.test_results[2].status, Status::AC);
    for (i, tr) in r.test_results.iter().enumerate() {
        assert_eq!(tr.slug, slugs[i]);
    }
}

#[test]
fn infra_failure_becomes_internal_error() {
    let py = get_language_config("PYTHON3").unwrap();
    let mut o = Orchestrator::new("job-6".to_string(), vec!["a/1".to_string()], &py);
    o.on_infra_error("connection refused".to_string());
    let r = o.into_result();
    assert_eq!(r.status, ResultStatus::IE);
    assert_eq!(r.log, "connection refused");
    assert!(r.test_results.is_empty());
}

#[test]
fn no_tests_finishes_immediately() {
    let py = get_language_config("PYTHON3").unwrap();
    let o = Orchestrator::new("job-7".to_string(), Vec::new(), &py);
    assert!(matches!(o.next_action(), Action::Emit));
    let r = o.into_result();
    assert_eq!(r.status, ResultStatus::OK);
    assert!(r.test_results.is_empty());
}

#[test]
fn compiled_language_walks_through_compilation() {
    let c = get_language_config("CPP17").unwrap();
    let mut o = Orchestrator::new("job-8".to_string(), vec!["a/1".to_string()], &c);
    assert!(matches!(o.next_action(), Action::Compile));
    o.on_compile(CompileOutcome::Success);
    assert!(matches!(o.next_action(), Action::RunTest(0)));
}

use judger::classify::check_result;
use judger::classify::is_memory_limit_exceeded;
use judger::classify::needs_output_check;
use judger::classify::OutputsOutcome;
use judger::metadata::metadata_file_to_hashmap;
use judger::models::IoMode;
use judger::models::Problem;
use judger::models::Status;

fn problem(memory_limit: u64) -> Problem {
    Problem {
        io_mode: IoMode::Standard,
        input_file: None,
        output_file: None,
        time_limit: 1000,
        memory_limit,
        id: "p1".to_string(),
    }
}

#[test]
fn segfault_near_limit_is_mle_with_memory_zero() {
    // 96% of a 256000 KB limit
    let t = metadata_file_to_hashmap("exitsig: 11\nstatus: RE\nmax-rss: 245760\ntime: 0.5\n");
    assert!(is_memory_limit_exceeded(&t, 256000));
    let r = check_result(&problem(256000), "sample/1", &t, &OutputsOutcome::Unavailable);
    assert_eq!(r.status, Status::MLE);
    assert_eq!(r.memory, 0);
    assert_eq!(r.time, 500);
}

#[test]
fn segfault_below_threshold_is_rte() {
    // 94% of a 256000 KB limit
    let t = metadata_file_to_hashmap("exitsig: 11\nstatus: RE\nmax-rss: 240640\ntime: 0.5\n");
    assert!(!is_memory_limit_exceeded(&t, 256000));
    let r = check_result(&problem(256000), "sample/1", &t, &OutputsOutcome::Unavailable);
    assert_eq!(r.status, Status::RTE);
    assert_eq!(r.memory, 240640);
    assert_eq!(r.time, 500);
}

#[test]
fn killed_marker_uses_ninety_percent() {
    // 91% of the limit, with the kill marker
    let t = metadata_file_to_hashmap("killed: 1\nmax-rss: 232960\n");
    assert!(is_memory_limit_exceeded(&t, 256000));
    // 89% of the limit
    let t2 = metadata_file_to_hashmap("killed: 1\nmax-rss: 227840\n");
    assert!(!is_memory_limit_exceeded(&t2, 256000));
}

#[test]
fn timeout_status_is_tle_with_time_zero() {
    let t = metadata_file_to_hashmap("status: TO\ntime: 2.1\nmax-rss: 5000\n");
    let r = check_result(&problem(256000), "sample/1", &t, &OutputsOutcome::Unavailable);
    assert_eq!(r.status, Status::TLE);
    assert_eq!(r.time, 0);
    assert_eq!(r.memory, 5000);
}

#[test]
fn other_status_is_rte_with_reported_figures() {
    let t = metadata_file_to_hashmap("status: SG\ntime: 0.25\nmax-rss: 4000\n");
    let r = check_result(&problem(256000), "sample/1", &t, &OutputsOutcome::Unavailable);
    assert_eq!(r.status, Status::RTE);
    assert_eq!(r.time, 250);
    assert_eq!(r.memory, 4000);
}

#[test]
fn clean_run_with_equivalent_output_is_ac() {
    let t = metadata_file_to_hashmap("time: 0.01\nmax-rss: 3000\n");
    let outs = OutputsOutcome::Read("7\n".to_string(), "7".to_string());
    let r = check_result(&problem(256000), "sample/1", &t, &outs);
    assert_eq!(r.status, Status::AC);
    assert_eq!(r.time, 10);
    assert_eq!(r.memory, 3000);
    assert_eq!(r.slug, "sample/1");
}

#[test]
fn clean_run_with_differing_output_is_wa() {
    let t = metadata_file_to_hashmap("time: 0.01\nmax-rss: 3000\n");
    let outs = OutputsOutcome::Read("8\n".to_string(), "7\n".to_string());
    let r = check_result(&problem(256000), "sample/1", &t, &outs);
    assert_eq!(r.status, Status::WA);
}

#[test]
fn unreadable_outputs_are_rte() {
    let t = metadata_file_to_hashmap("time: 0.01\nmax-rss: 3000\n");
    let r = check_result(&problem(256000), "sample/1", &t, &OutputsOutcome::Unavailable);
    assert_eq!(r.status, Status::RTE);
    assert_eq!(r.time, 10);
    assert_eq!(r.memory, 3000);
}

#[test]
fn output_check_needed_only_without_status_or_mle() {
    let clean = metadata_file_to_hashmap("time: 0.01\nmax-rss: 3000\n");
    assert!(needs_output_check(&clean, 256000));
    let timed_out = metadata_file_to_hashmap("status: TO\n");
    assert!(!needs_output_check(&timed_out, 256000));
    let oom = metadata_file_to_hashmap("exitsig: 11\nmax-rss: 245760\n");
    assert!(!needs_output_check(&oom, 256000));
}

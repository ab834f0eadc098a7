use judger::models::IoMode;
use judger::models::Problem;
use judger::sandbox::answer_file_path;
use judger::sandbox::box_file_path;
use judger::sandbox::cleanup_box_args;
use judger::sandbox::create_box_args;
use judger::sandbox::fmt_seconds;
use judger::sandbox::input_file_name;
use judger::sandbox::isolate_box_dir;
use judger::sandbox::meta_file_path;
use judger::sandbox::output_file_name;
use judger::sandbox::run_args;
use judger::sandbox::source_file_path;

fn standard_problem() -> Problem {
    Problem {
        io_mode: IoMode::Standard,
        input_file: None,
        output_file: None,
        time_limit: 1000,
        memory_limit: 256000,
        id: "p1".to_string(),
    }
}

fn file_problem() -> Problem {
    Problem {
        io_mode: IoMode::File,
        input_file: Some("data.in".to_string()),
        output_file: Some("data.out".to_string()),
        time_limit: 2500,
        memory_limit: 65536,
        id: "p2".to_string(),
    }
}

#[test]
fn box_paths() {
    assert_eq!(isolate_box_dir("3"), "/var/local/lib/isolate/3/box");
    assert_eq!(box_file_path("3", "meta.txt"), "/var/local/lib/isolate/3/box/meta.txt");
    assert_eq!(meta_file_path("w1"), "/var/local/lib/isolate/w1/box/meta.txt");
    assert_eq!(source_file_path("3", "py"), "/var/local/lib/isolate/3/box/main.py");
}

#[test]
fn io_file_names_follow_the_mode() {
    assert_eq!(input_file_name(&standard_problem()), "input.txt");
    assert_eq!(output_file_name(&standard_problem()), "output.txt");
    assert_eq!(input_file_name(&file_problem()), "data.in");
    assert_eq!(output_file_name(&file_problem()), "data.out");
}

#[test]
fn answer_path_carries_the_suffix() {
    assert_eq!(answer_file_path("3", &standard_problem()), "/var/local/lib/isolate/3/box/output.txt.ans");
    assert_eq!(answer_file_path("3", &file_problem()), "/var/local/lib/isolate/3/box/data.out.ans");
}

#[test]
fn provisioning_args() {
    assert_eq!(create_box_args("7"), vec!["--init".to_string(), "--box-id=7".to_string()]);
    assert_eq!(cleanup_box_args("7"), vec!["--cleanup".to_string(), "--box-id=7".to_string()]);
}

#[test]
fn seconds_formatting() {
    assert_eq!(fmt_seconds(1000), "1");
    assert_eq!(fmt_seconds(1500), "1.5");
    assert_eq!(fmt_seconds(1010), "1.01");
    assert_eq!(fmt_seconds(1001), "1.001");
    assert_eq!(fmt_seconds(123), "0.123");
    assert_eq!(fmt_seconds(0), "0");
    assert_eq!(fmt_seconds(2500), "2.5");
    assert_eq!(fmt_seconds(100), "0.1");
}

#[test]
fn run_args_standard_mode() {
    let cmd = vec!["python3".to_string(), "main.py".to_string()];
    let args = run_args("3", &standard_problem(), &cmd);
    assert_eq!(
        args,
        vec![
            "--run".to_string(),
            "--box-id=3".to_string(),
            "--time=1".to_string(),
            "--wall-time=2".to_string(),
            "--mem=256000".to_string(),
            "--fsize=131072".to_string(),
            "--meta=/var/local/lib/isolate/3/box/meta.txt".to_string(),
            "--stdin=input.txt".to_string(),
            "--stdout=output.txt".to_string(),
            "python3".to_string(),
            "main.py".to_string(),
        ]
    );
}

#[test]
fn run_args_file_mode_has_no_redirection() {
    let cmd = vec!["./main".to_string()];
    let args = run_args("w", &file_problem(), &cmd);
    assert_eq!(
        args,
        vec![
            "--run".to_string(),
            "--box-id=w".to_string(),
            "--time=2.5".to_string(),
            "--wall-time=3.5".to_string(),
            "--mem=65536".to_string(),
            "--fsize=131072".to_string(),
            "--meta=/var/local/lib/isolate/w/box/meta.txt".to_string(),
            "./main".to_string(),
        ]
    );
}

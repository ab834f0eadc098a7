//! Sandbox command and path construction: where each per-job file lives
//! inside the isolated box, and the exact argument vectors the sandbox
//! launcher is invoked with.
//!
//! Limits are expressed at the launcher boundary — the judged code is
//! untrusted and must not be trusted to self-limit.  Each run enforces
//! the problem's CPU time limit, a wall-clock limit one second above
//! it, the problem's memory ceiling and a fixed output-size ceiling.

use vstd::prelude::*;
use vstd::string::StringExecFns;

use crate::models::IoMode;
use crate::models::Problem;
use crate::strutil::dec_str;
use crate::strutil::digit_char;
use crate::strutil::u64_to_string;

verus! {

/// Directory of one worker's box inside the isolation root.
pub open spec fn box_dir_spec(box_id: Seq<char>) -> Seq<char> {
    "/var/local/lib/isolate/"@ + box_id + "/box"@
}

/// Path of a file inside the box.
pub open spec fn box_file_spec(box_id: Seq<char>, name: Seq<char>) -> Seq<char> {
    box_dir_spec(box_id) + "/"@ + name
}

/// Concatenation of two string slices.
fn concat2(a: &str, b: &str) -> (r: String)
    ensures
        r@ == a@ + b@,
{
    let mut s = a.to_owned();
    s.append(b);
    s
}

/// The box directory of this worker, as a path.
pub fn isolate_box_dir(box_id: &str) -> (r: String)
    ensures
        r@ == box_dir_spec(box_id@),
{
    let mut s = "/var/local/lib/isolate/".to_owned();
    s.append(box_id);
    s.append("/box");
    s
}

/// The path of `name` inside this worker's box.
pub fn box_file_path(box_id: &str, name: &str) -> (r: String)
    ensures
        r@ == box_file_spec(box_id@, name@),
{
    let mut s = isolate_box_dir(box_id);
    s.append("/");
    s.append(name);
    s
}

/// Name the judged program's input is written under: the fixed redirect
/// file in standard mode, the problem-declared name in file mode.
pub open spec fn input_file_name_spec(p: Problem) -> Seq<char> {
    if p.io_mode == IoMode::Standard {
        "input.txt"@
    } else {
        p.input_file.unwrap()@
    }
}

/// Name the judged program's output is expected under.
pub open spec fn output_file_name_spec(p: Problem) -> Seq<char> {
    if p.io_mode == IoMode::Standard {
        "output.txt"@
    } else {
        p.output_file.unwrap()@
    }
}

/// The input file's name for this problem.
pub fn input_file_name(problem: &Problem) -> (r: String)
    requires
        problem.wf(),
    ensures
        r@ == input_file_name_spec(*problem),
{
    if problem.io_mode == IoMode::Standard {
        "input.txt".to_owned()
    } else {
        match &problem.input_file {
            Some(name) => name.clone(),
            None => vstd::pervasive::unreached(),
        }
    }
}

/// The output file's name for this problem.
pub fn output_file_name(problem: &Problem) -> (r: String)
    requires
        problem.wf(),
    ensures
        r@ == output_file_name_spec(*problem),
{
    if problem.io_mode == IoMode::Standard {
        "output.txt".to_owned()
    } else {
        match &problem.output_file {
            Some(name) => name.clone(),
            None => vstd::pervasive::unreached(),
        }
    }
}

/// Path the expected answer of the current test case is written to:
/// the output file's name with the answer suffix.
pub fn answer_file_path(box_id: &str, problem: &Problem) -> (r: String)
    requires
        problem.wf(),
    ensures
        r@ == box_file_spec(box_id@, output_file_name_spec(*problem) + ".ans"@),
{
    let name = output_file_name(problem);
    let mut with_suffix = name;
    with_suffix.append(".ans");
    let r = box_file_path(box_id, with_suffix.as_str());
    r
}

/// Path of the source file, named after the language's extension.
pub fn source_file_path(box_id: &str, ext: &str) -> (r: String)
    ensures
        r@ == box_file_spec(box_id@, "main."@ + ext@),
{
    let name = concat2("main.", ext);
    box_file_path(box_id, name.as_str())
}

/// Path of the telemetry file the launcher writes after each run.
pub fn meta_file_path(box_id: &str) -> (r: String)
    ensures
        r@ == box_file_spec(box_id@, "meta.txt"@),
{
    box_file_path(box_id, "meta.txt")
}

/// Arguments that provision the box.
pub fn create_box_args(box_id: &str) -> (r: Vec<String>)
    ensures
        r.deep_view() == seq!["--init"@, "--box-id="@ + box_id@],
{
    let mut out: Vec<String> = Vec::new();
    out.push("--init".to_owned());
    out.push(concat2("--box-id=", box_id));
    proof {
        assert(out.deep_view() =~= seq!["--init"@, "--box-id="@ + box_id@]);
    }
    out
}

/// Arguments that tear the box down.
pub fn cleanup_box_args(box_id: &str) -> (r: Vec<String>)
    ensures
        r.deep_view() == seq!["--cleanup"@, "--box-id="@ + box_id@],
{
    let mut out: Vec<String> = Vec::new();
    out.push("--cleanup".to_owned());
    out.push(concat2("--box-id=", box_id));
    proof {
        assert(out.deep_view() =~= seq!["--cleanup"@, "--box-id="@ + box_id@]);
    }
    out
}

/// A millisecond count written as decimal seconds, the way the launcher
/// takes its time limits: whole seconds, then a dot and up to three
/// fractional digits, trailing zeros cut, no dot for whole values.
pub open spec fn seconds_str(ms: nat) -> Seq<char> {
    let s = ms / 1000;
    let f = ms % 1000;
    if f == 0 {
        dec_str(s)
    } else if f % 100 == 0 {
        dec_str(s) + seq!['.', digit_char(f / 100)]
    } else if f % 10 == 0 {
        dec_str(s) + seq!['.', digit_char(f / 100), digit_char((f / 10) % 10)]
    } else {
        dec_str(s) + seq!['.', digit_char(f / 100), digit_char((f / 10) % 10), digit_char(f % 10)]
    }
}

/// The one-character string of a digit, for building fractions.
fn digit_string(d: u64) -> (r: String)
    requires
        d < 10,
    ensures
        r@ == seq![digit_char(d as nat)],
{
    if d == 0 {
        proof {
            reveal_strlit("0");
            assert("0"@ =~= seq!['0']);
        }
        "0".to_owned()
    } else if d == 1 {
        proof {
            reveal_strlit("1");
            assert("1"@ =~= seq!['1']);
        }
        "1".to_owned()
    } else if d == 2 {
        proof {
            reveal_strlit("2");
            assert("2"@ =~= seq!['2']);
        }
        "2".to_owned()
    } else if d == 3 {
        proof {
            reveal_strlit("3");
            assert("3"@ =~= seq!['3']);
        }
        "3".to_owned()
    } else if d == 4 {
        proof {
            reveal_strlit("4");
            assert("4"@ =~= seq!['4']);
        }
        "4".to_owned()
    } else if d == 5 {
        proof {
            reveal_strlit("5");
            assert("5"@ =~= seq!['5']);
        }
        "5".to_owned()
    } else if d == 6 {
        proof {
            reveal_strlit("6");
            assert("6"@ =~= seq!['6']);
        }
        "6".to_owned()
    } else if d == 7 {
        proof {
            reveal_strlit("7");
            assert("7"@ =~= seq!['7']);
        }
        "7".to_owned()
    } else if d == 8 {
        proof {
            reveal_strlit("8");
            assert("8"@ =~= seq!['8']);
        }
        "8".to_owned()
    } else {
        proof {
            reveal_strlit("9");
            assert("9"@ =~= seq!['9']);
        }
        "9".to_owned()
    }
}

/// Write a millisecond count as decimal seconds, as [`seconds_str`]
/// says.
pub fn fmt_seconds(ms: u64) -> (r: String)
    ensures
        r@ == seconds_str(ms as nat),
{
    let s = ms / 1000;
    let f = ms % 1000;
    let mut out = u64_to_string(s);
    if f == 0 {
        return out;
    }
    proof {
        reveal_strlit(".");
        assert("."@ =~= seq!['.']);
    }
    out.append(".");
    if f % 100 == 0 {
        let d = digit_string(f / 100);
        out.append(d.as_str());
        proof {
            assert(out@ =~= dec_str((ms / 1000) as nat) + seq![
                '.',
                digit_char((f / 100) as nat),
            ]);
        }
    } else if f % 10 == 0 {
        let d1 = digit_string(f / 100);
        let d2 = digit_string((f / 10) % 10);
        out.append(d1.as_str());
        out.append(d2.as_str());
        proof {
            assert(out@ =~= dec_str((ms / 1000) as nat) + seq![
                '.',
                digit_char((f / 100) as nat),
                digit_char(((f / 10) % 10) as nat),
            ]);
        }
    } else {
        let d1 = digit_string(f / 100);
        let d2 = digit_string((f / 10) % 10);
        let d3 = digit_string(f % 10);
        out.append(d1.as_str());
        out.append(d2.as_str());
        out.append(d3.as_str());
        proof {
            assert(out@ =~= dec_str((ms / 1000) as nat) + seq![
                '.',
                digit_char((f / 100) as nat),
                digit_char(((f / 10) % 10) as nat),
                digit_char((f % 10) as nat),
            ]);
        }
    }
    out
}

/// The argument vector of one judged run: the box, the time limits in
/// seconds (wall clock one second above the CPU limit), the memory
/// ceiling in KB, the fixed output-size ceiling, the telemetry path,
/// standard-stream redirection in standard mode only, then the
/// language's run command.
pub open spec fn run_args_spec(box_id: Seq<char>, p: Problem, run_command: Seq<Seq<char>>) -> Seq<
    Seq<char>,
> {
    let base = seq![
        "--run"@,
        "--box-id="@ + box_id,
        "--time="@ + seconds_str(p.time_limit as nat),
        "--wall-time="@ + seconds_str((p.time_limit + 1000) as nat),
        "--mem="@ + dec_str(p.memory_limit as nat),
        "--fsize=131072"@,
        "--meta="@ + box_file_spec(box_id, "meta.txt"@),
    ];
    let redirect = if p.io_mode == IoMode::Standard {
        seq!["--stdin=input.txt"@, "--stdout=output.txt"@]
    } else {
        Seq::<Seq<char>>::empty()
    };
    base + redirect + run_command
}

/// Build the launcher's argument vector for one run, as
/// [`run_args_spec`] says.
pub fn run_args(box_id: &str, problem: &Problem, run_command: &Vec<String>) -> (r: Vec<String>)
    requires
        problem.time_limit + 1000 <= u64::MAX,
    ensures
        r.deep_view() == run_args_spec(box_id@, *problem, run_command.deep_view()),
{
    let mut out: Vec<String> = Vec::new();
    out.push("--run".to_owned());
    out.push(concat2("--box-id=", box_id));
    out.push(concat2("--time=", fmt_seconds(problem.time_limit).as_str()));
    out.push(concat2("--wall-time=", fmt_seconds(problem.time_limit + 1000).as_str()));
    out.push(concat2("--mem=", u64_to_string(problem.memory_limit).as_str()));
    out.push("--fsize=131072".to_owned());
    out.push(concat2("--meta=", meta_file_path(box_id).as_str()));
    if problem.io_mode == IoMode::Standard {
        out.push("--stdin=input.txt".to_owned());
        out.push("--stdout=output.txt".to_owned());
    }
    let mut k: usize = 0;
    let ghost mid = out.deep_view();
    proof {
        assert(mid + run_command.deep_view().subrange(0, 0) =~= mid);
    }
    while k < run_command.len()
        invariant
            k <= run_command@.len(),
            out.deep_view() == mid + run_command.deep_view().subrange(0, k as int),
        decreases run_command@.len() - k,
    {
        let ghost prev = out.deep_view();
        out.push(run_command[k].clone());
        proof {
            assert(out.deep_view() =~= prev.push(run_command.deep_view()[k as int]));
            assert(mid + run_command.deep_view().subrange(0, k + 1) =~= (mid
                + run_command.deep_view().subrange(0, k as int)).push(
                run_command.deep_view()[k as int],
            ));
        }
        k = k + 1;
    }
    proof {
        assert(run_command.deep_view().subrange(0, run_command@.len() as int)
            =~= run_command.deep_view());
        assert(mid =~= run_args_spec(box_id@, *problem, Seq::<Seq<char>>::empty()));
        assert(out.deep_view() =~= run_args_spec(box_id@, *problem, run_command.deep_view()));
    }
    out
}

} // verus!

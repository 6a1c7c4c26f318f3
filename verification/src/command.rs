//! Running one external command and turning what it reported into log lines
//! and an outcome.
use crate::ports::{
    CommandOutput, CommandRunner, CommandSpec, ExternalTool, display_spec, failure_message_spec,
    diagnostic_spec, lossy_text,
};
use crate::text::{copy_str, lines, lines_exec, push_str, views};
use vstd::prelude::*;

verus! {

broadcast use vstd::string::group_string_axioms;

/// The log line written before a command starts.
pub open spec fn launch_line(command: Seq<char>, cwd: Seq<char>) -> Seq<char> {
    "$ "@ + command + " (cwd: "@ + cwd + ")"@
}

/// The lines of a non-empty output stream.
pub open spec fn stream_lines(bytes: Seq<u8>) -> Seq<Seq<char>> {
    if bytes.len() == 0 {
        Seq::empty()
    } else {
        lines(lossy_text(bytes))
    }
}

/// The log lines of a finished command: its standard output, then its
/// standard error.
pub open spec fn output_lines(stdout: Seq<u8>, stderr: Seq<u8>) -> Seq<Seq<char>> {
    stream_lines(stdout) + stream_lines(stderr)
}

/// `String::from_utf8_lossy(bytes).lines()`, appended to `log`.
fn log_stream(bytes: &Vec<u8>, log: &mut Vec<String>)
    ensures
        views(final(log)@) == views(old(log)@) + stream_lines(bytes@),
{
    if bytes.len() == 0 {
        assert(views(log@) =~= views(log@) + stream_lines(bytes@));
        return;
    }
    let text = crate::ports::lossy_string(bytes.as_slice());
    let ls = lines_exec(text.as_str());
    let mut i: usize = 0;
    let ghost start = views(log@);
    while i < ls.len()
        invariant
            i <= ls.len(),
            views(ls@) == lines(lossy_text(bytes@)),
            bytes@.len() > 0,
            views(log@) == start + views(ls@).take(i as int),
        decreases ls.len() - i,
    {
        let l = copy_str(ls[i].as_str());
        let ghost before = views(log@);
        log.push(l);
        assert(views(log@) =~= before.push(l@));
        i = i + 1;
        assert(views(log@) =~= start + views(ls@).take(i as int));
    }
    assert(views(ls@).take(ls.len() as int) =~= views(ls@));
}

/// Logs what a finished command printed and fails with its failure message
/// when it did not succeed.
pub fn command_outcome(spec: &CommandSpec, output: &CommandOutput, log: &mut Vec<String>) -> (r:
    Result<(), String>)
    ensures
        views(final(log)@) == views(old(log)@) + output_lines(output.stdout@, output.stderr@),
        r is Ok <==> output.success,
        r matches Err(m) ==> m@ == failure_message_spec(
            display_spec(spec.program@, views(spec.args@)),
            output.status_code,
            spec.current_dir@,
            diagnostic_spec(lossy_text(output.stdout@), lossy_text(output.stderr@)),
        ),
{
    let ghost start = views(log@);
    log_stream(&output.stdout, log);
    log_stream(&output.stderr, log);
    assert(views(log@) =~= start + output_lines(output.stdout@, output.stderr@));
    if !output.success {
        return Err(output.failure_message(spec));
    }
    Ok(())
}

/// Runs `program args…` in `workdir` through `runner`. The launch line is
/// logged first; what follows depends on what the runner reports, and is
/// what `command_outcome` says for that report.
pub fn run_command_with_output<R: CommandRunner>(
    runner: &R,
    workdir: &str,
    program: &str,
    args: &[&str],
    log: &mut Vec<String>,
) -> (r: Result<(), String>)
    ensures
        views(final(log)@).len() > views(old(log)@).len(),
        views(final(log)@).take(views(old(log)@).len() as int) == views(old(log)@),
        views(final(log)@)[views(old(log)@).len() as int] == launch_line(
            display_spec(program@, crate::ports::str_views(args@)),
            workdir@,
        ),
{
    let spec = CommandSpec::new(workdir, program, args);
    let display = spec.display();
    let mut line = copy_str("$ ");
    push_str(&mut line, display.as_str());
    push_str(&mut line, " (cwd: ");
    push_str(&mut line, workdir);
    push_str(&mut line, ")");
    let ghost start = views(log@);
    log.push(line);
    let ghost mid = views(log@);
    assert(mid =~= start.push(line@));
    let result = match runner.run(&spec) {
        Ok(output) => command_outcome(&spec, &output, log),
        Err(e) => Err(e),
    };
    assert(views(log@).take(mid.len() as int) =~= mid);
    assert(views(log@).take(start.len() as int) =~= mid.take(start.len() as int));
    assert(mid.take(start.len() as int) =~= start);
    assert(views(log@)[start.len() as int] == mid[start.len() as int]);
    result
}

/// What a preflight report comes to: every notice of a successful report is
/// appended to `log`, in order, and the run goes on; a failed report leaves
/// `log` as it was and stops the run with the report's error.
pub fn preflight_outcome(report: Result<Vec<String>, String>, log: &mut Vec<String>) -> (r: Result<(), String>)
    ensures
        match report {
            Ok(notices) => r is Ok && views(final(log)@) == views(old(log)@) + views(notices@),
            Err(e) => r == Err::<(), String>(e) && views(final(log)@) == views(old(log)@),
        },
{
    let ghost start = views(log@);
    match report {
        Ok(notices) => {
            let mut i: usize = 0;
            while i < notices.len()
                invariant
                    i <= notices.len(),
                    views(log@) == start + views(notices@).take(i as int),
                decreases notices.len() - i,
            {
                let n = copy_str(notices[i].as_str());
                let ghost before = views(log@);
                log.push(n);
                assert(views(log@) =~= before.push(n@));
                assert(views(notices@).take(i + 1) =~= views(notices@).take(i as int).push(notices@[i as int]@));
                i = i + 1;
            }
            assert(views(notices@).take(notices.len() as int) =~= views(notices@));
            Ok(())
        },
        Err(e) => Err(e),
    }
}

/// Logs each notice that the runner's preflight reports for `tools`. The
/// report comes from the runner, so what holds is what holds of every
/// report (see `preflight_outcome`): on success the log gained the
/// notices after its old lines, on failure it is unchanged.
pub fn preflight_tools<R: CommandRunner>(runner: &R, tools: &[ExternalTool], log: &mut Vec<String>) -> (r:
    Result<(), String>)
    ensures
        views(final(log)@).take(views(old(log)@).len() as int) == views(old(log)@),
        views(final(log)@).len() >= views(old(log)@).len(),
        r is Err ==> views(final(log)@) == views(old(log)@),
{
    let report = runner.preflight(tools);
    preflight_outcome(report, log)
}

} // verus!

use banna::command::{command_outcome, preflight_outcome, run_command_with_output};
use banna::ports::{
    CommandOutput, CommandRunner, CommandSpec, DryRunCommandRunner, ExternalTool,
};
use std::sync::Mutex;

#[test]
fn never_starts_the_requested_process() {
    let output = DryRunCommandRunner
        .run(&CommandSpec::new("/missing", "definitely-not-a-command", &["x"]))
        .expect("dry-run command should be simulated");
    assert!(output.success);
}

#[test]
fn renders_commands_for_logs() {
    let spec = CommandSpec::new("/tmp", "dotnet", &["ef", "database", "update"]);
    assert_eq!(spec.display(), "dotnet ef database update");
}

#[test]
fn failure_messages_include_context_and_prefer_stderr() {
    let spec = CommandSpec::new("/workspace", "npm", &["install", "vue"]);
    let output = CommandOutput {
        status_code: Some(1),
        success: false,
        stdout: b"less useful".to_vec(),
        stderr: b"npm ERR! dependency conflict".to_vec(),
    };

    let message = output.failure_message(&spec);
    assert!(message.contains("npm install vue failed with exit status 1"));
    assert!(message.contains("/workspace"));
    assert!(message.contains("npm ERR! dependency conflict"));
    assert!(!message.contains("less useful"));
}

#[derive(Default)]
struct RecordingRunner(Mutex<Option<CommandSpec>>);

impl CommandRunner for RecordingRunner {
    fn run(&self, spec: &CommandSpec) -> Result<CommandOutput, String> {
        *self.0.lock().expect("recording lock") = Some(spec.clone());
        Ok(CommandOutput {
            status_code: Some(0),
            success: true,
            stdout: Vec::new(),
            stderr: Vec::new(),
        })
    }
}

#[test]
fn executes_npm_without_a_privilege_wrapper() {
    let runner = RecordingRunner::default();
    let mut messages: Vec<String> = Vec::new();

    run_command_with_output(&runner, "/tmp", "npm", &["install", "vue"], &mut messages)
        .expect("npm command should run");

    let command = runner
        .0
        .lock()
        .expect("recording lock")
        .clone()
        .expect("command should be recorded");
    assert_eq!(command.program, "npm");
    assert_eq!(command.args, ["install", "vue"]);
    assert!(command.stdin.is_none());
    assert!(messages.iter().any(|message| message.contains("$ npm install vue")));
}

#[test]
fn failure_message_falls_back_to_stdout_and_reports_signals() {
    let spec = CommandSpec::new("/w", "dotnet", &["build"]);
    let output = CommandOutput {
        status_code: None,
        success: false,
        stdout: b"  build output  \n".to_vec(),
        stderr: b"   \n".to_vec(),
    };
    assert_eq!(
        output.failure_message(&spec),
        "dotnet build failed with exit status terminated by signal (cwd: /w)\ncommand output:\nbuild output"
    );
}

#[test]
fn failure_message_without_output_has_no_output_section() {
    let spec = CommandSpec::new("/w", "abp", &[]);
    let output = CommandOutput { status_code: Some(-3), success: false, stdout: Vec::new(), stderr: Vec::new() };
    assert_eq!(output.failure_message(&spec), "abp failed with exit status -3 (cwd: /w)");
}

#[test]
fn failure_message_keeps_only_the_last_eight_kibibytes() {
    let spec = CommandSpec::new("/w", "npm", &["ci"]);
    let mut stderr = vec![b'a'; 100];
    stderr.extend(vec![b'b'; 8192]);
    let output = CommandOutput { status_code: Some(2), success: false, stdout: Vec::new(), stderr };
    let message = output.failure_message(&spec);
    let tail = message.split("command output:\n").nth(1).expect("output section");
    assert_eq!(tail.len(), 8192);
    assert!(tail.chars().all(|c| c == 'b'));
}

#[test]
fn failure_message_cuts_the_output_at_a_character_boundary() {
    let spec = CommandSpec::new("/w", "npm", &["ci"]);
    // 8191 ASCII bytes behind one two-byte character: the cut may not split it.
    let mut text = String::from("é");
    text.push_str(&"x".repeat(8191));
    let output = CommandOutput { status_code: Some(1), success: false, stdout: Vec::new(), stderr: text.into_bytes() };
    let message = output.failure_message(&spec);
    let tail = message.split("command output:\n").nth(1).expect("output section");
    assert_eq!(tail, "x".repeat(8191));
}

#[test]
fn outcome_logs_stdout_then_stderr_and_fails_on_error_status() {
    let spec = CommandSpec::new("/w", "dotnet", &["ef"]);
    let output = CommandOutput {
        status_code: Some(1),
        success: false,
        stdout: b"one\ntwo\n".to_vec(),
        stderr: b"bad\r\n".to_vec(),
    };
    let mut log = vec!["start".to_string()];
    let result = command_outcome(&spec, &output, &mut log);
    assert_eq!(log, ["start", "one", "two", "bad"]);
    let error = result.expect_err("failed command");
    assert!(error.starts_with("dotnet ef failed with exit status 1 (cwd: /w)"));
    assert!(error.ends_with("\ncommand output:\nbad"));
}

#[test]
fn external_tools_name_their_programs() {
    assert_eq!(ExternalTool::DotNet.program(), "dotnet");
    assert_eq!(ExternalTool::Npm.program(), "npm");
    assert_eq!(ExternalTool::Abp.program(), "abp");
}

#[test]
fn preflight_notices_are_logged_and_a_failed_preflight_stops_the_run() {
    let mut log = vec!["earlier".to_string()];
    let ok = preflight_outcome(Ok(vec!["npm installed".to_string(), "abp installed".to_string()]), &mut log);
    assert_eq!(ok, Ok(()));
    assert_eq!(log, ["earlier", "npm installed", "abp installed"]);
    let failed = preflight_outcome(Err("npm preflight failed".to_string()), &mut log);
    assert_eq!(failed, Err("npm preflight failed".to_string()));
    assert_eq!(log.len(), 3);
}

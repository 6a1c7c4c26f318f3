//! External tools, the commands that run them, and what a finished command
//! reports.
use crate::mapping::Mapping;
use crate::text::{copy_str, decimal, decimal_exec, join, join_exec, push_str, trim, trim_exec, views};
use vstd::prelude::*;

verus! {

broadcast use vstd::string::group_string_axioms;

/// The programs that generation runs.
#[derive(Debug, Clone, Copy, PartialEq, Eq, Structural)]
pub enum ExternalTool {
    DotNet,
    Npm,
    Abp,
}

impl ExternalTool {
    pub open spec fn program_spec(self) -> Seq<char> {
        match self {
            ExternalTool::DotNet => "dotnet"@,
            ExternalTool::Npm => "npm"@,
            ExternalTool::Abp => "abp"@,
        }
    }

    /// The executable name of the tool.
    pub fn program(self) -> (r: &'static str)
        ensures
            r@ == self.program_spec(),
    {
        match self {
            ExternalTool::DotNet => "dotnet",
            ExternalTool::Npm => "npm",
            ExternalTool::Abp => "abp",
        }
    }
}

pub open spec fn str_views(v: Seq<&str>) -> Seq<Seq<char>> {
    v.map_values(|s: &str| s@)
}

/// A command to run: program, arguments, working directory, extra
/// environment and optional standard input.
#[derive(Debug, Clone)]
pub struct CommandSpec {
    pub program: String,
    pub args: Vec<String>,
    pub current_dir: String,
    pub env: Mapping,
    pub stdin: Option<Vec<u8>>,
}

/// The command line as it is logged: program and arguments joined by spaces.
pub open spec fn display_spec(program: Seq<char>, args: Seq<Seq<char>>) -> Seq<char> {
    join(seq![program] + args, " "@)
}

impl CommandSpec {
    /// A command with no extra environment and no standard input.
    pub fn new(current_dir: &str, program: &str, args: &[&str]) -> (r: Self)
        ensures
            r.program@ == program@,
            views(r.args@) == str_views(args@),
            r.current_dir@ == current_dir@,
            forall|k: Seq<char>| r.env.get_spec(k) is None,
            r.stdin is None,
    {
        let mut list: Vec<String> = Vec::new();
        let mut i: usize = 0;
        while i < args.len()
            invariant
                i <= args.len(),
                views(list@) == str_views(args@).take(i as int),
            decreases args.len() - i,
        {
            let a = copy_str(args[i]);
            proof {
                assert(views(list@.push(a)) =~= views(list@).push(a@));
            }
            list.push(a);
            i = i + 1;
            assert(views(list@) =~= str_views(args@).take(i as int));
        }
        assert(str_views(args@).take(args.len() as int) =~= str_views(args@));
        CommandSpec {
            program: copy_str(program),
            args: list,
            current_dir: copy_str(current_dir),
            env: Mapping::new(),
            stdin: None,
        }
    }

    /// The command line for logs.
    pub fn display(&self) -> (r: String)
        ensures
            r@ == display_spec(self.program@, views(self.args@)),
    {
        let mut parts: Vec<String> = Vec::new();
        parts.push(copy_str(self.program.as_str()));
        let mut i: usize = 0;
        while i < self.args.len()
            invariant
                i <= self.args.len(),
                views(parts@) == seq![self.program@] + views(self.args@).take(i as int),
            decreases self.args.len() - i,
        {
            let a = copy_str(self.args[i].as_str());
            proof {
                assert(views(parts@.push(a)) =~= views(parts@).push(a@));
            }
            parts.push(a);
            i = i + 1;
            assert(views(parts@) =~= seq![self.program@] + views(self.args@).take(i as int));
        }
        assert(views(self.args@).take(self.args.len() as int) =~= views(self.args@));
        join_exec(&parts, " ")
    }
}

/// What a finished command reported.
#[derive(Debug, Clone)]
pub struct CommandOutput {
    pub status_code: Option<i32>,
    pub success: bool,
    pub stdout: Vec<u8>,
    pub stderr: Vec<u8>,
}

/// The text that `String::from_utf8_lossy` decodes from `bytes`.
pub uninterp spec fn lossy_text(bytes: Seq<u8>) -> Seq<char>;

pub open spec fn all_ascii(bytes: Seq<u8>) -> bool {
    forall|i: int| 0 <= i < bytes.len() ==> bytes[i] < 128
}

pub open spec fn ascii_chars(bytes: Seq<u8>) -> Seq<char> {
    bytes.map_values(|b: u8| b as char)
}

/// `String::from_utf8_lossy`. Its result is named; the contract states the
/// documented fact that ASCII bytes, being valid UTF-8, decode to the same
/// characters. What invalid sequences become is left to the name.
#[verifier::external_body]
pub(crate) fn lossy_string(bytes: &[u8]) -> (r: String)
    ensures
        r@ == lossy_text(bytes@),
        all_ascii(bytes@) ==> r@ == ascii_chars(bytes@),
{
    String::from_utf8_lossy(bytes).into_owned()
}

/// Longest command output, in UTF-8 bytes, kept in a failure message.
pub const MAX_DIAGNOSTIC_BYTES: usize = 8192;

/// `char::len_utf8`.
pub open spec fn utf8_width(c: char) -> nat {
    if (c as u32) < 0x80 {
        1
    } else if (c as u32) < 0x800 {
        2
    } else if (c as u32) < 0x10000 {
        3
    } else {
        4
    }
}

/// Length of the UTF-8 encoding of `s`.
pub open spec fn utf8_len(s: Seq<char>) -> nat
    decreases s.len(),
{
    if s.len() == 0 {
        0
    } else {
        utf8_width(s[0]) + utf8_len(s.drop_first())
    }
}

/// The shortest suffix of `s` that starts at a character and whose encoding
/// is at most `max` bytes long.
pub open spec fn utf8_tail(s: Seq<char>, max: nat) -> Seq<char>
    decreases s.len(),
{
    if s.len() == 0 || utf8_len(s) <= max {
        s
    } else {
        utf8_tail(s.drop_first(), max)
    }
}

/// The output shown with a failure: the trimmed standard error, or the
/// trimmed standard output where the error stream is blank, cut to its last
/// `MAX_DIAGNOSTIC_BYTES` bytes.
pub open spec fn diagnostic_spec(stdout: Seq<char>, stderr: Seq<char>) -> Seq<char> {
    let d = if trim(stderr).len() == 0 {
        trim(stdout)
    } else {
        trim(stderr)
    };
    utf8_tail(d, MAX_DIAGNOSTIC_BYTES as nat)
}

pub open spec fn status_text(code: Option<i32>) -> Seq<char> {
    match code {
        Some(c) => decimal(c as int),
        None => "terminated by signal"@,
    }
}

pub open spec fn failure_message_spec(
    command: Seq<char>,
    code: Option<i32>,
    cwd: Seq<char>,
    diagnostic: Seq<char>,
) -> Seq<char> {
    let head = command + " failed with exit status "@ + status_text(code) + " (cwd: "@ + cwd + ")"@;
    if diagnostic.len() == 0 {
        head
    } else {
        head + "\ncommand output:\n"@ + diagnostic
    }
}

fn char_width(c: char) -> (r: u128)
    ensures
        r == utf8_width(c),
{
    let v = c as u32;
    if v < 0x80 {
        1
    } else if v < 0x800 {
        2
    } else if v < 0x10000 {
        3
    } else {
        4
    }
}

proof fn lemma_utf8_len_bound(s: Seq<char>)
    ensures
        utf8_len(s) <= 4 * s.len(),
    decreases s.len(),
{
    if s.len() > 0 {
        lemma_utf8_len_bound(s.drop_first());
    }
}

/// The last `max` bytes of `s`, starting at a character.
fn utf8_tail_exec(s: &str, max: usize) -> (r: String)
    ensures
        r@ == utf8_tail(s@, max as nat),
{
    let cs = crate::text::chars_of(s);
    let n = cs.len();
    let mut total: u128 = 0;
    let mut i: usize = n;
    while i > 0
        invariant
            i <= n == cs@.len(),
            total == utf8_len(cs@.skip(i as int)),
            total <= 4 * (n - i),
        decreases i,
    {
        i = i - 1;
        assert(cs@.skip(i as int).drop_first() =~= cs@.skip(i + 1));
        total = total + char_width(cs[i]);
    }
    assert(cs@.skip(0) =~= cs@);
    let mut k: usize = 0;
    while k < n && total > max as u128
        invariant
            k <= n == cs@.len(),
            cs@ == s@,
            total == utf8_len(cs@.skip(k as int)),
            utf8_tail(cs@, max as nat) == utf8_tail(cs@.skip(k as int), max as nat),
        decreases n - k,
    {
        assert(cs@.skip(k as int).drop_first() =~= cs@.skip(k + 1));
        total = total - char_width(cs[k]);
        k = k + 1;
    }
    proof {
        if k == n {
            assert(cs@.skip(k as int) =~= Seq::<char>::empty());
        }
    }
    crate::text::string_of_range(&cs, k, n)
}

impl CommandOutput {
    /// The error reported for a failed command: the command line, its exit
    /// status or the signal that ended it, the working directory, and the
    /// end of its output.
    pub fn failure_message(&self, spec: &CommandSpec) -> (r: String)
        ensures
            r@ == failure_message_spec(
                display_spec(spec.program@, views(spec.args@)),
                self.status_code,
                spec.current_dir@,
                diagnostic_spec(lossy_text(self.stdout@), lossy_text(self.stderr@)),
            ),
    {
        let stderr = lossy_string(self.stderr.as_slice());
        let stdout = lossy_string(self.stdout.as_slice());
        let err_trim = trim_exec(stderr.as_str());
        let chosen = if err_trim.as_str().is_empty() {
            trim_exec(stdout.as_str())
        } else {
            err_trim
        };
        let diagnostic = utf8_tail_exec(chosen.as_str(), MAX_DIAGNOSTIC_BYTES);
        let mut message = spec.display();
        push_str(&mut message, " failed with exit status ");
        match self.status_code {
            Some(code) => {
                let t = decimal_exec(code as i64);
                push_str(&mut message, t.as_str());
            },
            None => push_str(&mut message, "terminated by signal"),
        }
        push_str(&mut message, " (cwd: ");
        push_str(&mut message, spec.current_dir.as_str());
        push_str(&mut message, ")");
        if !diagnostic.as_str().is_empty() {
            push_str(&mut message, "\ncommand output:\n");
            push_str(&mut message, diagnostic.as_str());
        }
        message
    }
}

/// Something that runs commands. Generation hands every external command to
/// one of these; what a real runner returns depends on the machine.
pub trait CommandRunner {
    fn run(&self, spec: &CommandSpec) -> Result<CommandOutput, String>;

    /// The problems found with the tools before any of them runs.
    fn preflight(&self, tools: &[ExternalTool]) -> Result<Vec<String>, String> {
        Ok(Vec::new())
    }
}

/// Treats external commands as successful without starting a process.
pub struct DryRunCommandRunner;

impl CommandRunner for DryRunCommandRunner {
    fn run(&self, spec: &CommandSpec) -> (r: Result<CommandOutput, String>)
        ensures
            r matches Ok(o) && o.success && o.status_code == Some(0i32) && o.stdout@.len() == 0
                && o.stderr@.len() == 0,
    {
        Ok(CommandOutput { status_code: Some(0), success: true, stdout: Vec::new(), stderr: Vec::new() })
    }
}

} // verus!

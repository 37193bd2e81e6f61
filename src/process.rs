//! How the outcome of an external command is reported to a script.

use vstd::prelude::*;

verus! {

/// Process execution for scripts; running the command happens outside.
pub struct ProcessKit;

/// What a finished command produced.
#[derive(Debug, Clone)]
pub struct ProcessResult {
    pub stdout: String,
    pub stderr: String,
    pub exit_code: i32,
    pub success: bool,
}

/// The character of a decimal digit.
pub open spec fn digit_char(d: nat) -> char {
    if d == 0 {
        '0'
    } else if d == 1 {
        '1'
    } else if d == 2 {
        '2'
    } else if d == 3 {
        '3'
    } else if d == 4 {
        '4'
    } else if d == 5 {
        '5'
    } else if d == 6 {
        '6'
    } else if d == 7 {
        '7'
    } else if d == 8 {
        '8'
    } else {
        '9'
    }
}

/// The decimal digits of `n`, without leading zeros.
pub open spec fn decimal(n: nat) -> Seq<char>
    decreases n,
{
    if n < 10 {
        seq![digit_char(n)]
    } else {
        decimal(n / 10).push(digit_char(n % 10))
    }
}

/// `n` written in decimal, with a leading `-` when negative.
pub open spec fn signed_decimal(n: int) -> Seq<char> {
    if n < 0 {
        "-"@ + decimal((-n) as nat)
    } else {
        decimal(n as nat)
    }
}

fn digit_str(d: u32) -> (r: &'static str)
    requires
        d < 10,
    ensures
        r@ == seq![digit_char(d as nat)],
{
    proof {
        reveal_strlit("0");
        reveal_strlit("1");
        reveal_strlit("2");
        reveal_strlit("3");
        reveal_strlit("4");
        reveal_strlit("5");
        reveal_strlit("6");
        reveal_strlit("7");
        reveal_strlit("8");
        reveal_strlit("9");
    }
    match d {
        0 => "0",
        1 => "1",
        2 => "2",
        3 => "3",
        4 => "4",
        5 => "5",
        6 => "6",
        7 => "7",
        8 => "8",
        _ => "9",
    }
}

fn decimal_text(n: u32) -> (r: String)
    ensures
        r@ == decimal(n as nat),
    decreases n,
{
    if n < 10 {
        String::from_str(digit_str(n))
    } else {
        let mut r = decimal_text(n / 10);
        r.append(digit_str(n % 10));
        r
    }
}

/// Writes `n` in decimal.
pub fn signed_decimal_text(n: i32) -> (r: String)
    ensures
        r@ == signed_decimal(n as int),
{
    if n < 0 {
        let magnitude: u32 = if n == i32::MIN {
            2147483648u32
        } else {
            (-n) as u32
        };
        let mut r = String::from_str("-");
        let digits = decimal_text(magnitude);
        r.append(digits.as_str());
        r
    } else {
        decimal_text(n as u32)
    }
}

/// What a script sees of a command: its output when it succeeded, else a
/// report that names `label`, the exit code and both outputs.
pub open spec fn command_report_spec(label: Seq<char>, result: ProcessResult) -> Seq<char> {
    if result.success {
        result.stdout@
    } else {
        label + " failed (exit code: "@ + signed_decimal(result.exit_code as int) + ")\nSTDOUT: "@
            + result.stdout@ + "\nSTDERR: "@ + result.stderr@
    }
}

/// What a script sees of a command that could not be started.
pub open spec fn launch_failure_spec(label: Seq<char>, error: Seq<char>) -> Seq<char> {
    "Failed to execute "@ + label + ": "@ + error
}

/// The name a plain command goes by in reports.
pub const COMMAND_LABEL: &'static str = "Command";

/// The name a shell command goes by in reports.
pub const SHELL_COMMAND_LABEL: &'static str = "Shell command";

/// The lower-case form of a label, as used after "Failed to execute".
pub open spec fn launch_label(shell: bool) -> Seq<char> {
    if shell {
        "shell command"@
    } else {
        "command"@
    }
}

/// The name a command goes by at the start of a failure report.
pub open spec fn report_label(shell: bool) -> Seq<char> {
    if shell {
        SHELL_COMMAND_LABEL@
    } else {
        COMMAND_LABEL@
    }
}

impl ProcessResult {
    /// The report of this result, naming the command `label`.
    pub fn report(&self, label: &str) -> (r: String)
        ensures
            r@ == command_report_spec(label@, *self),
    {
        if self.success {
            self.stdout.clone()
        } else {
            let mut r = String::from_str(label);
            r.append(" failed (exit code: ");
            let code = signed_decimal_text(self.exit_code);
            r.append(code.as_str());
            r.append(")\nSTDOUT: ");
            r.append(self.stdout.as_str());
            r.append("\nSTDERR: ");
            r.append(self.stderr.as_str());
            r
        }
    }
}

impl ProcessKit {
    /// What a script sees of running a command, or a shell command when
    /// `shell` holds: its output, a failure report, or why it did not start.
    pub fn command_output(outcome: &Result<ProcessResult, String>, shell: bool) -> (r: String)
        ensures
            outcome matches Ok(res) ==> r@ == command_report_spec(report_label(shell), *res),
            outcome matches Err(e) ==> r@ == launch_failure_spec(launch_label(shell), e@),
    {
        match outcome {
            Ok(result) => {
                if shell {
                    result.report(SHELL_COMMAND_LABEL)
                } else {
                    result.report(COMMAND_LABEL)
                }
            },
            Err(e) => {
                let mut r = String::from_str("Failed to execute ");
                if shell {
                    r.append("shell command");
                } else {
                    r.append("command");
                }
                r.append(": ");
                r.append(e.as_str());
                r
            },
        }
    }

    /// What a script sees of a lookup in the search path: the path found, or
    /// `Command not found`.
    pub fn which_text(found: Option<String>) -> (r: String)
        ensures
            found matches Some(p) ==> r@ == p@,
            found is None ==> r@ == "Command not found"@,
    {
        match found {
            Some(p) => p,
            None => String::from_str("Command not found"),
        }
    }
}

} // verus!

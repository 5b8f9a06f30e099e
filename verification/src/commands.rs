//! The text of the external commands RustUse runs: how a command is shown,
//! and what is reported when one fails.

use vstd::prelude::*;
use vstd::string::{StrSliceExecFns, StringExecFns};

use crate::text::{i32_text, join, join_seq, push_str, signed_decimal, trim, trimmed, views};

verus! {

/// Options for installing a package through Cargo.
#[derive(Clone, Copy, Debug)]
pub struct CargoInstallOptions<'a> {
    /// The package to install.
    pub package: &'a str,
    /// Replace an existing installation.
    pub force: bool,
    /// Use the package's published lockfile.
    pub locked: bool,
}

/// The command line that installs `package` with the given options.
pub open spec fn install_command_text(package: Seq<char>, force: bool, locked: bool) -> Seq<char> {
    "cargo install "@ + package + (if force { " --force"@ } else { Seq::empty() }) + (if locked {
        " --locked"@
    } else {
        Seq::empty()
    })
}

impl<'a> CargoInstallOptions<'a> {
    /// The printable form of the Cargo command.
    pub fn display_command(self) -> (text: String)
        ensures
            text@ == install_command_text(self.package@, self.force, self.locked),
    {
        let mut text = String::from_str("cargo install ");
        push_str(&mut text, self.package);
        if self.force {
            push_str(&mut text, " --force");
        }
        if self.locked {
            push_str(&mut text, " --locked");
        }
        proof {
            reveal_strlit("cargo install ");
        }
        assert(text@ =~= install_command_text(self.package@, self.force, self.locked));
        text
    }
}

/// The printable form of `program` run with `args`: the program alone, or
/// followed by a space and the arguments separated by spaces.
pub open spec fn command_text(program: Seq<char>, args: Seq<Seq<char>>) -> Seq<char> {
    if args.len() == 0 {
        program
    } else {
        program + " "@ + join_seq(args, " "@)
    }
}

/// The printable form of a command.
pub fn format_command(program: &str, args: &Vec<String>) -> (text: String)
    ensures
        text@ == command_text(program@, views(args@)),
{
    if args.len() == 0 {
        return program.to_owned();
    }
    let mut text = program.to_owned();
    push_str(&mut text, " ");
    let joined = join(args, " ");
    push_str(&mut text, joined.as_str());
    text
}

/// A value as a report shows it: `<empty>` in place of an empty text.
pub open spec fn empty_label_text(value: Seq<char>) -> Seq<char> {
    if value.len() == 0 {
        "<empty>"@
    } else {
        value
    }
}

/// The value, or `<empty>` where it is empty.
pub fn empty_label<'a>(value: &'a str) -> (label: &'a str)
    ensures
        label@ == empty_label_text(value@),
{
    if value.unicode_len() == 0 {
        "<empty>"
    } else {
        value
    }
}

/// The exit status as a report shows it.
pub open spec fn status_text(code: Option<i32>) -> Seq<char> {
    match code {
        Some(c) => signed_decimal(c as int),
        None => "terminated by signal"@,
    }
}

/// What a finished command wrote and how it exited.
#[derive(Clone, Debug)]
pub struct CommandOutput {
    pub stdout: String,
    pub stderr: String,
    /// The exit code; none where a signal ended the process.
    pub status_code: Option<i32>,
}

impl CommandOutput {
    /// The output of a command, with surrounding whitespace trimmed from
    /// what it wrote.
    pub fn from_raw(stdout: &str, stderr: &str, status_code: Option<i32>) -> (output: CommandOutput)
        ensures
            output.stdout@ == trim(stdout@),
            output.stderr@ == trim(stderr@),
            output.status_code == status_code,
    {
        CommandOutput { stdout: trimmed(stdout), stderr: trimmed(stderr), status_code }
    }
}

/// The report of a failed command.
pub open spec fn failure_text(command: Seq<char>, cwd: Seq<char>, output: CommandOutput) -> Seq<char> {
    "command failed: `"@ + command + "` in `"@ + cwd + "`\nstatus: "@ + status_text(output.status_code)
        + "\nstdout:\n"@ + empty_label_text(output.stdout@) + "\nstderr:\n"@ + empty_label_text(output.stderr@)
}

/// The report of `program` with `args`, run in `cwd`, having failed with
/// `output`.
pub fn command_failure_message(program: &str, args: &Vec<String>, cwd: &str, output: &CommandOutput) -> (text: String)
    ensures
        text@ == failure_text(command_text(program@, views(args@)), cwd@, *output),
{
    let command = format_command(program, args);
    let status = match output.status_code {
        Some(code) => i32_text(code),
        None => String::from_str("terminated by signal"),
    };
    let mut text = String::from_str("command failed: `");
    push_str(&mut text, command.as_str());
    push_str(&mut text, "` in `");
    push_str(&mut text, cwd);
    push_str(&mut text, "`\nstatus: ");
    push_str(&mut text, status.as_str());
    push_str(&mut text, "\nstdout:\n");
    push_str(&mut text, empty_label(output.stdout.as_str()));
    push_str(&mut text, "\nstderr:\n");
    push_str(&mut text, empty_label(output.stderr.as_str()));
    proof {
        reveal_strlit("command failed: `");
    }
    text
}

} // verus!

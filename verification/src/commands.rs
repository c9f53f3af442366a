//! What the remaining commands hand to the outside: the command lines that
//! start the built program, alone or under the debugger, and the flags
//! file for the language server.

use crate::config::{Config, ConfigView};
use crate::jobs::{Invocation, InvocationView};
use crate::plan::{BuildPlan, PlanView};
use crate::text::texts;
use vstd::prelude::*;
use vstd::string::StringExecFns;

verus! {

/// The command line that runs the binary under the debugger, from its
/// start to its end, without a prompt.
pub open spec fn run_line(config: ConfigView, plan: PlanView) -> InvocationView {
    InvocationView {
        program: config.debugger,
        arguments: seq!["--source-quietly"@, "-o"@, "run"@, "-o"@, "exit"@, plan.binary],
    }
}

/// The command line that runs the binary of a debug build under the
/// debugger, so that a fault at run time is caught.
pub fn run_command(config: &Config, plan: &BuildPlan) -> (line: Invocation)
    ensures
        line@ == run_line(config@, plan@),
{
    let mut arguments: Vec<String> = Vec::new();
    arguments.push("--source-quietly".to_owned());
    arguments.push("-o".to_owned());
    arguments.push("run".to_owned());
    arguments.push("-o".to_owned());
    arguments.push("exit".to_owned());
    arguments.push(plan.binary.clone());
    assert(texts(arguments@) =~= run_line(config@, plan@).arguments);
    Invocation { program: config.debugger.clone(), arguments }
}

/// The command line that runs the binary on its own.
pub open spec fn release_run_line(plan: PlanView) -> InvocationView {
    InvocationView { program: plan.binary, arguments: seq![] }
}

/// The command line that runs the binary of a release build.
pub fn release_run_command(plan: &BuildPlan) -> (line: Invocation)
    ensures
        line@ == release_run_line(plan@),
{
    let arguments: Vec<String> = Vec::new();
    assert(texts(arguments@) =~= release_run_line(plan@).arguments);
    Invocation { program: plan.binary.clone(), arguments }
}

/// The command line that opens the binary in the debugger.
pub open spec fn debug_line(config: ConfigView, plan: PlanView) -> InvocationView {
    InvocationView { program: config.debugger, arguments: seq![plan.binary] }
}

/// The command line that opens the binary of a debug build in the
/// debugger and leaves the session to the user.
pub fn debug_command(config: &Config, plan: &BuildPlan) -> (line: Invocation)
    ensures
        line@ == debug_line(config@, plan@),
{
    let mut arguments: Vec<String> = Vec::new();
    arguments.push(plan.binary.clone());
    assert(texts(arguments@) =~= debug_line(config@, plan@).arguments);
    Invocation { program: config.debugger.clone(), arguments }
}

/// The flags, one per line, each line ended.
pub open spec fn flag_lines(flags: Seq<Seq<char>>) -> Seq<char>
    decreases flags.len(),
{
    if flags.len() == 0 {
        seq![]
    } else {
        flag_lines(flags.drop_last()) + flags.last() + "\n"@
    }
}

/// The contents of the flags file for the language server.
pub open spec fn clangd_flags(config: ConfigView) -> Seq<char> {
    "-Iinclude\n"@ + "-Isrc\n"@ + flag_lines(config.flags)
}

/// The contents of the flags file for the language server: the two
/// include paths, then the common flags, one per line.
pub fn clangd_config_command(config: &Config) -> (contents: String)
    ensures
        contents@ == clangd_flags(config@),
{
    let mut contents = String::new();
    contents.append("-Iinclude\n");
    contents.append("-Isrc\n");
    let ghost head = contents@;
    assert(head =~= "-Iinclude\n"@ + "-Isrc\n"@);
    let ghost flags = texts(config.flags@);
    let mut i: usize = 0;
    while i < config.flags.len()
        invariant
            i <= config.flags.len(),
            flags == texts(config.flags@),
            contents@ == head + flag_lines(flags.take(i as int)),
        decreases config.flags.len() - i,
    {
        assert(flags.take(i as int + 1).drop_last() =~= flags.take(i as int));
        assert(flags.take(i as int + 1).last() == config.flags@[i as int]@);
        contents.append(config.flags[i].as_str());
        contents.append("\n");
        assert(contents@ =~= head + flag_lines(flags.take(i as int + 1)));
        i += 1;
    }
    assert(flags.take(i as int) =~= flags);
    contents
}

} // verus!

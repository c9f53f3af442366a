//! Compile jobs and the command lines of the toolchain: one compile
//! invocation per source, one link invocation per build, one lint
//! invocation over all the project's code.

use crate::config::{Config, ConfigView};
use crate::plan::{BuildPlan, PlanView};
use crate::text::{append_copies, copy_strings, joined, same_chars, texts};
use vstd::string::StrSliceExecFns;
use vstd::prelude::*;

verus! {

/// One source file to compile into one object file.
#[derive(Debug, Clone, PartialEq, Eq)]
pub struct CompileJob {
    pub source: String,
    pub object: String,
    pub flags: Vec<String>,
    pub compiler: String,
}

/// A `CompileJob`, as character sequences.
pub struct JobView {
    pub source: Seq<char>,
    pub object: Seq<char>,
    pub flags: Seq<Seq<char>>,
    pub compiler: Seq<char>,
}

impl View for CompileJob {
    type V = JobView;

    open spec fn view(&self) -> JobView {
        JobView {
            source: self.source@,
            object: self.object@,
            flags: texts(self.flags@),
            compiler: self.compiler@,
        }
    }
}

/// A command line: the program to start and its arguments, in order.
#[derive(Debug, Clone, PartialEq, Eq)]
pub struct Invocation {
    pub program: String,
    pub arguments: Vec<String>,
}

/// An `Invocation`, as character sequences.
pub struct InvocationView {
    pub program: Seq<char>,
    pub arguments: Seq<Seq<char>>,
}

impl View for Invocation {
    type V = InvocationView;

    open spec fn view(&self) -> InvocationView {
        InvocationView { program: self.program@, arguments: texts(self.arguments@) }
    }
}

/// The views of a list of jobs, in order.
pub open spec fn job_views(jobs: Seq<CompileJob>) -> Seq<JobView> {
    Seq::new(jobs.len(), |i: int| jobs[i]@)
}

/// The job that compiles `source` under a plan, where `object_name` is the
/// source's path with the object extension.
pub open spec fn job_of(plan: PlanView, source: Seq<char>, object_name: Seq<char>) -> JobView {
    JobView {
        source,
        object: plan.output_dir + plan.separator + object_name,
        flags: plan.compile_flags,
        compiler: plan.compiler,
    }
}

/// Whether a text holds no path separator of any platform.
pub open spec fn no_separator(text: Seq<char>) -> bool {
    forall|i: int| 0 <= i < text.len() ==> text[i] != '/' && text[i] != '\\'
}

/// Whether `rest` is what replacing an extension may cut off the end of a
/// path: nothing at all, or a dot followed by characters among which there
/// is no dot and no separator.
pub open spec fn is_extension(rest: Seq<char>) -> bool {
    rest.len() == 0 || (rest[0] == '.' && forall|i: int|
        1 <= i < rest.len() ==> rest[i] != '.' && rest[i] != '/' && rest[i] != '\\')
}

/// Whether `name` is `path` with `extension` in the place of its own: the
/// path up to some place, then a dot and `extension`, where what the path
/// holds from that place on is an extension or nothing.
pub open spec fn has_extension_of(path: Seq<char>, extension: Seq<char>, name: Seq<char>) -> bool {
    exists|n: int|
        0 <= n <= path.len() && name == (#[trigger] path.take(n)) + "."@ + extension
            && is_extension(path.skip(n))
}

/// Whether `job` compiles `source` under the plan into an object that lies
/// below the plan's output directory and is named as the source is, with
/// the extension of an object file in the place of its own.
pub open spec fn is_job_for(plan: PlanView, source: Seq<char>, job: JobView) -> bool {
    exists|object_name: Seq<char>|
        has_extension_of(source, "o"@, object_name) && job == #[trigger] job_of(
            plan,
            source,
            object_name,
        )
}

/// Calls `std::path::Path::with_extension` on the path that `path` spells.
/// std documents that the call panics on an extension that holds a path
/// separator, so such an extension is left out. How a path splits into
/// directories, stem and extension is the platform's affair, so nothing is
/// claimed of the path that comes back: its caller tests it.
#[verifier::external_body]
fn with_extension(path: &str, extension: &str) -> String
    requires
        no_separator(extension@),
{
    std::path::Path::new(path).with_extension(extension).to_string_lossy().into_owned()
}

fn ends_in_extension(path: &str, from: usize) -> (yes: bool)
    requires
        from <= path@.len() <= usize::MAX,
    ensures
        yes == is_extension(path@.skip(from as int)),
{
    let length = path.unicode_len();
    if from == length {
        return true;
    }
    let ghost rest = path@.skip(from as int);
    if path.get_char(from) != '.' {
        assert(rest[0] == path@[from as int]);
        return false;
    }
    let mut i: usize = from + 1;
    while i < length
        invariant
            from < i <= length,
            length == path@.len(),
            rest == path@.skip(from as int),
            rest[0] == '.',
            forall|j: int| 1 <= j < i - from ==> rest[j] != '.' && rest[j] != '/' && rest[j] != '\\',
        decreases length - i,
    {
        let c = path.get_char(i);
        if c == '.' || c == '/' || c == '\\' {
            assert(rest[i - from] == c);
            return false;
        }
        i += 1;
    }
    true
}

/// Says whether `name` is `path` with `extension` in the place of its own.
pub fn is_swapped(path: &str, extension: &str, name: &str) -> (yes: bool)
    ensures
        yes == has_extension_of(path@, extension@, name@),
{
    proof {
        reveal_strlit(".");
    }
    let path_len = path.unicode_len();
    let name_len = name.unicode_len();
    let extension_len = extension.unicode_len();
    if name_len <= extension_len {
        return false;
    }
    let cut = name_len - extension_len - 1;
    if cut > path_len {
        return false;
    }
    let yes = same_chars(name, 0, path, 0, cut) && name.get_char(cut) == '.' && same_chars(
        name,
        cut + 1,
        extension,
        0,
        extension_len,
    ) && ends_in_extension(path, cut);
    proof {
        assert(extension@.subrange(0, extension_len as int) =~= extension@);
        assert(path@.subrange(0, cut as int) =~= path@.take(cut as int));
        if yes {
            assert(name@ =~= path@.take(cut as int) + "."@ + extension@);
        } else if has_extension_of(path@, extension@, name@) {
            let n = choose|n: int|
                0 <= n <= path@.len() && name@ == (#[trigger] path@.take(n)) + "."@ + extension@
                    && is_extension(path@.skip(n));
            assert(n == cut);
            assert(name@.subrange(0, cut as int) =~= path@.take(cut as int));
            assert(name@[cut as int] == '.');
            assert(name@.subrange(cut + 1, cut + 1 + extension_len) =~= extension@);
        }
    }
    yes
}

/// Makes the job that compiles `source` into the object named
/// `object_name` below the plan's output directory.
pub fn compile_job(plan: &BuildPlan, source: &str, object_name: &str) -> (job: CompileJob)
    ensures
        job@ == job_of(plan@, source@, object_name@),
{
    let below = joined(plan.output_dir.as_str(), plan.separator.as_str());
    let object = joined(below.as_str(), object_name);
    CompileJob {
        source: source.to_owned(),
        object,
        flags: copy_strings(&plan.compile_flags),
        compiler: plan.compiler.clone(),
    }
}

/// Makes one compile job per source, in the order of the sources. Each
/// job's object lies below the plan's output directory, under the source's
/// own path with the extension of an object file in the place of its own.
/// The name is the one that the platform's path rules give; where that is
/// no such name, the extension is added to the whole path.
pub fn compile_all_objects(plan: &BuildPlan, sources: &Vec<String>) -> (jobs: Vec<CompileJob>)
    ensures
        jobs.len() == sources.len(),
        forall|i: int|
            0 <= i < sources.len() ==> is_job_for(plan@, sources@[i]@, #[trigger] jobs@[i]@),
{
    let mut jobs: Vec<CompileJob> = Vec::new();
    let mut i: usize = 0;
    while i < sources.len()
        invariant
            i <= sources.len(),
            jobs.len() == i,
            forall|j: int| 0 <= j < i ==> is_job_for(plan@, sources@[j]@, #[trigger] jobs@[j]@),
        decreases sources.len() - i,
    {
        let source = sources[i].as_str();
        proof {
            reveal_strlit("o");
            reveal_strlit(".");
            reveal_strlit(".o");
            assert(no_separator("o"@));
        }
        let swapped = with_extension(source, "o");
        let object_name = if is_swapped(source, "o", swapped.as_str()) {
            swapped
        } else {
            let added = joined(source, ".o");
            proof {
                assert(source@.take(source@.len() as int) =~= source@);
                assert(".o"@ =~= "."@ + "o"@);
                assert(added@ =~= source@.take(source@.len() as int) + "."@ + "o"@);
                assert(is_extension(source@.skip(source@.len() as int)));
            }
            added
        };
        let job = compile_job(plan, source, object_name.as_str());
        assert(is_job_for(plan@, sources@[i as int]@, job@)) by {
            assert(job@ == job_of(plan@, sources@[i as int]@, object_name@));
        }
        jobs.push(job);
        i += 1;
    }
    jobs
}

/// The command line that compiles a job.
pub open spec fn compile_line(job: JobView) -> InvocationView {
    InvocationView {
        program: job.compiler,
        arguments: job.flags + seq!["-c"@, "-o"@, job.object, job.source],
    }
}

/// The command line that compiles one job: the job's flags, then the
/// request to compile only, the output and the input.
pub fn compile_object(job: &CompileJob) -> (line: Invocation)
    ensures
        line@ == compile_line(job@),
{
    let mut arguments = copy_strings(&job.flags);
    let ghost flags = arguments@;
    arguments.push("-c".to_owned());
    arguments.push("-o".to_owned());
    arguments.push(job.object.clone());
    arguments.push(job.source.clone());
    assert(texts(arguments@) =~= texts(flags) + seq!["-c"@, "-o"@, job.object@, job.source@]);
    Invocation { program: job.compiler.clone(), arguments }
}

/// The command line that links the objects of a build.
pub open spec fn link_line(plan: PlanView, objects: Seq<Seq<char>>) -> InvocationView {
    InvocationView {
        program: plan.compiler,
        arguments: plan.link_flags + seq!["-o"@, plan.binary] + objects,
    }
}

/// The command line that links a build: the link flags, then the binary to
/// produce, then every object in the order given.
pub fn link_program(plan: &BuildPlan, objects: &Vec<String>) -> (line: Invocation)
    ensures
        line@ == link_line(plan@, texts(objects@)),
{
    let mut arguments = copy_strings(&plan.link_flags);
    let ghost flags = arguments@;
    arguments.push("-o".to_owned());
    arguments.push(plan.binary.clone());
    assert(texts(arguments@) =~= texts(flags) + seq!["-o"@, plan.binary@]);
    append_copies(&mut arguments, objects);
    Invocation { program: plan.compiler.clone(), arguments }
}

/// The command line that lints the given files.
pub open spec fn lint_line(
    linter: Seq<char>,
    checks: Seq<char>,
    compile_flags: Seq<Seq<char>>,
    code_files: Seq<Seq<char>>,
) -> InvocationView {
    InvocationView {
        program: linter,
        arguments: code_files + seq!["-checks="@ + checks, "--"@] + compile_flags,
    }
}

/// The command line that lints the given files: the files, then the check
/// selector, then, after a separator, the flags to compile them with.
pub fn lint(linter: &str, checks: &str, compile_flags: &Vec<String>, code_files: &Vec<String>) -> (line:
    Invocation)
    ensures
        line@ == lint_line(linter@, checks@, texts(compile_flags@), texts(code_files@)),
{
    let mut arguments = copy_strings(code_files);
    let ghost files = arguments@;
    arguments.push(joined("-checks=", checks));
    arguments.push("--".to_owned());
    assert(texts(arguments@) =~= texts(files) + seq!["-checks="@ + checks@, "--"@]);
    append_copies(&mut arguments, compile_flags);
    Invocation { program: linter.to_owned(), arguments }
}

/// The command line that lints a project's code under its configuration.
pub open spec fn lint_command_line(config: ConfigView, code_files: Seq<Seq<char>>) -> InvocationView {
    lint_line(
        config.linter,
        config.linter_checks,
        config.flags + seq!["-Iinclude"@],
        code_files,
    )
}

/// The command line that lints a project's code: the configured linter and
/// check selector, over the common flags and the include path.
pub fn lint_command(config: &Config, code_files: &Vec<String>) -> (line: Invocation)
    ensures
        line@ == lint_command_line(config@, texts(code_files@)),
{
    let mut flags = copy_strings(&config.flags);
    let ghost common = flags@;
    flags.push("-Iinclude".to_owned());
    assert(texts(flags@) =~= texts(common) + seq!["-Iinclude"@]);
    lint(config.linter.as_str(), config.linter_checks.as_str(), &flags, code_files)
}

} // verus!

//! The results of running the toolchain: what one job came to, what the
//! whole build came to, and how the first folds into the second.

use crate::text::joined;
use vstd::prelude::*;

verus! {

/// How one start of a tool ended.
#[derive(Debug, Clone, PartialEq, Eq)]
pub enum Launch {
    /// The process ran to its end, with or without success.
    Exited { success: bool },
    /// The process could not be started.
    NotStarted { reason: String },
    /// The directory for the tool's output could not be created.
    NoFolder { reason: String },
}

/// A `Launch`, as character sequences.
pub enum LaunchView {
    Exited { success: bool },
    NotStarted { reason: Seq<char> },
    NoFolder { reason: Seq<char> },
}

impl View for Launch {
    type V = LaunchView;

    open spec fn view(&self) -> LaunchView {
        match self {
            Launch::Exited { success } => LaunchView::Exited { success: *success },
            Launch::NotStarted { reason } => LaunchView::NotStarted { reason: reason@ },
            Launch::NoFolder { reason } => LaunchView::NoFolder { reason: reason@ },
        }
    }
}

/// What one compile job came to.
#[derive(Debug, Clone, PartialEq, Eq)]
pub enum BuildResult {
    /// The compiler ran and accepted the source.
    Success,
    /// The compiler ran and rejected the source.
    CompilerFailure,
    /// The compiler could not be run at all.
    ToolLaunchError(String),
}

/// A `BuildResult`, as character sequences.
pub enum ResultView {
    Success,
    CompilerFailure,
    ToolLaunchError(Seq<char>),
}

impl View for BuildResult {
    type V = ResultView;

    open spec fn view(&self) -> ResultView {
        match self {
            BuildResult::Success => ResultView::Success,
            BuildResult::CompilerFailure => ResultView::CompilerFailure,
            BuildResult::ToolLaunchError(message) => ResultView::ToolLaunchError(message@),
        }
    }
}

/// What a whole build came to.
#[derive(Debug, Clone, PartialEq, Eq)]
pub enum BuildOutcome {
    /// Everything compiled and linked.
    Success,
    /// The toolchain ran and rejected the project.
    BuildFailed,
    /// The build could not be carried out.
    Error(String),
}

/// A `BuildOutcome`, as character sequences.
pub enum OutcomeView {
    Success,
    BuildFailed,
    Error(Seq<char>),
}

impl View for BuildOutcome {
    type V = OutcomeView;

    open spec fn view(&self) -> OutcomeView {
        match self {
            BuildOutcome::Success => OutcomeView::Success,
            BuildOutcome::BuildFailed => OutcomeView::BuildFailed,
            BuildOutcome::Error(message) => OutcomeView::Error(message@),
        }
    }
}

impl BuildOutcome {
    /// A copy of the outcome.
    pub fn copy(&self) -> (same: BuildOutcome)
        ensures
            same@ == self@,
    {
        match self {
            BuildOutcome::Success => BuildOutcome::Success,
            BuildOutcome::BuildFailed => BuildOutcome::BuildFailed,
            BuildOutcome::Error(message) => BuildOutcome::Error(message.clone()),
        }
    }
}

/// The views of a list of results, in order.
pub open spec fn result_views(results: Seq<BuildResult>) -> Seq<ResultView> {
    Seq::new(results.len(), |i: int| results[i]@)
}

/// What a compile job came to, given how the compiler's start ended.
pub open spec fn compile_result_of(launch: LaunchView) -> ResultView {
    match launch {
        LaunchView::Exited { success } => if success {
            ResultView::Success
        } else {
            ResultView::CompilerFailure
        },
        LaunchView::NotStarted { reason } => ResultView::ToolLaunchError(
            "Can't start compiler : "@ + reason,
        ),
        LaunchView::NoFolder { reason } => ResultView::ToolLaunchError(
            "Can't create build folder : "@ + reason,
        ),
    }
}

/// Says what a compile job came to: success or failure where the compiler
/// ran, a launch error where it did not.
pub fn compile_result(launch: &Launch) -> (result: BuildResult)
    ensures
        result@ == compile_result_of(launch@),
{
    match launch {
        Launch::Exited { success } => if *success {
            BuildResult::Success
        } else {
            BuildResult::CompilerFailure
        },
        Launch::NotStarted { reason } => BuildResult::ToolLaunchError(
            joined("Can't start compiler : ", reason.as_str()),
        ),
        Launch::NoFolder { reason } => BuildResult::ToolLaunchError(
            joined("Can't create build folder : ", reason.as_str()),
        ),
    }
}

/// What the build came to, given how the linker's start ended; the
/// `output_dir` is the directory the binary was to go to.
pub open spec fn link_result_of(launch: LaunchView, output_dir: Seq<char>) -> OutcomeView {
    match launch {
        LaunchView::Exited { success } => if success {
            OutcomeView::Success
        } else {
            OutcomeView::BuildFailed
        },
        LaunchView::NotStarted { reason } => OutcomeView::Error(
            "Can't start compiler : "@ + reason,
        ),
        LaunchView::NoFolder { reason } => OutcomeView::Error(
            "Can't create "@ + output_dir + " directory : "@ + reason,
        ),
    }
}

/// Says what the build came to once the linker's start has ended.
pub fn link_result(launch: &Launch, output_dir: &str) -> (outcome: BuildOutcome)
    ensures
        outcome@ == link_result_of(launch@, output_dir@),
{
    match launch {
        Launch::Exited { success } => if *success {
            BuildOutcome::Success
        } else {
            BuildOutcome::BuildFailed
        },
        Launch::NotStarted { reason } => BuildOutcome::Error(
            joined("Can't start compiler : ", reason.as_str()),
        ),
        Launch::NoFolder { reason } => {
            let start = joined("Can't create ", output_dir);
            let middle = joined(start.as_str(), " directory : ");
            BuildOutcome::Error(joined(middle.as_str(), reason.as_str()))
        },
    }
}

/// The message of the first launch error among the results; `None` where
/// there is none.
pub open spec fn launch_error(results: Seq<ResultView>) -> Option<Seq<char>>
    decreases results.len(),
{
    if results.len() == 0 {
        None
    } else {
        match launch_error(results.drop_last()) {
            Some(message) => Some(message),
            None => match results.last() {
                ResultView::ToolLaunchError(message) => Some(message),
                _ => None,
            },
        }
    }
}

/// Whether the compiler rejected some source.
pub open spec fn any_compiler_failure(results: Seq<ResultView>) -> bool {
    exists|i: int| 0 <= i < results.len() && (#[trigger] results[i]) is CompilerFailure
}

/// What the compile phase came to: an error where some job could not be
/// run, a failed build where every job ran and some source was rejected,
/// and success where every job succeeded.
pub open spec fn verdict(results: Seq<ResultView>) -> OutcomeView {
    match launch_error(results) {
        Some(message) => OutcomeView::Error(message),
        None => if any_compiler_failure(results) {
            OutcomeView::BuildFailed
        } else {
            OutcomeView::Success
        },
    }
}

/// Folds the results of all the compile jobs into what the compile phase
/// came to.
pub fn collect(results: &Vec<BuildResult>) -> (outcome: BuildOutcome)
    ensures
        outcome@ == verdict(result_views(results@)),
{
    let ghost views = result_views(results@);
    let mut error: Option<String> = None;
    let mut rejected = false;
    let mut i: usize = 0;
    while i < results.len()
        invariant
            i <= results.len(),
            views == result_views(results@),
            match error {
                Some(message) => launch_error(views.take(i as int)) == Some(message@),
                None => launch_error(views.take(i as int)) is None,
            },
            rejected == any_compiler_failure(views.take(i as int)),
        decreases results.len() - i,
    {
        assert(views.take(i as int + 1).drop_last() =~= views.take(i as int));
        let ghost before = views.take(i as int);
        let ghost after = views.take(i as int + 1);
        match &results[i] {
            BuildResult::Success => {},
            BuildResult::CompilerFailure => {
                rejected = true;
            },
            BuildResult::ToolLaunchError(message) => {
                if error.is_none() {
                    error = Some(message.clone());
                }
            },
        }
        proof {
            if any_compiler_failure(before) {
                let k = choose|k: int| 0 <= k < before.len() && (#[trigger] before[k]) is CompilerFailure;
                assert(after[k] is CompilerFailure);
            }
            if after[i as int] is CompilerFailure {
                assert(any_compiler_failure(after));
            }
            if any_compiler_failure(after) && !(after[i as int] is CompilerFailure) {
                let k = choose|k: int| 0 <= k < after.len() && (#[trigger] after[k]) is CompilerFailure;
                assert(before[k] is CompilerFailure);
            }
        }
        i += 1;
    }
    assert(views.take(i as int) =~= views);
    match error {
        Some(message) => BuildOutcome::Error(message),
        None => if rejected {
            BuildOutcome::BuildFailed
        } else {
            BuildOutcome::Success
        },
    }
}

/// Some job could not be run exactly where the results hold a launch
/// error.
pub proof fn lemma_launch_error_iff_present(results: Seq<ResultView>)
    ensures
        launch_error(results) is Some <==> exists|i: int|
            0 <= i < results.len() && (#[trigger] results[i]) is ToolLaunchError,
    decreases results.len(),
{
    if results.len() > 0 {
        let before = results.drop_last();
        lemma_launch_error_iff_present(before);
        if launch_error(results) is Some {
            if launch_error(before) is Some {
                let i = choose|i: int|
                    0 <= i < before.len() && (#[trigger] before[i]) is ToolLaunchError;
                assert(results[i] is ToolLaunchError);
            } else {
                assert(results[results.len() - 1] is ToolLaunchError);
            }
        } else {
            assert forall|i: int| 0 <= i < results.len() implies !((
            #[trigger] results[i]) is ToolLaunchError) by {
                if i < before.len() {
                    assert(before[i] == results[i]);
                }
            }
        }
    }
}

/// The compile phase succeeds exactly where every job succeeded; with no
/// job at all it succeeds.
pub proof fn lemma_verdict_success_iff_all_succeed(results: Seq<ResultView>)
    ensures
        verdict(results) is Success <==> forall|i: int|
            0 <= i < results.len() ==> (#[trigger] results[i]) is Success,
{
    lemma_launch_error_iff_present(results);
}

/// Where the compiler rejected some source and every job could be run,
/// the compile phase comes to a failed build.
pub proof fn lemma_compiler_failure_fails_build(results: Seq<ResultView>, failed: int)
    requires
        0 <= failed < results.len(),
        results[failed] is CompilerFailure,
        forall|i: int| 0 <= i < results.len() ==> !((#[trigger] results[i]) is ToolLaunchError),
    ensures
        verdict(results) == OutcomeView::BuildFailed,
{
    lemma_launch_error_iff_present(results);
}

/// Where some job could not be run, the compile phase comes to an error,
/// whatever the other jobs came to.
pub proof fn lemma_launch_error_is_error(results: Seq<ResultView>, failed: int)
    requires
        0 <= failed < results.len(),
        results[failed] is ToolLaunchError,
    ensures
        verdict(results) is Error,
{
    lemma_launch_error_iff_present(results);
}

} // verus!

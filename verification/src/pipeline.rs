//! The build pipeline as a state machine. The pipeline decides; its caller
//! does the outside work that each action asks for and reports back with
//! an event.

use crate::catalog::{
    discovery, find_objects, find_srcs, object_suffixes, source_suffixes, unreadable_message,
    Walked,
};
use crate::config::{fault_message, Config, ConfigError, ConfigFault, ConfigView};
use crate::jobs::{
    compile_all_objects, is_job_for, job_views, link_line, link_program, CompileJob, Invocation,
    InvocationView, JobView,
};
use crate::outcome::{
    collect, link_result, link_result_of, result_views, verdict, BuildOutcome, BuildResult,
    Launch, LaunchView, OutcomeView, ResultView,
};
use crate::plan::{build, plan_of, BuildPlan, PlanView, Platform, PlatformView};
use vstd::prelude::*;

verus! {

/// The stages of a build.
#[derive(Debug, Clone, Copy, PartialEq, Eq, Structural)]
pub enum Stage {
    ResolvingConfig,
    Discovering,
    Compiling,
    Linking,
    Done,
    Failed,
}

/// Where a pipeline stands, with what it carries there. The linking stage
/// has two halves: `Scanning` waits for the objects to be found, `Linking`
/// for the linker to end.
#[derive(Debug)]
pub enum Phase {
    ResolvingConfig,
    Discovering { plan: BuildPlan },
    Compiling { plan: BuildPlan },
    Scanning { plan: BuildPlan },
    Linking { plan: BuildPlan },
    Done { outcome: BuildOutcome },
    Failed { outcome: BuildOutcome },
}

/// A `Phase`, as character sequences.
pub enum PhaseView {
    ResolvingConfig,
    Discovering { plan: PlanView },
    Compiling { plan: PlanView },
    Scanning { plan: PlanView },
    Linking { plan: PlanView },
    Done { outcome: OutcomeView },
    Failed { outcome: OutcomeView },
}

impl View for Phase {
    type V = PhaseView;

    open spec fn view(&self) -> PhaseView {
        match self {
            Phase::ResolvingConfig => PhaseView::ResolvingConfig,
            Phase::Discovering { plan } => PhaseView::Discovering { plan: plan@ },
            Phase::Compiling { plan } => PhaseView::Compiling { plan: plan@ },
            Phase::Scanning { plan } => PhaseView::Scanning { plan: plan@ },
            Phase::Linking { plan } => PhaseView::Linking { plan: plan@ },
            Phase::Done { outcome } => PhaseView::Done { outcome: outcome@ },
            Phase::Failed { outcome } => PhaseView::Failed { outcome: outcome@ },
        }
    }
}

/// The stage that a phase belongs to.
pub open spec fn stage_of(phase: PhaseView) -> Stage {
    match phase {
        PhaseView::ResolvingConfig => Stage::ResolvingConfig,
        PhaseView::Discovering { .. } => Stage::Discovering,
        PhaseView::Compiling { .. } => Stage::Compiling,
        PhaseView::Scanning { .. } => Stage::Linking,
        PhaseView::Linking { .. } => Stage::Linking,
        PhaseView::Done { .. } => Stage::Done,
        PhaseView::Failed { .. } => Stage::Failed,
    }
}

/// What the caller reports back to the pipeline.
#[derive(Debug)]
pub enum Event {
    /// The configuration was resolved, or could not be.
    ConfigLoaded(Result<Config, ConfigError>),
    /// The source directory was walked.
    SourcesWalked(Vec<Walked>),
    /// Every compile job has ended.
    JobsFinished(Vec<BuildResult>),
    /// The variant's output directory was walked.
    ObjectsWalked(Vec<Walked>),
    /// The linker has ended.
    LinkFinished(Launch),
}

/// An `Event`, as character sequences.
pub enum EventView {
    ConfigLoaded(Result<ConfigView, ConfigFault>),
    SourcesWalked(Seq<Walked>),
    JobsFinished(Seq<ResultView>),
    ObjectsWalked(Seq<Walked>),
    LinkFinished(LaunchView),
}

impl View for Event {
    type V = EventView;

    open spec fn view(&self) -> EventView {
        match self {
            Event::ConfigLoaded(Ok(config)) => EventView::ConfigLoaded(Ok(config@)),
            Event::ConfigLoaded(Err(error)) => EventView::ConfigLoaded(Err(error@)),
            Event::SourcesWalked(items) => EventView::SourcesWalked(items@),
            Event::JobsFinished(results) => EventView::JobsFinished(result_views(results@)),
            Event::ObjectsWalked(items) => EventView::ObjectsWalked(items@),
            Event::LinkFinished(launch) => EventView::LinkFinished(launch@),
        }
    }
}

/// What the pipeline asks its caller to do next.
#[derive(Debug, Clone, PartialEq, Eq)]
pub enum Action {
    /// Walk the directory `root` for sources and report `SourcesWalked`.
    WalkSources { root: String },
    /// Run every job and report `JobsFinished` once all have ended.
    Compile { jobs: Vec<CompileJob> },
    /// Walk the directory `root` for objects, creating it first where it
    /// is missing, and report `ObjectsWalked`.
    WalkObjects { root: String },
    /// Start the linker with this command line, creating the directory
    /// `folder` first where it is missing, and report `LinkFinished`.
    Link { line: Invocation, folder: String },
    /// Report the outcome to the user: the build is over.
    Finish { outcome: BuildOutcome },
}

/// An `Action`, as character sequences.
pub enum ActionView {
    WalkSources { root: Seq<char> },
    Compile { jobs: Seq<JobView> },
    WalkObjects { root: Seq<char> },
    Link { line: InvocationView, folder: Seq<char> },
    Finish { outcome: OutcomeView },
}

impl View for Action {
    type V = ActionView;

    open spec fn view(&self) -> ActionView {
        match self {
            Action::WalkSources { root } => ActionView::WalkSources { root: root@ },
            Action::Compile { jobs } => ActionView::Compile { jobs: job_views(jobs@) },
            Action::WalkObjects { root } => ActionView::WalkObjects { root: root@ },
            Action::Link { line, folder } => ActionView::Link { line: line@, folder: folder@ },
            Action::Finish { outcome } => ActionView::Finish { outcome: outcome@ },
        }
    }
}

/// The view of the action that a step asked for, if it asked for one.
pub open spec fn asked(action: Option<Action>) -> Option<ActionView> {
    match action {
        Some(action) => Some(action@),
        None => None,
    }
}

/// One build of one variant, from the resolution of the configuration to
/// the outcome.
#[derive(Debug)]
pub struct Pipeline {
    release: bool,
    platform: Platform,
    phase: Phase,
}

/// A `Pipeline`, as character sequences.
pub struct PipelineView {
    pub release: bool,
    pub platform: PlatformView,
    pub phase: PhaseView,
}

impl View for Pipeline {
    type V = PipelineView;

    closed spec fn view(&self) -> PipelineView {
        PipelineView { release: self.release, platform: self.platform@, phase: self.phase@ }
    }
}

/// `pre` moved to another phase.
pub open spec fn moved(pre: PipelineView, phase: PhaseView) -> PipelineView {
    PipelineView { release: pre.release, platform: pre.platform, phase }
}

/// Whether one job stands for each source, in order, under the plan.
pub open spec fn jobs_for(plan: PlanView, sources: Seq<Seq<char>>, jobs: Seq<JobView>) -> bool {
    &&& jobs.len() == sources.len()
    &&& forall|i: int| 0 <= i < sources.len() ==> is_job_for(plan, sources[i], #[trigger] jobs[i])
}

/// Whether the step from `pre` on `event` may end in `post` with `action`.
/// Everything is fixed by `pre` and `event` but the names of the objects
/// in the compile jobs.
pub open spec fn advanced(
    pre: PipelineView,
    event: EventView,
    post: PipelineView,
    action: Option<ActionView>,
) -> bool {
    match (pre.phase, event) {
        (PhaseView::ResolvingConfig, EventView::ConfigLoaded(Ok(config))) => {
            &&& post == moved(
                pre,
                PhaseView::Discovering { plan: plan_of(config, pre.release, pre.platform) },
            )
            &&& action == Some(ActionView::WalkSources { root: "src"@ })
        },
        (PhaseView::ResolvingConfig, EventView::ConfigLoaded(Err(fault))) => {
            let outcome = OutcomeView::Error(fault_message(fault));
            &&& post == moved(pre, PhaseView::Failed { outcome })
            &&& action == Some(ActionView::Finish { outcome })
        },
        (PhaseView::Discovering { plan }, EventView::SourcesWalked(items)) => match discovery(
            items,
            source_suffixes(),
        ) {
            Ok(sources) => {
                &&& post == moved(pre, PhaseView::Compiling { plan })
                &&& action matches Some(ActionView::Compile { jobs })
                &&& jobs_for(plan, sources, jobs)
            },
            Err(reason) => {
                let outcome = OutcomeView::Error(unreadable_message(reason));
                &&& post == moved(pre, PhaseView::Failed { outcome })
                &&& action == Some(ActionView::Finish { outcome })
            },
        },
        (PhaseView::Compiling { plan }, EventView::JobsFinished(results)) => {
            let outcome = verdict(results);
            if outcome is Success {
                &&& post == moved(pre, PhaseView::Scanning { plan })
                &&& action == Some(ActionView::WalkObjects { root: plan.output_dir })
            } else {
                &&& post == moved(pre, PhaseView::Failed { outcome })
                &&& action == Some(ActionView::Finish { outcome })
            }
        },
        (PhaseView::Scanning { plan }, EventView::ObjectsWalked(items)) => match discovery(
            items,
            object_suffixes(),
        ) {
            Ok(objects) => {
                &&& post == moved(pre, PhaseView::Linking { plan })
                &&& action == Some(
                    ActionView::Link { line: link_line(plan, objects), folder: plan.output_dir },
                )
            },
            Err(reason) => {
                let outcome = OutcomeView::Error(unreadable_message(reason));
                &&& post == moved(pre, PhaseView::Done { outcome })
                &&& action == Some(ActionView::Finish { outcome })
            },
        },
        (PhaseView::Linking { plan }, EventView::LinkFinished(launch)) => {
            let outcome = link_result_of(launch, plan.output_dir);
            &&& post == moved(pre, PhaseView::Done { outcome })
            &&& action == Some(ActionView::Finish { outcome })
        },
        _ => post == pre && action is None,
    }
}

impl Pipeline {
    /// A pipeline for one variant, waiting for the configuration.
    pub fn new(release: bool, platform: Platform) -> (pipeline: Pipeline)
        ensures
            pipeline@ == (PipelineView {
                release,
                platform: platform@,
                phase: PhaseView::ResolvingConfig,
            }),
    {
        Pipeline { release, platform, phase: Phase::ResolvingConfig }
    }

    /// The stage the pipeline is in.
    pub fn stage(&self) -> (stage: Stage)
        ensures
            stage == stage_of(self@.phase),
    {
        match &self.phase {
            Phase::ResolvingConfig => Stage::ResolvingConfig,
            Phase::Discovering { .. } => Stage::Discovering,
            Phase::Compiling { .. } => Stage::Compiling,
            Phase::Scanning { .. } => Stage::Linking,
            Phase::Linking { .. } => Stage::Linking,
            Phase::Done { .. } => Stage::Done,
            Phase::Failed { .. } => Stage::Failed,
        }
    }

    /// The outcome of the build, once the pipeline has come to its end.
    pub fn outcome(&self) -> (outcome: Option<BuildOutcome>)
        ensures
            match outcome {
                Some(outcome) => self@.phase == (PhaseView::Done { outcome: outcome@ })
                    || self@.phase == (PhaseView::Failed { outcome: outcome@ }),
                None => !(self@.phase is Done) && !(self@.phase is Failed),
            },
    {
        match &self.phase {
            Phase::Done { outcome } => Some(outcome.copy()),
            Phase::Failed { outcome } => Some(outcome.copy()),
            _ => None,
        }
    }

    /// Takes the report of the work that the last action asked for, and
    /// says what to do next. An event that does not answer the last action
    /// changes nothing and asks for nothing.
    pub fn advance(self, event: Event) -> (next: (Pipeline, Option<Action>))
        ensures
            advanced(self@, event@, next.0@, asked(next.1)),
    {
        let release = self.release;
        let platform = self.platform;
        match self.phase {
            Phase::ResolvingConfig => match event {
                Event::ConfigLoaded(Ok(config)) => {
                    let plan = build(&config, release, &platform);
                    (
                        Pipeline { release, platform, phase: Phase::Discovering { plan } },
                        Some(Action::WalkSources { root: "src".to_owned() }),
                    )
                },
                Event::ConfigLoaded(Err(error)) => {
                    let outcome = BuildOutcome::Error(error.message());
                    let report = outcome.copy();
                    (
                        Pipeline { release, platform, phase: Phase::Failed { outcome } },
                        Some(Action::Finish { outcome: report }),
                    )
                },
                _ => (Pipeline { release, platform, phase: Phase::ResolvingConfig }, None),
            },
            Phase::Discovering { plan } => match event {
                Event::SourcesWalked(items) => match find_srcs(&items) {
                    Ok(sources) => {
                        let jobs = compile_all_objects(&plan, &sources);
                        assert(jobs_for(plan@, crate::text::texts(sources@), job_views(jobs@)));
                        (
                            Pipeline { release, platform, phase: Phase::Compiling { plan } },
                            Some(Action::Compile { jobs }),
                        )
                    },
                    Err(error) => {
                        let outcome = BuildOutcome::Error(error.message());
                        let report = outcome.copy();
                        (
                            Pipeline { release, platform, phase: Phase::Failed { outcome } },
                            Some(Action::Finish { outcome: report }),
                        )
                    },
                },
                _ => (Pipeline { release, platform, phase: Phase::Discovering { plan } }, None),
            },
            Phase::Compiling { plan } => match event {
                Event::JobsFinished(results) => match collect(&results) {
                    BuildOutcome::Success => {
                        let root = plan.output_dir.clone();
                        (
                            Pipeline { release, platform, phase: Phase::Scanning { plan } },
                            Some(Action::WalkObjects { root }),
                        )
                    },
                    outcome => {
                        let report = outcome.copy();
                        (
                            Pipeline { release, platform, phase: Phase::Failed { outcome } },
                            Some(Action::Finish { outcome: report }),
                        )
                    },
                },
                _ => (Pipeline { release, platform, phase: Phase::Compiling { plan } }, None),
            },
            Phase::Scanning { plan } => match event {
                Event::ObjectsWalked(items) => match find_objects(&items) {
                    Ok(objects) => {
                        let line = link_program(&plan, &objects);
                        let folder = plan.output_dir.clone();
                        (
                            Pipeline { release, platform, phase: Phase::Linking { plan } },
                            Some(Action::Link { line, folder }),
                        )
                    },
                    Err(error) => {
                        let outcome = BuildOutcome::Error(error.message());
                        let report = outcome.copy();
                        (
                            Pipeline { release, platform, phase: Phase::Done { outcome } },
                            Some(Action::Finish { outcome: report }),
                        )
                    },
                },
                _ => (Pipeline { release, platform, phase: Phase::Scanning { plan } }, None),
            },
            Phase::Linking { plan } => match event {
                Event::LinkFinished(launch) => {
                    let outcome = link_result(&launch, plan.output_dir.as_str());
                    let report = outcome.copy();
                    (
                        Pipeline { release, platform, phase: Phase::Done { outcome } },
                        Some(Action::Finish { outcome: report }),
                    )
                },
                _ => (Pipeline { release, platform, phase: Phase::Linking { plan } }, None),
            },
            Phase::Done { outcome } => (
                Pipeline { release, platform, phase: Phase::Done { outcome } },
                None,
            ),
            Phase::Failed { outcome } => (
                Pipeline { release, platform, phase: Phase::Failed { outcome } },
                None,
            ),
        }
    }
}

/// Whether step `i` of a record is a step of the pipeline.
pub open spec fn step_at(
    states: Seq<PipelineView>,
    events: Seq<EventView>,
    actions: Seq<Option<ActionView>>,
    i: int,
) -> bool {
    advanced(states[i], events[i], states[i + 1], actions[i])
}

/// Whether the three sequences record a run of a pipeline: it starts in
/// `states[0]`, and step `i` takes it on `events[i]` from `states[i]` to
/// `states[i + 1]` with `actions[i]`.
pub open spec fn is_run(
    states: Seq<PipelineView>,
    events: Seq<EventView>,
    actions: Seq<Option<ActionView>>,
) -> bool {
    &&& states.len() == events.len() + 1
    &&& actions.len() == events.len()
    &&& forall|i: int| 0 <= i < events.len() ==> #[trigger] step_at(states, events, actions, i)
}

/// What is left of a record of a run after its first step.
pub proof fn lemma_rest_is_run(
    states: Seq<PipelineView>,
    events: Seq<EventView>,
    actions: Seq<Option<ActionView>>,
)
    requires
        is_run(states, events, actions),
        events.len() > 0,
    ensures
        is_run(states.drop_first(), events.drop_first(), actions.drop_first()),
        advanced(states[0], events[0], states[1], actions[0]),
{
    assert(step_at(states, events, actions, 0));
    assert forall|i: int| 0 <= i < events.len() - 1 implies #[trigger] step_at(
        states.drop_first(),
        events.drop_first(),
        actions.drop_first(),
        i,
    ) by {
        assert(step_at(states, events, actions, i + 1));
    }
}

/// Whether a step asked for the linker.
pub open spec fn asks_link(action: Option<ActionView>) -> bool {
    action matches Some(ActionView::Link { .. })
}

/// How many steps of a run asked for the linker.
pub open spec fn link_count(actions: Seq<Option<ActionView>>) -> nat
    decreases actions.len(),
{
    if actions.len() == 0 {
        0
    } else {
        link_count(actions.drop_first()) + if asks_link(actions[0]) {
            1nat
        } else {
            0nat
        }
    }
}

/// How many link invocations a pipeline in this phase can still ask for.
pub open spec fn links_ahead(phase: PhaseView) -> nat {
    match phase {
        PhaseView::Linking { .. } | PhaseView::Done { .. } | PhaseView::Failed { .. } => 0,
        _ => 1,
    }
}

/// A pipeline that has come to its end stays where it is and asks for
/// nothing more, whatever is reported to it.
pub proof fn lemma_end_is_final(
    pre: PipelineView,
    event: EventView,
    post: PipelineView,
    action: Option<ActionView>,
)
    requires
        pre.phase is Done || pre.phase is Failed,
        advanced(pre, event, post, action),
    ensures
        post == pre,
        action is None,
{
}

/// A step never moves a pipeline back: it stays, or it goes on by one
/// stage, or it fails; and it fails only from the first three stages.
pub proof fn lemma_stages_in_order(
    pre: PipelineView,
    event: EventView,
    post: PipelineView,
    action: Option<ActionView>,
)
    requires
        advanced(pre, event, post, action),
    ensures
        post.release == pre.release,
        post.platform == pre.platform,
        match stage_of(pre.phase) {
            Stage::ResolvingConfig => stage_of(post.phase) == Stage::ResolvingConfig || stage_of(
                post.phase,
            ) == Stage::Discovering || stage_of(post.phase) == Stage::Failed,
            Stage::Discovering => stage_of(post.phase) == Stage::Discovering || stage_of(
                post.phase,
            ) == Stage::Compiling || stage_of(post.phase) == Stage::Failed,
            Stage::Compiling => stage_of(post.phase) == Stage::Compiling || stage_of(post.phase)
                == Stage::Linking || stage_of(post.phase) == Stage::Failed,
            Stage::Linking => stage_of(post.phase) == Stage::Linking || stage_of(post.phase)
                == Stage::Done,
            Stage::Done => post == pre,
            Stage::Failed => post == pre,
        },
{
}

/// In any run, the linker is asked for at most as often as the first
/// state allows: never from the linker's start on, and at most once
/// before.
pub proof fn lemma_links_bounded(
    states: Seq<PipelineView>,
    events: Seq<EventView>,
    actions: Seq<Option<ActionView>>,
)
    requires
        is_run(states, events, actions),
    ensures
        link_count(actions) <= links_ahead(states[0].phase),
    decreases events.len(),
{
    if events.len() > 0 {
        let rest_states = states.drop_first();
        let rest_events = events.drop_first();
        let rest_actions = actions.drop_first();
        lemma_rest_is_run(states, events, actions);
        lemma_links_bounded(rest_states, rest_events, rest_actions);
        assert(rest_states[0] == states[1]);
    }
}

/// Where the compiler rejected some source and every job could be run, the
/// build fails: the step reports `BuildFailed`, the pipeline is `Failed`,
/// and however the run goes on, the linker is never asked for.
pub proof fn lemma_failed_compile_never_links(
    states: Seq<PipelineView>,
    events: Seq<EventView>,
    actions: Seq<Option<ActionView>>,
    results: Seq<ResultView>,
    failed: int,
)
    requires
        is_run(states, events, actions),
        events.len() > 0,
        states[0].phase is Compiling,
        events[0] == EventView::JobsFinished(results),
        0 <= failed < results.len(),
        results[failed] is CompilerFailure,
        forall|i: int| 0 <= i < results.len() ==> !((#[trigger] results[i]) is ToolLaunchError),
    ensures
        actions[0] == Some(ActionView::Finish { outcome: OutcomeView::BuildFailed }),
        states[1].phase == (PhaseView::Failed { outcome: OutcomeView::BuildFailed }),
        link_count(actions) == 0,
{
    crate::outcome::lemma_compiler_failure_fails_build(results, failed);
    assert(step_at(states, events, actions, 0));
    let rest_states = states.drop_first();
    let rest_events = events.drop_first();
    let rest_actions = actions.drop_first();
    lemma_rest_is_run(states, events, actions);
    assert(rest_states[0] == states[1]);
    lemma_links_bounded(rest_states, rest_events, rest_actions);
}

/// Where any job did not succeed, the build never reaches the linker:
/// the pipeline is `Failed` with the verdict on the results, and however
/// the run goes on, the linker is never asked for.
pub proof fn lemma_unsuccessful_compile_never_links(
    states: Seq<PipelineView>,
    events: Seq<EventView>,
    actions: Seq<Option<ActionView>>,
    results: Seq<ResultView>,
    failed: int,
)
    requires
        is_run(states, events, actions),
        events.len() > 0,
        states[0].phase is Compiling,
        events[0] == EventView::JobsFinished(results),
        0 <= failed < results.len(),
        !(results[failed] is Success),
    ensures
        !(verdict(results) is Success),
        actions[0] == Some(ActionView::Finish { outcome: verdict(results) }),
        states[1].phase == (PhaseView::Failed { outcome: verdict(results) }),
        link_count(actions) == 0,
{
    crate::outcome::lemma_verdict_success_iff_all_succeed(results);
    assert(step_at(states, events, actions, 0));
    let rest_states = states.drop_first();
    let rest_events = events.drop_first();
    let rest_actions = actions.drop_first();
    lemma_rest_is_run(states, events, actions);
    assert(rest_states[0] == states[1]);
    lemma_links_bounded(rest_states, rest_events, rest_actions);
}

/// Where every job succeeded, also where there was none, and the walk of
/// the output directory that follows could be read, the linker is asked
/// for exactly once in the whole run, with exactly the object files that
/// the walk found, in its order.
pub proof fn lemma_successful_compile_links_once(
    states: Seq<PipelineView>,
    events: Seq<EventView>,
    actions: Seq<Option<ActionView>>,
    results: Seq<ResultView>,
    items: Seq<Walked>,
)
    requires
        is_run(states, events, actions),
        events.len() >= 2,
        states[0].phase is Compiling,
        events[0] == EventView::JobsFinished(results),
        forall|i: int| 0 <= i < results.len() ==> (#[trigger] results[i]) is Success,
        events[1] == EventView::ObjectsWalked(items),
        discovery(items, object_suffixes()) is Ok,
    ensures
        actions[0] == Some(
            ActionView::WalkObjects { root: states[0].phase->Compiling_plan.output_dir },
        ),
        actions[1] == Some(
            ActionView::Link {
                line: link_line(
                    states[0].phase->Compiling_plan,
                    discovery(items, object_suffixes())->Ok_0,
                ),
                folder: states[0].phase->Compiling_plan.output_dir,
            },
        ),
        link_count(actions) == 1,
{
    crate::outcome::lemma_verdict_success_iff_all_succeed(results);
    assert(step_at(states, events, actions, 0));
    assert(step_at(states, events, actions, 1));
    let rest_states = states.drop_first().drop_first();
    let rest_events = events.drop_first().drop_first();
    let rest_actions = actions.drop_first().drop_first();
    lemma_rest_is_run(states, events, actions);
    lemma_rest_is_run(states.drop_first(), events.drop_first(), actions.drop_first());
    assert(rest_states[0] == states[2]);
    lemma_links_bounded(rest_states, rest_events, rest_actions);
    assert(link_count(actions.drop_first()) == link_count(rest_actions) + 1) by {
        assert(actions.drop_first()[0] == actions[1]);
    }
    assert(!asks_link(actions[0]));
}

} // verus!

//! One run of a command, as a sequence of steps.
//!
//! The orchestration decides; it performs nothing. Each [`Step`] names the
//! phase that the run has reached, a signal for the progress indicator and the
//! action to perform next. The caller gives the signal, performs the action
//! and reports what came of it as an [`Event`]; phase and event give the next
//! step, which [`next`] defines. The run is over when the phase is
//! [`Phase::Finished`].

use crate::commit::{CommitRecord, CommitRecordView};
use crate::error::{
    exit_status, message_text, outcome_view, CommandErrorView, Outcome, OutcomeView, Subprocess,
};
use crate::report::{lemma_report_shows_commit, occurs_in, report_text};
use crate::selection::{identifier_in, lemma_identifier_is_leading_token};
use vstd::prelude::*;

verus! {

/// A signal for the progress indicator that the user sees while waiting.
#[derive(Clone, Copy, Debug, PartialEq, Eq, Structural)]
pub enum Progress {
    /// Show the indicator.
    Start,
    /// Replace the indicator by a mark of success.
    Success,
    /// Replace the indicator by a mark of failure.
    Failure,
}

/// What the caller is to do next.
#[derive(Debug, PartialEq, Eq)]
pub enum Action {
    /// Ask version control for the commit `id`.
    FetchCommit { id: String },
    /// Ask the provider to explain `commit`.
    AskProvider { commit: CommitRecord },
    /// Run the picker over the commit history.
    RunPicker,
    /// Pipe `report` through the display pipeline.
    Display { report: String },
    /// Write `text` to standard output.
    Print { text: String },
}

/// What an [`Action`] stands for in contracts.
pub enum ActionView {
    FetchCommit { id: Seq<char> },
    AskProvider { commit: CommitRecordView },
    RunPicker,
    Display { report: Seq<char> },
    Print { text: Seq<char> },
}

impl View for Action {
    type V = ActionView;

    open spec fn view(&self) -> ActionView {
        match *self {
            Action::FetchCommit { id } => ActionView::FetchCommit { id: id@ },
            Action::AskProvider { commit } => ActionView::AskProvider { commit: commit@ },
            Action::RunPicker => ActionView::RunPicker,
            Action::Display { report } => ActionView::Display { report: report@ },
            Action::Print { text } => ActionView::Print { text: text@ },
        }
    }
}

/// What came of an action.
#[derive(Debug, PartialEq, Eq)]
pub enum Event {
    /// Version control knows the commit and says this of it.
    CommitFound {
        author_name: String,
        author_email: String,
        date: String,
        message: String,
        diff: String,
    },
    /// Version control knows no such commit.
    CommitMissing,
    /// The provider explained the commit.
    Explained { text: String },
    /// The provider failed.
    ProviderFailed { message: String },
    /// The picker ran and ended. `status` is its exit code, `None` where it
    /// was stopped from outside; `output` is all it wrote to standard output.
    PickerExited { status: Option<i32>, output: String },
    /// The picker could not be started.
    PickerUnavailable,
    /// The display pipeline ran and ended, as for the picker.
    DisplayExited { status: Option<i32>, output: String },
    /// The display pipeline could not be started.
    DisplayUnavailable,
}

/// What an [`Event`] stands for in contracts.
pub enum EventView {
    CommitFound {
        author_name: Seq<char>,
        author_email: Seq<char>,
        date: Seq<char>,
        message: Seq<char>,
        diff: Seq<char>,
    },
    CommitMissing,
    Explained { text: Seq<char> },
    ProviderFailed { message: Seq<char> },
    PickerExited { status: Option<i32>, output: Seq<char> },
    PickerUnavailable,
    DisplayExited { status: Option<i32>, output: Seq<char> },
    DisplayUnavailable,
}

impl View for Event {
    type V = EventView;

    open spec fn view(&self) -> EventView {
        match *self {
            Event::CommitFound { author_name, author_email, date, message, diff } => {
                EventView::CommitFound {
                    author_name: author_name@,
                    author_email: author_email@,
                    date: date@,
                    message: message@,
                    diff: diff@,
                }
            },
            Event::CommitMissing => EventView::CommitMissing,
            Event::Explained { text } => EventView::Explained { text: text@ },
            Event::ProviderFailed { message } => EventView::ProviderFailed { message: message@ },
            Event::PickerExited { status, output } => EventView::PickerExited {
                status,
                output: output@,
            },
            Event::PickerUnavailable => EventView::PickerUnavailable,
            Event::DisplayExited { status, output } => EventView::DisplayExited {
                status,
                output: output@,
            },
            Event::DisplayUnavailable => EventView::DisplayUnavailable,
        }
    }
}

/// How far a run has come.
#[derive(Debug, PartialEq, Eq)]
pub enum Phase {
    /// The picker runs; nothing is chosen yet.
    Picking,
    /// Version control is asked for the commit `id`.
    Fetching { id: String },
    /// The provider is asked to explain `commit`.
    Explaining { commit: CommitRecord },
    /// The report is with the display pipeline.
    Displaying,
    /// The run is over and `outcome` is how it ended. Nothing is left to do
    /// but what the step that got here asks for.
    Finished { outcome: Outcome },
}

/// What a [`Phase`] stands for in contracts.
pub enum PhaseView {
    Picking,
    Fetching { id: Seq<char> },
    Explaining { commit: CommitRecordView },
    Displaying,
    Finished { outcome: OutcomeView },
}

impl View for Phase {
    type V = PhaseView;

    open spec fn view(&self) -> PhaseView {
        match *self {
            Phase::Picking => PhaseView::Picking,
            Phase::Fetching { id } => PhaseView::Fetching { id: id@ },
            Phase::Explaining { commit } => PhaseView::Explaining { commit: commit@ },
            Phase::Displaying => PhaseView::Displaying,
            Phase::Finished { outcome } => PhaseView::Finished { outcome: outcome_view(outcome) },
        }
    }
}

/// One step of a run: the phase reached, then what the caller is to do, in
/// this order: give the `progress` signal, if any; perform the `action`, if
/// any.
#[derive(Debug, PartialEq, Eq)]
pub struct Step {
    pub phase: Phase,
    pub progress: Option<Progress>,
    pub action: Option<Action>,
}

/// What a [`Step`] stands for in contracts.
pub struct StepView {
    pub phase: PhaseView,
    pub progress: Option<Progress>,
    pub action: Option<ActionView>,
}

impl View for Step {
    type V = StepView;

    open spec fn view(&self) -> StepView {
        StepView {
            phase: self.phase@,
            progress: self.progress,
            action: match self.action {
                Some(action) => Some(action@),
                None => None,
            },
        }
    }
}

/// The step that changes nothing and asks for nothing.
pub open spec fn stay(phase: PhaseView) -> StepView {
    StepView { phase, progress: None, action: None }
}

/// The last step of a run that ends with `outcome`. Whatever `progress` says,
/// it asks for no action.
pub open spec fn finish(outcome: OutcomeView, progress: Option<Progress>) -> StepView {
    StepView { phase: PhaseView::Finished { outcome }, progress, action: None }
}

/// The first step of explaining the commit `id`: show the progress indicator
/// and ask version control for the commit. An empty `id` names no commit, and
/// nothing is started for it.
pub open spec fn begin_explain(id: Seq<char>) -> StepView {
    if id.len() == 0 {
        finish(Err(CommandErrorView::NotFound { id }), None)
    } else {
        StepView {
            phase: PhaseView::Fetching { id },
            progress: Some(Progress::Start),
            action: Some(ActionView::FetchCommit { id }),
        }
    }
}

/// The first step of browsing the history: run the picker.
pub open spec fn begin_list() -> StepView {
    StepView { phase: PhaseView::Picking, progress: None, action: Some(ActionView::RunPicker) }
}

/// Whether a subprocess that ended with `status` did its work.
pub open spec fn succeeded(status: Option<i32>) -> bool {
    status == Some(0i32)
}

/// The step that follows when `event` is reported in `phase`.
///
/// - While picking: a picker that failed ends the run with that failure; one
///   that ended well with nothing chosen ends the run in success, with
///   nothing done; otherwise the chosen commit is explained from the start.
/// - While fetching: the commit found is handed to the provider, under the
///   identifier that was asked for; a commit that is missing ends the run
///   with `NotFound`, and so does one found for no identifier at all.
/// - While explaining: the explanation is laid out with the commit as a
///   report, which goes to the display pipeline; a provider's failure ends
///   the run with what it said, and the provider is not asked again.
/// - While displaying: what the pipeline wrote is printed and the run ends
///   in success; a pipeline that failed ends the run with that failure.
/// - While the progress indicator shows, it is resolved in the same step that
///   leaves the phase.
/// - An event that the phase does not wait for changes nothing.
pub open spec fn next(phase: PhaseView, event: EventView) -> StepView {
    match (phase, event) {
        (PhaseView::Picking, EventView::PickerExited { status, output }) => {
            if !succeeded(status) {
                finish(
                    Err(CommandErrorView::SubprocessFailure { process: Subprocess::Picker, status }),
                    None,
                )
            } else if identifier_in(output).len() == 0 {
                finish(Ok(()), None)
            } else {
                begin_explain(identifier_in(output))
            }
        },
        (PhaseView::Picking, EventView::PickerUnavailable) => finish(
            Err(CommandErrorView::SubprocessFailure { process: Subprocess::Picker, status: None }),
            None,
        ),
        (
            PhaseView::Fetching { id },
            EventView::CommitFound { author_name, author_email, date, message, diff },
        ) => {
            if id.len() == 0 {
                finish(Err(CommandErrorView::NotFound { id }), Some(Progress::Failure))
            } else {
                let commit = CommitRecordView { id, author_name, author_email, date, message, diff };
                StepView {
                    phase: PhaseView::Explaining { commit },
                    progress: None,
                    action: Some(ActionView::AskProvider { commit }),
                }
            }
        },
        (PhaseView::Fetching { id }, EventView::CommitMissing) => finish(
            Err(CommandErrorView::NotFound { id }),
            Some(Progress::Failure),
        ),
        (PhaseView::Explaining { commit }, EventView::Explained { text }) => StepView {
            phase: PhaseView::Displaying,
            progress: Some(Progress::Success),
            action: Some(ActionView::Display { report: report_text(commit, text) }),
        },
        (PhaseView::Explaining { commit }, EventView::ProviderFailed { message }) => finish(
            Err(CommandErrorView::ProviderFailure { message }),
            Some(Progress::Failure),
        ),
        (PhaseView::Displaying, EventView::DisplayExited { status, output }) => {
            if succeeded(status) {
                StepView {
                    phase: PhaseView::Finished { outcome: Ok(()) },
                    progress: None,
                    action: Some(ActionView::Print { text: output }),
                }
            } else {
                finish(
                    Err(
                        CommandErrorView::SubprocessFailure {
                            process: Subprocess::Display,
                            status,
                        },
                    ),
                    None,
                )
            }
        },
        (PhaseView::Displaying, EventView::DisplayUnavailable) => finish(
            Err(CommandErrorView::SubprocessFailure { process: Subprocess::Display, status: None }),
            None,
        ),
        _ => stay(phase),
    }
}

/// Whether the progress indicator shows while the run is in `phase`.
pub open spec fn indicator_shows(phase: PhaseView) -> bool {
    phase is Fetching || phase is Explaining
}

/// How far `phase` is on the way from the picker to the end of the run.
pub open spec fn rank(phase: PhaseView) -> nat {
    match phase {
        PhaseView::Picking => 0,
        PhaseView::Fetching { .. } => 1,
        PhaseView::Explaining { .. } => 2,
        PhaseView::Displaying => 3,
        PhaseView::Finished { .. } => 4,
    }
}

/// Whether `event` reports what came of `action`. Printing is the one action
/// that nothing is reported of.
pub open spec fn answers(event: EventView, action: ActionView) -> bool {
    match action {
        ActionView::FetchCommit { .. } => event is CommitFound || event is CommitMissing,
        ActionView::AskProvider { .. } => event is Explained || event is ProviderFailed,
        ActionView::RunPicker => event is PickerExited || event is PickerUnavailable,
        ActionView::Display { .. } => event is DisplayExited || event is DisplayUnavailable,
        ActionView::Print { .. } => false,
    }
}

/// Whether `step` asks for what its phase waits for: the picker while
/// picking, the commit of that identifier while fetching, an explanation of
/// that commit while explaining, the display while displaying, and at the end
/// nothing, or the printing of what the display wrote.
pub open spec fn coherent(step: StepView) -> bool {
    match step.phase {
        PhaseView::Picking => step.action == Some(ActionView::RunPicker),
        PhaseView::Fetching { id } => step.action == Some(ActionView::FetchCommit { id }),
        PhaseView::Explaining { commit } => step.action == Some(ActionView::AskProvider { commit }),
        PhaseView::Displaying => step.action matches Some(ActionView::Display { .. }),
        PhaseView::Finished { outcome } => step.action matches Some(action) ==> action is Print
            && outcome is Ok,
    }
}

/// Both commands begin with a coherent step.
pub proof fn lemma_commands_begin_coherent(id: Seq<char>)
    ensures
        coherent(begin_explain(id)),
        coherent(begin_list()),
{
}

/// A caller that reports what came of the action it was asked for gets a
/// coherent step again, in a later phase. So a run that is driven this way is
/// never at a loss for what to do, and it is over after four reports at the
/// most.
pub proof fn lemma_answer_moves_on(step: StepView, event: EventView)
    requires
        coherent(step),
        step.action matches Some(action) && answers(event, action),
    ensures
        coherent(next(step.phase, event)),
        rank(next(step.phase, event).phase) > rank(step.phase),
        rank(next(step.phase, event).phase) <= 4,
{
}

/// A run that is over stays over: whatever is reported then, the outcome
/// stands and nothing more is asked for.
pub proof fn lemma_finished_is_final(outcome: OutcomeView, event: EventView)
    ensures
        next(PhaseView::Finished { outcome }, event) == stay(PhaseView::Finished { outcome }),
{
}

/// A run only moves forward. A step either changes nothing and asks for
/// nothing, or it reaches a later phase; so no phase is entered twice, and
/// neither the picker nor the provider is asked a second time.
pub proof fn lemma_steps_advance(phase: PhaseView, event: EventView)
    ensures
        next(phase, event) == stay(phase) || rank(next(phase, event).phase) > rank(phase),
{
}

/// The indicator is started by the step that enters the phases in which it
/// shows, resolved by the step that leaves them, and left alone otherwise.
/// It never shows when the run is over.
pub proof fn lemma_indicator_follows_phase(phase: PhaseView, event: EventView)
    ensures
        ({
            let step = next(phase, event);
            let before = indicator_shows(phase);
            let after = indicator_shows(step.phase);
            &&& !before && after <==> step.progress == Some(Progress::Start)
            &&& before && !after <==> step.progress == Some(Progress::Success) || step.progress
                == Some(Progress::Failure)
            &&& before == after <==> step.progress is None
            &&& step.phase is Finished ==> !after
        }),
{
}

/// The picker comes first: while it runs, only its own end moves the run on,
/// and the step that follows asks for nothing but the chosen commit. The
/// picker is never run again.
pub proof fn lemma_picker_comes_first(event: EventView)
    ensures
        ({
            let step = next(PhaseView::Picking, event);
            &&& step.phase != PhaseView::Picking ==> event is PickerExited || event
                is PickerUnavailable
            &&& step.action is Some ==> step.action->0 is FetchCommit
        }),
        forall|phase: PhaseView| next(phase, event).action != Some(ActionView::RunPicker),
{
}

/// The provider is asked in one place only: when version control has found
/// the commit, and about that commit.
pub proof fn lemma_provider_asked_about_found_commit(phase: PhaseView, event: EventView)
    requires
        next(phase, event).action is Some,
        next(phase, event).action->0 is AskProvider,
    ensures
        phase is Fetching,
        event is CommitFound,
        next(phase, event).phase == (PhaseView::Explaining {
            commit: next(phase, event).action->0->commit,
        }),
        next(phase, event).action->0->commit.id == phase->id,
{
}

/// A step that ends the run in failure asks for nothing: no report is shown
/// and nothing is printed. Printing is asked for only by the step that ends
/// the run in success.
pub proof fn lemma_failure_asks_nothing(phase: PhaseView, event: EventView)
    ensures
        ({
            let step = next(phase, event);
            &&& step.phase matches PhaseView::Finished { outcome: Err(_) } ==> step.action is None
            &&& step.action matches Some(ActionView::Print { .. }) ==> step.phase
                == PhaseView::Finished { outcome: Ok(()) }
        }),
{
}

/// Explaining a commit that version control knows: the provider is asked
/// about the commit as it was found; what it says is laid out with the commit
/// as the report, the indicator turns to success and the report goes to the
/// display pipeline; what the pipeline writes is printed and the run ends in
/// success. The report shows the line `commit <id>`, the author's name, the
/// author's address and the commit message.
pub proof fn lemma_known_commit_is_reported(
    commit: CommitRecordView,
    text: Seq<char>,
    rendered: Seq<char>,
)
    requires
        commit.id.len() > 0,
    ensures
        ({
            let found = EventView::CommitFound {
                author_name: commit.author_name,
                author_email: commit.author_email,
                date: commit.date,
                message: commit.message,
                diff: commit.diff,
            };
            let first = begin_explain(commit.id);
            let second = next(first.phase, found);
            let third = next(second.phase, EventView::Explained { text });
            let last = next(
                third.phase,
                EventView::DisplayExited { status: Some(0i32), output: rendered },
            );
            &&& first.progress == Some(Progress::Start)
            &&& first.action == Some(ActionView::FetchCommit { id: commit.id })
            &&& second.action == Some(ActionView::AskProvider { commit })
            &&& third.progress == Some(Progress::Success)
            &&& third.action == Some(ActionView::Display { report: report_text(commit, text) })
            &&& last == StepView {
                phase: PhaseView::Finished { outcome: Ok(()) },
                progress: None,
                action: Some(ActionView::Print { text: rendered }),
            }
        }),
        occurs_in("commit "@ + commit.id, report_text(commit, text)),
        occurs_in(commit.author_name, report_text(commit, text)),
        occurs_in(commit.author_email, report_text(commit, text)),
        occurs_in(commit.message, report_text(commit, text)),
{
    lemma_report_shows_commit(commit, text);
}

/// Explaining an identifier that names no commit ends in `NotFound` for that
/// identifier. The indicator, where it was started, is resolved as a failure,
/// and no step asks for more than to look the commit up.
pub proof fn lemma_unknown_commit_is_not_found(id: Seq<char>)
    ensures
        ({
            let first = begin_explain(id);
            let last = next(first.phase, EventView::CommitMissing);
            let not_found: OutcomeView = Err(CommandErrorView::NotFound { id });
            &&& last.phase == PhaseView::Finished { outcome: not_found }
            &&& last.action is None
            &&& exit_status(not_found) != 0
            &&& id.len() == 0 ==> first == finish(not_found, None) && last == first
            &&& id.len() > 0 ==> first.action == Some(ActionView::FetchCommit { id })
                && first.progress == Some(Progress::Start) && last.progress == Some(
                Progress::Failure,
            )
        }),
{
}

/// A provider that fails ends the run with what it said, word for word. The
/// indicator is resolved as a failure, no report is composed, and the
/// provider is not asked again.
pub proof fn lemma_provider_failure_ends_run(commit: CommitRecordView, message: Seq<char>)
    ensures
        ({
            let failure: OutcomeView = Err(CommandErrorView::ProviderFailure { message });
            &&& next(PhaseView::Explaining { commit }, EventView::ProviderFailed { message })
                == finish(failure, Some(Progress::Failure))
            &&& message_text(failure->Err_0) == message
            &&& exit_status(failure) != 0
        }),
{
}

/// A picker that ends well hands over the first token of the first line it
/// wrote: that commit is explained from the start, exactly as if it had been
/// asked for by name. Where the picker wrote no token (the user chose
/// nothing), the run is over, in success, and nothing is explained.
pub proof fn lemma_choice_is_explained(output: Seq<char>)
    ensures
        ({
            let step = next(
                PhaseView::Picking,
                EventView::PickerExited { status: Some(0i32), output },
            );
            let chosen = identifier_in(output);
            &&& chosen.len() > 0 ==> step == begin_explain(chosen) && step.action == Some(
                ActionView::FetchCommit { id: chosen },
            )
            &&& chosen.len() == 0 ==> step == finish(Ok(()), None)
            &&& output.len() == 0 ==> chosen.len() == 0
            &&& step.action matches Some(ActionView::FetchCommit { id }) ==> id.len() > 0
        }),
{
    lemma_identifier_is_leading_token(output);
}

/// A picker that does not end well, whatever its status and whatever it
/// wrote, ends the run at once with that failure: nothing is explained, and
/// the process is to end with a status other than zero.
pub proof fn lemma_failed_picker_ends_run(status: Option<i32>, output: Seq<char>)
    requires
        status != Some(0i32),
    ensures
        ({
            let failure: OutcomeView = Err(
                CommandErrorView::SubprocessFailure { process: Subprocess::Picker, status },
            );
            &&& next(PhaseView::Picking, EventView::PickerExited { status, output }) == finish(
                failure,
                None,
            )
            &&& next(PhaseView::Picking, EventView::PickerUnavailable) == finish(
                Err(
                    CommandErrorView::SubprocessFailure {
                        process: Subprocess::Picker,
                        status: None,
                    },
                ),
                None,
            )
            &&& exit_status(failure) != 0
        }),
{
}

impl Phase {
    /// Whether the run is over.
    pub fn is_finished(&self) -> (over: bool)
        ensures
            over == (self@ is Finished),
    {
        match self {
            Phase::Finished { .. } => true,
            _ => false,
        }
    }
}

} // verus!

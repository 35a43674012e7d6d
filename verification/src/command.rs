//! The orchestrator: the two commands, and how each run of them goes on.

use crate::commit::CommitRecord;
use crate::error::{outcome_view, CommandError, Outcome, Subprocess};
use crate::report::render_report;
use crate::selection::chosen_identifier;
use crate::session::{
    begin_explain, begin_list, finish, next, succeeded, Action, Event, EventView, Phase, Progress,
    Step,
};
use vstd::prelude::*;
use vstd::string::*;

verus! {

/// A backend that explains commits in natural language.
///
/// The text that comes back is taken as it is: nothing is asked of its form
/// or its length. A backend that fails says why. Whether to try again is the
/// backend's own affair; the orchestrator asks once.
pub trait ExplanationProvider {
    fn explain(&self, commit: &CommitRecord) -> Result<String, String>;
}

/// What a provider's reply stands for in contracts.
pub open spec fn reply_view(reply: Result<String, String>) -> Result<Seq<char>, Seq<char>> {
    match reply {
        Ok(text) => Ok(text@),
        Err(message) => Err(message@),
    }
}

/// The event that reports the provider's `reply`.
pub open spec fn reply_event(reply: Result<Seq<char>, Seq<char>>) -> EventView {
    match reply {
        Ok(text) => EventView::Explained { text },
        Err(message) => EventView::ProviderFailed { message },
    }
}

/// Turns the provider's `reply` into the event that reports it.
pub fn report_reply(reply: Result<String, String>) -> (event: Event)
    ensures
        event@ == reply_event(reply_view(reply)),
{
    match reply {
        Ok(text) => Event::Explained { text },
        Err(message) => Event::ProviderFailed { message },
    }
}

/// The last step of a run that ends with `outcome`.
fn finished(outcome: Outcome, progress: Option<Progress>) -> (step: Step)
    ensures
        step@ == finish(outcome_view(outcome), progress),
{
    Step { phase: Phase::Finished { outcome }, progress, action: None }
}

/// Whether a subprocess that ended with `status` did its work.
fn did_succeed(status: Option<i32>) -> (well: bool)
    ensures
        well == succeeded(status),
{
    match status {
        Some(code) => code == 0,
        None => false,
    }
}

/// The orchestrator. It holds the provider for as long as it lives and never
/// changes it.
pub struct LumenCommand<P> {
    provider: P,
}

impl<P> LumenCommand<P> {
    /// The provider that this orchestrator was made with.
    pub closed spec fn held(&self) -> P {
        self.provider
    }

    /// Makes the orchestrator that asks `provider` for its explanations.
    pub fn new(provider: P) -> (command: Self)
        ensures
            command.held() == provider,
    {
        LumenCommand { provider }
    }

    /// The provider, to be asked when a step says so.
    pub fn provider(&self) -> (provider: &P)
        ensures
            *provider == self.held(),
    {
        &self.provider
    }

    /// Begins to explain the commit `sha`: the progress indicator is shown and
    /// version control is asked for the commit. An empty `sha` names no
    /// commit: the run is over at once, with `NotFound`, and nothing is shown.
    pub fn explain(&self, sha: String) -> (step: Step)
        ensures
            step@ == begin_explain(sha@),
    {
        if sha.as_str().is_empty() {
            finished(Err(CommandError::NotFound { id: sha }), None)
        } else {
            let wanted = sha.clone();
            Step {
                phase: Phase::Fetching { id: sha },
                progress: Some(Progress::Start),
                action: Some(Action::FetchCommit { id: wanted }),
            }
        }
    }

    /// Begins to browse the history: the picker is run. Nothing else is asked
    /// for before the picker has ended.
    pub fn list(&self) -> (step: Step)
        ensures
            step@ == begin_list(),
    {
        Step { phase: Phase::Picking, progress: None, action: Some(Action::RunPicker) }
    }

    /// Goes on with a run: the step that follows when `event` is reported in
    /// `phase`.
    pub fn resume(&self, phase: Phase, event: Event) -> (step: Step)
        ensures
            step@ == next(phase@, event@),
    {
        match (phase, event) {
            (Phase::Picking, Event::PickerExited { status, output }) => {
                if !did_succeed(status) {
                    finished(
                        Err(
                            CommandError::SubprocessFailure { process: Subprocess::Picker, status },
                        ),
                        None,
                    )
                } else {
                    match chosen_identifier(output.as_str()) {
                        Some(id) => self.explain(id),
                        None => finished(Ok(()), None),
                    }
                }
            },
            (Phase::Picking, Event::PickerUnavailable) => finished(
                Err(CommandError::SubprocessFailure { process: Subprocess::Picker, status: None }),
                None,
            ),
            (
                Phase::Fetching { id },
                Event::CommitFound { author_name, author_email, date, message, diff },
            ) => {
                if id.as_str().is_empty() {
                    finished(Err(CommandError::NotFound { id }), Some(Progress::Failure))
                } else {
                    let commit = CommitRecord::new(
                        id,
                        author_name,
                        author_email,
                        date,
                        message,
                        diff,
                    ).unwrap();
                    let asked = commit.clone();
                    Step {
                        phase: Phase::Explaining { commit },
                        progress: None,
                        action: Some(Action::AskProvider { commit: asked }),
                    }
                }
            },
            (Phase::Fetching { id }, Event::CommitMissing) => finished(
                Err(CommandError::NotFound { id }),
                Some(Progress::Failure),
            ),
            (Phase::Explaining { commit }, Event::Explained { text }) => {
                let report = render_report(&commit, text.as_str());
                Step {
                    phase: Phase::Displaying,
                    progress: Some(Progress::Success),
                    action: Some(Action::Display { report }),
                }
            },
            (Phase::Explaining { commit }, Event::ProviderFailed { message }) => finished(
                Err(CommandError::ProviderFailure { message }),
                Some(Progress::Failure),
            ),
            (Phase::Displaying, Event::DisplayExited { status, output }) => {
                if did_succeed(status) {
                    Step {
                        phase: Phase::Finished { outcome: Ok(()) },
                        progress: None,
                        action: Some(Action::Print { text: output }),
                    }
                } else {
                    finished(
                        Err(
                            CommandError::SubprocessFailure {
                                process: Subprocess::Display,
                                status,
                            },
                        ),
                        None,
                    )
                }
            },
            (Phase::Displaying, Event::DisplayUnavailable) => finished(
                Err(CommandError::SubprocessFailure { process: Subprocess::Display, status: None }),
                None,
            ),
            (phase, _) => Step { phase, progress: None, action: None },
        }
    }
}

impl<P: ExplanationProvider> LumenCommand<P> {
    /// Asks the provider, once, to explain `commit`, and reports its reply:
    /// the event is the one that [`report_reply`] gives for what the provider
    /// said. What a provider says is its own affair; either way the event is
    /// one that the explaining phase waits for.
    pub fn consult(&self, commit: &CommitRecord) -> (event: Event)
        ensures
            exists|reply: Result<String, String>|
                call_ensures(P::explain, (&self.held(), commit), reply) && event@ == reply_event(
                    reply_view(reply),
                ),
            event@ is Explained || event@ is ProviderFailed,
    {
        let reply = self.provider.explain(commit);
        report_reply(reply)
    }
}

} // verus!

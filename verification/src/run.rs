//! Whole runs: what holds whatever is reported, and in whatever order.
//!
//! A run is a first step and the steps that follow as events are reported
//! one after another. Nothing here is executed: these are the statements
//! about every such run that the step rules of [`crate::session`] add up to.

use crate::session::{
    begin_explain, begin_list, indicator_shows, next, rank, stay, ActionView, EventView, PhaseView,
    Progress,
};
use vstd::prelude::*;

verus! {

/// The phase that a run is in when `events` were reported one after another,
/// starting in `phase`.
pub open spec fn phase_after(phase: PhaseView, events: Seq<EventView>) -> PhaseView
    decreases events.len(),
{
    if events.len() == 0 {
        phase
    } else {
        phase_after(next(phase, events[0]).phase, events.drop_first())
    }
}

/// A progress signal as a sequence: of one signal, or of none.
pub open spec fn signal(progress: Option<Progress>) -> Seq<Progress> {
    match progress {
        Some(given) => seq![given],
        None => Seq::empty(),
    }
}

/// The progress signals that are given on the way, in their order.
pub open spec fn signals_after(phase: PhaseView, events: Seq<EventView>) -> Seq<Progress>
    decreases events.len(),
{
    if events.len() == 0 {
        Seq::empty()
    } else {
        signal(next(phase, events[0]).progress) + signals_after(
            next(phase, events[0]).phase,
            events.drop_first(),
        )
    }
}

/// How many times the provider is asked on the way.
pub open spec fn provider_calls(phase: PhaseView, events: Seq<EventView>) -> nat
    decreases events.len(),
{
    if events.len() == 0 {
        0
    } else {
        let step = next(phase, events[0]);
        let asked: nat = if step.action matches Some(ActionView::AskProvider { .. }) {
            1
        } else {
            0
        };
        asked + provider_calls(step.phase, events.drop_first())
    }
}

/// How many times something is printed on the way.
pub open spec fn prints(phase: PhaseView, events: Seq<EventView>) -> nat
    decreases events.len(),
{
    if events.len() == 0 {
        0
    } else {
        let step = next(phase, events[0]);
        let printed: nat = if step.action matches Some(ActionView::Print { .. }) {
            1
        } else {
            0
        };
        printed + prints(step.phase, events.drop_first())
    }
}

/// What the signals of a run must look like, given whether the indicator
/// shows at its end: none at all; or one start, with the indicator showing;
/// or one start and then one resolution, with the indicator gone.
pub open spec fn orderly(signals: Seq<Progress>, shows: bool) -> bool {
    ||| signals.len() == 0 && !shows
    ||| signals.len() == 1 && signals[0] == Progress::Start && shows
    ||| signals.len() == 2 && signals[0] == Progress::Start && signals[1] != Progress::Start
        && !shows
}

/// The signals that follow from `phase` on: while the indicator shows, at
/// most its one resolution; while the picker runs, an orderly sequence; later,
/// none.
proof fn lemma_signals_from(phase: PhaseView, events: Seq<EventView>)
    ensures
        ({
            let signals = signals_after(phase, events);
            let shows = indicator_shows(phase_after(phase, events));
            if indicator_shows(phase) {
                ||| signals.len() == 0 && shows
                ||| signals.len() == 1 && signals[0] != Progress::Start && !shows
            } else if phase is Picking {
                orderly(signals, shows)
            } else {
                signals.len() == 0 && !shows
            }
        }),
    decreases events.len(),
{
    if events.len() > 0 {
        let step = next(phase, events[0]);
        lemma_signals_from(step.phase, events.drop_first());
    }
}

/// All the signals of a run of `explain`: that of its first step, then those
/// that follow as `events` are reported.
pub open spec fn explain_signals(id: Seq<char>, events: Seq<EventView>) -> Seq<Progress> {
    signal(begin_explain(id).progress) + signals_after(begin_explain(id).phase, events)
}

/// All the signals of a run of `list`.
pub open spec fn list_signals(events: Seq<EventView>) -> Seq<Progress> {
    signal(begin_list().progress) + signals_after(begin_list().phase, events)
}

/// The indicator is started at most once in a run, and once started it is
/// resolved exactly once, as a success or as a failure. This holds of every
/// run of either command, whatever is reported. A run that is over has
/// resolved the indicator if it ever started it: its signals are none, or a
/// start and one resolution.
pub proof fn lemma_indicator_resolved_once(id: Seq<char>, events: Seq<EventView>)
    ensures
        orderly(
            explain_signals(id, events),
            indicator_shows(phase_after(begin_explain(id).phase, events)),
        ),
        orderly(list_signals(events), indicator_shows(phase_after(begin_list().phase, events))),
        phase_after(begin_explain(id).phase, events) is Finished ==> orderly(
            explain_signals(id, events),
            false,
        ),
        phase_after(begin_list().phase, events) is Finished ==> orderly(
            list_signals(events),
            false,
        ),
{
    lemma_signals_from(begin_explain(id).phase, events);
    lemma_signals_from(begin_list().phase, events);
    assert(list_signals(events) =~= signals_after(begin_list().phase, events));
}

/// The provider is asked at most once in a run, whatever is reported: there
/// is no second try. Once the provider has been asked, or the run is past
/// that point, it is not asked at all.
pub proof fn lemma_provider_asked_once(phase: PhaseView, events: Seq<EventView>)
    ensures
        provider_calls(phase, events) <= 1,
        rank(phase) >= 2 ==> provider_calls(phase, events) == 0,
    decreases events.len(),
{
    if events.len() > 0 {
        let step = next(phase, events[0]);
        lemma_provider_asked_once(step.phase, events.drop_first());
    }
}

/// A run that is over stays as it is, and nothing is printed any more.
proof fn lemma_over_is_over(phase: PhaseView, events: Seq<EventView>)
    requires
        phase is Finished,
    ensures
        phase_after(phase, events) == phase,
        prints(phase, events) == 0,
    decreases events.len(),
{
    if events.len() > 0 {
        assert(next(phase, events[0]) == stay(phase));
        lemma_over_is_over(phase, events.drop_first());
    }
}

/// Printing is the last thing that a run does, and it is done at most once:
/// whenever something was printed, the run is over and it ended in success.
/// So a run that ends in failure has printed nothing, no part of a report
/// either.
pub proof fn lemma_failed_run_prints_nothing(phase: PhaseView, events: Seq<EventView>)
    ensures
        prints(phase, events) <= 1,
        prints(phase, events) == 1 ==> phase_after(phase, events) == (PhaseView::Finished {
            outcome: Ok(()),
        }),
        phase_after(phase, events) matches PhaseView::Finished { outcome: Err(_) } ==> prints(
            phase,
            events,
        ) == 0,
    decreases events.len(),
{
    if events.len() > 0 {
        let step = next(phase, events[0]);
        if step.phase is Finished {
            lemma_over_is_over(step.phase, events.drop_first());
        } else {
            lemma_failed_run_prints_nothing(step.phase, events.drop_first());
        }
    }
}

} // verus!

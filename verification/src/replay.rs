//! Whole runs: what a sequence of events leads to, and what holds of every
//! run.

use crate::catalog::{catalog_view, standard_catalog, Question, QuestionView};
use crate::config::{AnswerView, ArchConfig, ArchConfigView, FIELD_COUNT, FLAG_FIELD};
use crate::session::{next_preserves_wf, InputEvent, Outcome, SessionState, SessionView};
use vstd::prelude::*;

verus! {

/// Where a run of events has led.
#[verifier::ext_equal]
pub struct Run {
    pub state: SessionView,
    pub config: ArchConfigView,
    /// `Continue` while the session is open; otherwise how it ended.
    pub outcome: Outcome,
    /// The answers committed so far, oldest first.
    pub answers: Seq<AnswerView>,
}

impl Run {
    /// A run that has not seen any event yet.
    pub open spec fn start(state: SessionView, config: ArchConfigView) -> Run {
        Run { state, config, outcome: Outcome::Continue, answers: Seq::empty() }
    }

    /// The run after one more event. A session that has ended takes no
    /// further events.
    pub open spec fn after(self, catalog: Seq<QuestionView>, event: InputEvent) -> Run {
        if self.outcome != Outcome::Continue {
            self
        } else {
            Run {
                state: self.state.next(catalog, event),
                config: self.state.next_config(catalog, self.config, event),
                outcome: self.state.outcome(catalog, event),
                answers: match (event, self.state.answer(catalog)) {
                    (InputEvent::Confirm, Some(answer)) => self.answers.push(answer),
                    _ => self.answers,
                },
            }
        }
    }
}

/// The run of `events`, in order, from the given state and record.
pub open spec fn run_from(
    catalog: Seq<QuestionView>,
    state: SessionView,
    config: ArchConfigView,
    events: Seq<InputEvent>,
) -> Run
    decreases events.len(),
{
    if events.len() == 0 {
        Run::start(state, config)
    } else {
        run_from(catalog, state, config, events.drop_last()).after(catalog, events.last())
    }
}

/// The run of `events` from the start of a session.
pub open spec fn run(catalog: Seq<QuestionView>, events: Seq<InputEvent>) -> Run {
    run_from(catalog, SessionView::initial(), ArchConfigView::empty(), events)
}

/// The record has a field of the right kind for every question: twelve
/// questions, the last of them, and only the last, a yes/no question.
pub open spec fn fits_record(catalog: Seq<QuestionView>) -> bool {
    &&& catalog.len() == FIELD_COUNT
    &&& forall|i: int|
        0 <= i < catalog.len() ==> (#[trigger] catalog[i].question_type is Boolean <==> i
            == FLAG_FIELD)
}

impl SessionState {
    /// Applies `events` in order until one of them ends the session, and
    /// says how the run stands: `Continue` if the session is still open
    /// after the last event.
    pub fn apply_all(
        &mut self,
        events: &Vec<InputEvent>,
        catalog: &Vec<Question>,
        config: &mut ArchConfig,
    ) -> (outcome: Outcome)
        ensures
            ({
                let end = run_from(catalog_view(catalog@), old(self)@, old(config)@, events@);
                &&& final(self)@ == end.state
                &&& final(config)@ == end.config
                &&& outcome == end.outcome
            }),
    {
        let ghost cat = catalog_view(catalog@);
        let ghost start_state = old(self)@;
        let ghost start_config = old(config)@;
        let mut i: usize = 0;
        while i < events.len()
            invariant
                i <= events.len(),
                cat == catalog_view(catalog@),
                start_state == old(self)@,
                start_config == old(config)@,
                run_from(cat, start_state, start_config, events@.take(i as int)).outcome
                    == Outcome::Continue,
                self@ == run_from(cat, start_state, start_config, events@.take(i as int)).state,
                config@ == run_from(cat, start_state, start_config, events@.take(i as int)).config,
            decreases events.len() - i,
        {
            assert(events@.take(i + 1).drop_last() =~= events@.take(i as int));
            let outcome = self.apply(events[i], catalog, config);
            i += 1;
            if outcome != Outcome::Continue {
                proof {
                    run_ignores_events_after_the_end(
                        cat,
                        start_state,
                        start_config,
                        events@.take(i as int),
                        events@.skip(i as int),
                    );
                    assert(events@.take(i as int) + events@.skip(i as int) =~= events@);
                }
                return outcome;
            }
        }
        assert(events@.take(events.len() as int) =~= events@);
        Outcome::Continue
    }
}

/// Once a session has ended, further events change nothing: the first
/// `Completed` or `Aborted` of a run is also its last.
pub proof fn run_ignores_events_after_the_end(
    catalog: Seq<QuestionView>,
    state: SessionView,
    config: ArchConfigView,
    events: Seq<InputEvent>,
    later: Seq<InputEvent>,
)
    requires
        run_from(catalog, state, config, events).outcome != Outcome::Continue,
    ensures
        run_from(catalog, state, config, events + later) == run_from(
            catalog,
            state,
            config,
            events,
        ),
    decreases later.len(),
{
    if later.len() == 0 {
        assert(events + later =~= events);
    } else {
        run_ignores_events_after_the_end(catalog, state, config, events, later.drop_last());
        assert((events + later).drop_last() =~= events + later.drop_last());
    }
}

/// A run never leaves the well-formed states: after any sequence of events
/// the active question exists or the session is complete, the selection
/// points at a visible option (or rests at the top while there is none),
/// and each buffer holds text only for a question of its kind.
pub proof fn run_stays_well_formed(
    catalog: Seq<QuestionView>,
    state: SessionView,
    config: ArchConfigView,
    events: Seq<InputEvent>,
)
    requires
        state.wf(catalog),
    ensures
        run_from(catalog, state, config, events).state.wf(catalog),
    decreases events.len(),
{
    if events.len() > 0 {
        run_stays_well_formed(catalog, state, config, events.drop_last());
        let before = run_from(catalog, state, config, events.drop_last());
        if before.outcome == Outcome::Continue {
            next_preserves_wf(before.state, catalog, events.last());
        }
    }
}

/// Moving the selection up and down, in any order and any number of times,
/// keeps it within the visible options and changes nothing else: not the
/// active question, not the buffers, not the theme, not the record.
pub proof fn moves_keep_selection_in_bounds(
    catalog: Seq<QuestionView>,
    state: SessionView,
    config: ArchConfigView,
    events: Seq<InputEvent>,
)
    requires
        state.selection_in_bounds(catalog),
        forall|i: int| 0 <= i < events.len() ==> events[i] is MoveUp || events[i] is MoveDown,
    ensures
        ({
            let end = run_from(catalog, state, config, events);
            &&& end.state.selection_in_bounds(catalog)
            &&& end.state.visible_options(catalog) == state.visible_options(catalog)
            &&& end.state == (SessionView { selected_option: end.state.selected_option, ..state })
            &&& end.config == config
            &&& end.outcome == Outcome::Continue
        }),
    decreases events.len(),
{
    if events.len() > 0 {
        moves_keep_selection_in_bounds(catalog, state, config, events.drop_last());
    }
}

/// A quit ends an open session as `Aborted`, with the state and the record
/// as they were, whatever came before and whatever comes after. `Completed`
/// is the only signal to save, so a session that is quit before its last
/// confirmation saves nothing.
pub proof fn quit_ends_run_without_saving(
    catalog: Seq<QuestionView>,
    state: SessionView,
    config: ArchConfigView,
    events: Seq<InputEvent>,
    later: Seq<InputEvent>,
)
    requires
        run_from(catalog, state, config, events).outcome == Outcome::Continue,
    ensures
        ({
            let before = run_from(catalog, state, config, events);
            let end = run_from(catalog, state, config, events.push(InputEvent::Quit) + later);
            &&& end.outcome == Outcome::Aborted
            &&& end.state == before.state
            &&& end.config == before.config
            &&& end.answers == before.answers
        }),
{
    let quit = events.push(InputEvent::Quit);
    assert(quit.drop_last() =~= events);
    run_ignores_events_after_the_end(catalog, state, config, quit, later);
}

/// What a run from the start of a session has committed so far is exactly
/// what the record holds: one answer per question passed, in the order the
/// questions were confirmed, each in the field of its question.
pub open spec fn record_matches_answers(end: Run) -> bool {
    &&& end.answers.len() == end.state.current_index
    &&& forall|i: int|
        0 <= i < end.answers.len() ==> #[trigger] end.config.field(i) == end.answers[i]
}

/// Throughout a run from the start of a session, over a catalog that fits
/// the record, the record holds the answers committed so far, each in the
/// field of its question. A run that ends as `Completed` has passed every
/// question: all twelve fields hold the values committed at the twelve
/// confirmations, in that order.
pub proof fn record_holds_committed_answers(catalog: Seq<QuestionView>, events: Seq<InputEvent>)
    requires
        fits_record(catalog),
    ensures
        record_matches_answers(run(catalog, events)),
        ({
            let end = run(catalog, events);
            &&& end.state.current_index <= FIELD_COUNT
            &&& end.outcome == Outcome::Completed <==> end.state.current_index == FIELD_COUNT
            &&& end.outcome == Outcome::Completed ==> end.answers.len() == FIELD_COUNT
        }),
    decreases events.len(),
{
    if events.len() > 0 {
        record_holds_committed_answers(catalog, events.drop_last());
        let before = run(catalog, events.drop_last());
        let end = run(catalog, events);
        assert(end == before.after(catalog, events.last()));
        if before.outcome == Outcome::Continue && events.last() == InputEvent::Confirm {
            match before.state.answer(catalog) {
                Some(answer) => {
                    let index = before.state.current_index as int;
                    assert(ArchConfigView::accepts(index, answer));
                    assert forall|i: int| 0 <= i < end.answers.len() implies
                        #[trigger] end.config.field(i) == end.answers[i] by {
                        if i < index {
                            assert(before.config.field(i) == before.answers[i]);
                        }
                    }
                },
                None => {},
            }
        }
    }
}

/// A field, once written, keeps its value for the rest of the session:
/// whatever events follow, the fields of the questions already confirmed
/// read as they did.
pub proof fn committed_fields_are_never_overwritten(
    catalog: Seq<QuestionView>,
    events: Seq<InputEvent>,
    later: Seq<InputEvent>,
    field: int,
)
    requires
        fits_record(catalog),
        0 <= field < run(catalog, events).state.current_index,
    ensures
        ({
            let now = run(catalog, events);
            let end = run(catalog, events + later);
            &&& end.config.field(field) == now.config.field(field)
            &&& end.state.current_index >= now.state.current_index
        }),
    decreases later.len(),
{
    if later.len() == 0 {
        assert(events + later =~= events);
    } else {
        let shorter = events + later.drop_last();
        assert((events + later).drop_last() =~= shorter);
        committed_fields_are_never_overwritten(catalog, events, later.drop_last(), field);
        record_holds_committed_answers(catalog, shorter);
        let before = run(catalog, shorter);
        assert(run(catalog, events + later) == before.after(catalog, later.last()));
        if before.outcome == Outcome::Continue && later.last() == InputEvent::Confirm {
            match before.state.answer(catalog) {
                Some(answer) => {
                    assert(ArchConfigView::accepts(before.state.current_index as int, answer));
                },
                None => {},
            }
        }
    }
}

/// The installer's own catalog fits the record.
pub proof fn standard_catalog_fits_record()
    ensures
        fits_record(standard_catalog()),
{
}

} // verus!

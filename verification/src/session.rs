//! The navigation state machine: which question is active, what the user
//! has typed or selected for it so far, and how each input event changes
//! that.

use crate::catalog::{
    catalog_view, yes_no, Question, QuestionType, QuestionTypeView, QuestionView,
};
use crate::config::{Answer, AnswerView, ArchConfig, ArchConfigView, FLAG_FIELD};
use crate::text::texts;
use crate::theme::Theme;
use vstd::prelude::*;

verus! {

/// What the front end hands to the state machine, one per key press.
#[derive(Clone, Copy, Debug, PartialEq, Eq, Structural)]
pub enum InputEvent {
    /// Commit the answer of the active question and move on.
    Confirm,
    /// Leave at once; nothing is saved.
    Quit,
    /// Switch to the next theme.
    ThemeCycle,
    MoveUp,
    MoveDown,
    /// A character typed by the user.
    Char(char),
    Backspace,
}

/// What the front end has to do after an event.
#[derive(Clone, Copy, Debug, PartialEq, Eq, Structural)]
pub enum Outcome {
    /// Draw again and wait for the next event.
    Continue,
    /// The last question was just confirmed: save the record and stop.
    Completed,
    /// The user quit: stop without saving anything.
    Aborted,
}

/// The mutable state of one session.
#[derive(Clone, Debug)]
pub struct SessionState {
    /// The position of the active question; the length of the catalog once
    /// every question is answered.
    pub current_index: usize,
    /// The position of the selection within the visible options.
    pub selected_option: usize,
    /// What has been typed for a free-text question.
    pub free_text_buffer: String,
    /// What has been typed to narrow a multiple-choice question.
    pub filter_buffer: String,
    pub theme: Theme,
}

/// A [`SessionState`] as plain data.
#[verifier::ext_equal]
pub struct SessionView {
    pub current_index: nat,
    pub selected_option: nat,
    pub free_text_buffer: Seq<char>,
    pub filter_buffer: Seq<char>,
    pub theme: Theme,
}

impl View for SessionState {
    type V = SessionView;

    open spec fn view(&self) -> SessionView {
        SessionView {
            current_index: self.current_index as nat,
            selected_option: self.selected_option as nat,
            free_text_buffer: self.free_text_buffer@,
            filter_buffer: self.filter_buffer@,
            theme: self.theme,
        }
    }
}

impl SessionView {
    /// The state a session starts in.
    pub open spec fn initial() -> SessionView {
        SessionView {
            current_index: 0,
            selected_option: 0,
            free_text_buffer: Seq::empty(),
            filter_buffer: Seq::empty(),
            theme: Theme::Default,
        }
    }

    /// A question is still waiting for its answer.
    pub open spec fn is_active(self, catalog: Seq<QuestionView>) -> bool {
        self.current_index < catalog.len()
    }

    /// The active question.
    pub open spec fn question(self, catalog: Seq<QuestionView>) -> QuestionView
        recommends
            self.is_active(catalog),
    {
        catalog[self.current_index as int]
    }

    /// The entries the selection currently ranges over; none once the
    /// session is complete.
    pub open spec fn visible_options(self, catalog: Seq<QuestionView>) -> Seq<Seq<char>> {
        if self.is_active(catalog) {
            self.question(catalog).question_type.visible_options(self.filter_buffer)
        } else {
            Seq::empty()
        }
    }

    /// The answer a confirmation would commit right now, if there is one:
    /// the free-text buffer as it stands; or the visible option under the
    /// selection, read as yes or no for a yes/no question. There is none
    /// when the selection points at no visible option, or when the session
    /// is complete.
    pub open spec fn answer(self, catalog: Seq<QuestionView>) -> Option<AnswerView> {
        if !self.is_active(catalog) {
            None
        } else {
            match self.question(catalog).question_type {
                QuestionTypeView::FreeText => Some(AnswerView::Text(self.free_text_buffer)),
                QuestionTypeView::Boolean => if self.selected_option < 2 {
                    Some(AnswerView::Flag(self.selected_option == 0))
                } else {
                    None
                },
                QuestionTypeView::MultipleChoice { .. } => {
                    let shown = self.visible_options(catalog);
                    if self.selected_option < shown.len() {
                        Some(AnswerView::Text(shown[self.selected_option as int]))
                    } else {
                        None
                    }
                },
            }
        }
    }

    /// The selection points at a visible option, or rests at the top while
    /// there is none.
    pub open spec fn selection_in_bounds(self, catalog: Seq<QuestionView>) -> bool {
        self.selected_option == 0 || self.selected_option < self.visible_options(catalog).len()
    }

    /// Each buffer holds text only while a question of its kind is active.
    pub open spec fn buffers_fit(self, catalog: Seq<QuestionView>) -> bool {
        &&& self.free_text_buffer.len() > 0 ==> self.is_active(catalog) && self.question(
            catalog,
        ).question_type is FreeText
        &&& self.filter_buffer.len() > 0 ==> self.is_active(catalog) && self.question(
            catalog,
        ).question_type is MultipleChoice
    }

    /// What holds of every state a session can reach.
    pub open spec fn wf(self, catalog: Seq<QuestionView>) -> bool {
        &&& self.current_index <= catalog.len()
        &&& self.selection_in_bounds(catalog)
        &&& self.buffers_fit(catalog)
    }

    /// The state after a committed answer: the next question, with both
    /// buffers empty and the selection back at the top.
    pub open spec fn advanced(self) -> SessionView {
        SessionView {
            current_index: self.current_index + 1,
            selected_option: 0,
            free_text_buffer: Seq::empty(),
            filter_buffer: Seq::empty(),
            theme: self.theme,
        }
    }

    /// The state after `event`.
    pub open spec fn next(self, catalog: Seq<QuestionView>, event: InputEvent) -> SessionView {
        match event {
            InputEvent::Confirm => if self.answer(catalog) is Some {
                self.advanced()
            } else {
                self
            },
            InputEvent::Quit => self,
            InputEvent::ThemeCycle => SessionView { theme: self.theme.next(), ..self },
            InputEvent::MoveUp => if self.selected_option > 0 && self.visible_options(catalog).len()
                > 0 {
                SessionView { selected_option: (self.selected_option - 1) as nat, ..self }
            } else {
                self
            },
            InputEvent::MoveDown => if self.selected_option + 1 < self.visible_options(
                catalog,
            ).len() {
                SessionView { selected_option: self.selected_option + 1, ..self }
            } else {
                self
            },
            InputEvent::Char(c) => if !self.is_active(catalog) {
                self
            } else {
                match self.question(catalog).question_type {
                    QuestionTypeView::FreeText => SessionView {
                        free_text_buffer: self.free_text_buffer.push(c),
                        ..self
                    },
                    QuestionTypeView::MultipleChoice { .. } => SessionView {
                        filter_buffer: self.filter_buffer.push(c),
                        selected_option: 0,
                        ..self
                    },
                    QuestionTypeView::Boolean => self,
                }
            },
            InputEvent::Backspace => if !self.is_active(catalog) {
                self
            } else {
                match self.question(catalog).question_type {
                    QuestionTypeView::FreeText => SessionView {
                        free_text_buffer: without_last(self.free_text_buffer),
                        ..self
                    },
                    QuestionTypeView::MultipleChoice { .. } => SessionView {
                        filter_buffer: without_last(self.filter_buffer),
                        selected_option: 0,
                        ..self
                    },
                    QuestionTypeView::Boolean => self,
                }
            },
        }
    }

    /// The record after `event`: a confirmation writes the answer into the
    /// field of the active question; nothing else touches the record.
    pub open spec fn next_config(
        self,
        catalog: Seq<QuestionView>,
        config: ArchConfigView,
        event: InputEvent,
    ) -> ArchConfigView {
        match (event, self.answer(catalog)) {
            (InputEvent::Confirm, Some(answer)) => config.with_answer(
                self.current_index as int,
                answer,
            ),
            _ => config,
        }
    }

    /// What the front end has to do after `event`.
    pub open spec fn outcome(self, catalog: Seq<QuestionView>, event: InputEvent) -> Outcome {
        match event {
            InputEvent::Quit => Outcome::Aborted,
            InputEvent::Confirm => if self.answer(catalog) is Some && self.current_index + 1
                == catalog.len() {
                Outcome::Completed
            } else {
                Outcome::Continue
            },
            _ => Outcome::Continue,
        }
    }
}

/// `text` without its last character; the empty text stays empty.
pub open spec fn without_last(text: Seq<char>) -> Seq<char> {
    if text.len() > 0 {
        text.drop_last()
    } else {
        text
    }
}

impl SessionState {
    /// The state a session starts in: the first question, nothing typed,
    /// the default theme.
    pub fn new() -> (state: SessionState)
        ensures
            state@ == SessionView::initial(),
    {
        SessionState {
            current_index: 0,
            selected_option: 0,
            free_text_buffer: String::new(),
            filter_buffer: String::new(),
            theme: Theme::Default,
        }
    }

    /// Whether a question is still waiting for its answer.
    pub fn is_active(&self, catalog: &Vec<Question>) -> (active: bool)
        ensures
            active == self@.is_active(catalog_view(catalog@)),
    {
        self.current_index < catalog.len()
    }

    /// The entries the selection currently ranges over.
    pub fn visible_options(&self, catalog: &Vec<Question>) -> (shown: Vec<String>)
        ensures
            texts(shown@) == self@.visible_options(catalog_view(catalog@)),
    {
        if self.current_index < catalog.len() {
            catalog[self.current_index].question_type.visible_options(self.filter_buffer.as_str())
        } else {
            let shown: Vec<String> = Vec::new();
            assert(texts(shown@) =~= Seq::<Seq<char>>::empty());
            shown
        }
    }

    /// The answer a confirmation would commit right now, if there is one.
    pub fn answer(&self, catalog: &Vec<Question>) -> (answer: Option<Answer>)
        ensures
            match answer {
                Some(a) => self@.answer(catalog_view(catalog@)) == Some(a@),
                None => self@.answer(catalog_view(catalog@)) is None,
            },
    {
        if self.current_index >= catalog.len() {
            return None;
        }
        match &catalog[self.current_index].question_type {
            QuestionType::FreeText => Some(Answer::Text(self.free_text_buffer.clone())),
            QuestionType::Boolean => {
                if self.selected_option < 2 {
                    Some(Answer::Flag(self.selected_option == 0))
                } else {
                    None
                }
            },
            QuestionType::MultipleChoice { .. } => {
                let shown = self.visible_options(catalog);
                if self.selected_option < shown.len() {
                    Some(Answer::Text(shown[self.selected_option].clone()))
                } else {
                    None
                }
            },
        }
    }

    /// Switches to the next theme. Nothing else changes.
    pub fn cycle_theme(&mut self)
        ensures
            final(self)@ == (SessionView { theme: old(self)@.theme.next(), ..old(self)@ }),
    {
        self.theme = self.theme.next();
    }

    /// Moves the selection one entry up, unless it is at the top already or
    /// there is nothing to select from.
    pub fn move_up(&mut self, catalog: &Vec<Question>)
        ensures
            final(self)@ == old(self)@.next(catalog_view(catalog@), InputEvent::MoveUp),
            final(self)@.selected_option <= old(self)@.selected_option,
            old(self)@.selection_in_bounds(catalog_view(catalog@))
                ==> final(self)@.selection_in_bounds(catalog_view(catalog@)),
    {
        if self.selected_option > 0 {
            let shown = self.visible_options(catalog);
            if shown.len() > 0 {
                self.selected_option = self.selected_option - 1;
            }
        }
    }

    /// Moves the selection one entry down, unless it is on the last visible
    /// entry or there is nothing to select from.
    pub fn move_down(&mut self, catalog: &Vec<Question>)
        ensures
            final(self)@ == old(self)@.next(catalog_view(catalog@), InputEvent::MoveDown),
            old(self)@.selection_in_bounds(catalog_view(catalog@))
                ==> final(self)@.selection_in_bounds(catalog_view(catalog@)),
    {
        let shown = self.visible_options(catalog);
        if shown.len() > 0 && self.selected_option < shown.len() - 1 {
            self.selected_option = self.selected_option + 1;
        }
    }

    /// Takes a typed character: appended to the text of a free-text
    /// question; appended to the filter of a multiple-choice question,
    /// which also puts the selection back at the top; ignored otherwise.
    pub fn type_char(&mut self, c: char, catalog: &Vec<Question>)
        ensures
            final(self)@ == old(self)@.next(catalog_view(catalog@), InputEvent::Char(c)),
    {
        if self.current_index < catalog.len() {
            match &catalog[self.current_index].question_type {
                QuestionType::FreeText => {
                    self.free_text_buffer.push(c);
                },
                QuestionType::MultipleChoice { .. } => {
                    self.filter_buffer.push(c);
                    self.selected_option = 0;
                },
                QuestionType::Boolean => {},
            }
        }
    }

    /// Takes back the last typed character of the active buffer. On a
    /// multiple-choice question the selection goes back to the top even if
    /// the filter was empty already.
    pub fn backspace(&mut self, catalog: &Vec<Question>)
        ensures
            final(self)@ == old(self)@.next(catalog_view(catalog@), InputEvent::Backspace),
    {
        if self.current_index < catalog.len() {
            match &catalog[self.current_index].question_type {
                QuestionType::FreeText => {
                    let _ = self.free_text_buffer.pop();
                },
                QuestionType::MultipleChoice { .. } => {
                    let _ = self.filter_buffer.pop();
                    self.selected_option = 0;
                },
                QuestionType::Boolean => {},
            }
        }
    }

    /// Commits the answer of the active question to `config` and moves to
    /// the next question, all in one step. Where there is no answer to
    /// commit (the filter hides every option, or the session is complete),
    /// nothing changes at all.
    pub fn confirm(
        &mut self,
        catalog: &Vec<Question>,
        config: &mut ArchConfig,
    ) -> (outcome: Outcome)
        ensures
            final(self)@ == old(self)@.next(catalog_view(catalog@), InputEvent::Confirm),
            final(config)@ == old(self)@.next_config(
                catalog_view(catalog@),
                old(config)@,
                InputEvent::Confirm,
            ),
            outcome == old(self)@.outcome(catalog_view(catalog@), InputEvent::Confirm),
            outcome != Outcome::Aborted,
            match old(self)@.answer(catalog_view(catalog@)) {
                Some(answer) => {
                    &&& final(self)@.current_index == old(self)@.current_index + 1
                    &&& final(self)@.selected_option == 0
                    &&& final(self)@.free_text_buffer.len() == 0
                    &&& final(self)@.filter_buffer.len() == 0
                    &&& final(self)@.theme == old(self)@.theme
                    &&& final(config)@ == old(config)@.with_answer(
                        old(self)@.current_index as int,
                        answer,
                    )
                    &&& outcome == Outcome::Completed <==> final(self)@.current_index
                        == catalog@.len()
                },
                None => {
                    &&& final(self)@ == old(self)@
                    &&& final(config)@ == old(config)@
                    &&& outcome == Outcome::Continue
                },
            },
    {
        match self.answer(catalog) {
            Some(answer) => {
                assert(self.current_index < catalog.len()) by {
                    assert(self@.is_active(catalog_view(catalog@)));
                    assert(catalog_view(catalog@).len() == catalog@.len());
                }
                let _ = config.record(self.current_index, answer);
                self.current_index = self.current_index + 1;
                self.selected_option = 0;
                self.free_text_buffer = String::new();
                self.filter_buffer = String::new();
                if self.current_index == catalog.len() {
                    Outcome::Completed
                } else {
                    Outcome::Continue
                }
            },
            None => Outcome::Continue,
        }
    }

    /// Applies one input event and says what the front end has to do next.
    /// Events that do not apply to the active question are ignored.
    pub fn apply(
        &mut self,
        event: InputEvent,
        catalog: &Vec<Question>,
        config: &mut ArchConfig,
    ) -> (outcome: Outcome)
        ensures
            final(self)@ == old(self)@.next(catalog_view(catalog@), event),
            final(config)@ == old(self)@.next_config(
                catalog_view(catalog@),
                old(config)@,
                event,
            ),
            outcome == old(self)@.outcome(catalog_view(catalog@), event),
            old(self)@.wf(catalog_view(catalog@)) ==> final(self)@.wf(catalog_view(catalog@)),
            final(self)@.current_index >= old(self)@.current_index,
            event == InputEvent::Quit ==> {
                &&& final(self)@ == old(self)@
                &&& final(config)@ == old(config)@
            },
            outcome == Outcome::Aborted <==> event == InputEvent::Quit,
            outcome == Outcome::Completed ==> {
                &&& event == InputEvent::Confirm
                &&& final(self)@.current_index == catalog@.len()
            },
    {
        proof {
            if old(self)@.wf(catalog_view(catalog@)) {
                next_preserves_wf(old(self)@, catalog_view(catalog@), event);
            }
        }
        match event {
            InputEvent::Confirm => self.confirm(catalog, config),
            InputEvent::Quit => Outcome::Aborted,
            InputEvent::ThemeCycle => {
                self.cycle_theme();
                Outcome::Continue
            },
            InputEvent::MoveUp => {
                self.move_up(catalog);
                Outcome::Continue
            },
            InputEvent::MoveDown => {
                self.move_down(catalog);
                Outcome::Continue
            },
            InputEvent::Char(c) => {
                self.type_char(c, catalog);
                Outcome::Continue
            },
            InputEvent::Backspace => {
                self.backspace(catalog);
                Outcome::Continue
            },
        }
    }
}

/// Every event leads from a well-formed state to a well-formed state. In
/// particular the selection never leaves the visible options, whatever
/// sequence of moves, keystrokes and confirmations is applied.
pub proof fn next_preserves_wf(state: SessionView, catalog: Seq<QuestionView>, event: InputEvent)
    requires
        state.wf(catalog),
    ensures
        state.next(catalog, event).wf(catalog),
{
}

/// A session starts well-formed, whatever the catalog.
pub proof fn initial_state_is_well_formed(catalog: Seq<QuestionView>)
    ensures
        SessionView::initial().wf(catalog),
{
}

/// Confirming a free-text question commits the buffer exactly as it
/// stands, empty or not, to the field of that question.
pub proof fn confirmed_free_text_is_stored_exactly(
    state: SessionView,
    catalog: Seq<QuestionView>,
    config: ArchConfigView,
)
    requires
        state.is_active(catalog),
        state.question(catalog).question_type is FreeText,
    ensures
        state.answer(catalog) == Some(AnswerView::Text(state.free_text_buffer)),
        state.next_config(catalog, config, InputEvent::Confirm) == config.with_answer(
            state.current_index as int,
            AnswerView::Text(state.free_text_buffer),
        ),
        state.current_index < FLAG_FIELD ==> state.next_config(
            catalog,
            config,
            InputEvent::Confirm,
        ).field(state.current_index as int) == AnswerView::Text(state.free_text_buffer),
{
}

/// Confirming a yes/no question commits `true` with the selection on the
/// first entry and `false` with the selection on the second.
pub proof fn confirmed_flag_is_true_on_first_entry(
    state: SessionView,
    catalog: Seq<QuestionView>,
    config: ArchConfigView,
)
    requires
        state.is_active(catalog),
        state.question(catalog).question_type is Boolean,
        state.selected_option < 2,
    ensures
        state.answer(catalog) == Some(AnswerView::Flag(state.selected_option == 0)),
        state.current_index == FLAG_FIELD ==> state.next_config(
            catalog,
            config,
            InputEvent::Confirm,
        ).enable_ssh == (state.selected_option == 0),
{
}

/// A confirmation that commits an answer leaves both buffers empty and the
/// selection at the top, whatever they held before, and moves on by exactly
/// one question.
pub proof fn confirm_clears_input(state: SessionView, catalog: Seq<QuestionView>)
    requires
        state.answer(catalog) is Some,
    ensures
        ({
            let after = state.next(catalog, InputEvent::Confirm);
            &&& after.free_text_buffer == Seq::<char>::empty()
            &&& after.filter_buffer == Seq::<char>::empty()
            &&& after.selected_option == 0
            &&& after.current_index == state.current_index + 1
            &&& after.theme == state.theme
        }),
{
}

/// While the filter hides every option there is nothing to commit: a
/// confirmation changes neither the state nor the record, and the session
/// goes on.
pub proof fn confirm_without_visible_option_changes_nothing(
    state: SessionView,
    catalog: Seq<QuestionView>,
    config: ArchConfigView,
)
    requires
        state.is_active(catalog),
        !(state.question(catalog).question_type is FreeText),
        state.visible_options(catalog).len() == 0,
    ensures
        state.answer(catalog) is None,
        state.next(catalog, InputEvent::Confirm) == state,
        state.next_config(catalog, config, InputEvent::Confirm) == config,
        state.outcome(catalog, InputEvent::Confirm) == Outcome::Continue,
{
    assert(yes_no().len() == 2);
}

/// Three theme cycles in a row lead back to the very same state, and each
/// single one changes the theme and nothing else.
pub proof fn three_theme_cycles_restore_state(
    state: SessionView,
    catalog: Seq<QuestionView>,
    config: ArchConfigView,
)
    ensures
        state.next(catalog, InputEvent::ThemeCycle).next(catalog, InputEvent::ThemeCycle).next(
            catalog,
            InputEvent::ThemeCycle,
        ) == state,
        state.next(catalog, InputEvent::ThemeCycle) == (SessionView {
            theme: state.theme.next(),
            ..state
        }),
        state.next(catalog, InputEvent::ThemeCycle).theme != state.theme,
        state.next_config(catalog, config, InputEvent::ThemeCycle) == config,
        state.outcome(catalog, InputEvent::ThemeCycle) == Outcome::Continue,
{
}

/// The session never steps back, and it completes at most once: once every
/// question is answered, no event reports `Completed` again, moves the
/// session, or writes to the record.
pub proof fn completed_session_stays_completed(
    state: SessionView,
    catalog: Seq<QuestionView>,
    config: ArchConfigView,
    event: InputEvent,
)
    ensures
        state.next(catalog, event).current_index >= state.current_index,
        !state.is_active(catalog) ==> {
            &&& state.outcome(catalog, event) != Outcome::Completed
            &&& state.next(catalog, event).current_index == state.current_index
            &&& state.next_config(catalog, config, event) == config
        },
{
}

} // verus!

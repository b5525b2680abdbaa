//! The render projection: what the screen shows for a given state, as plain
//! data for a front end to draw. Nothing here changes the session.

use crate::catalog::{catalog_view, Question, QuestionType, QuestionTypeView, QuestionView};
use crate::session::{SessionState, SessionView};
use crate::text::texts;
use crate::theme::{Color, Palette};
use vstd::prelude::*;
use vstd::string::StringExecFns;

verus! {

/// How a piece of text is drawn.
#[derive(Clone, Copy, Debug, PartialEq, Eq, Structural)]
pub struct TextStyle {
    pub fg: Color,
    pub bold: bool,
}

/// A piece of text with its style.
#[derive(Clone, Debug)]
pub struct Span {
    pub text: String,
    pub style: TextStyle,
}

/// What fills the panel of the active question.
#[derive(Clone, Debug)]
pub enum Body {
    /// One line: the prompt, [`PROMPT_SEPARATOR`], and what has been typed
    /// so far.
    Input { prompt: Span, value: Span },
    /// The prompt above a list to select from. `selected` is the position
    /// of the entry under the selection, if the list has one there; that
    /// row is drawn with `marker` in front and `highlight` laid over the
    /// entry's own style.
    Choices {
        prompt: Span,
        items: Vec<Span>,
        selected: Option<usize>,
        highlight: TextStyle,
        marker: String,
    },
}

/// The panel of the active question.
#[derive(Clone, Debug)]
pub struct Panel {
    /// The title on the panel's border.
    pub title: String,
    pub body: Body,
}

/// The line below the panel.
#[derive(Clone, Debug)]
pub struct Footer {
    /// The key bindings, spelled out.
    pub legend: String,
    /// The filter typed so far, on questions that can be filtered.
    pub filter: Option<Span>,
}

/// One frame. The outer container is always there; the panel and the
/// footer are there while a question is active.
#[derive(Clone, Debug)]
pub struct Screen {
    /// The title on the outer border.
    pub title: String,
    pub background: Color,
    pub panel: Option<Panel>,
    pub footer: Option<Footer>,
}

/// A [`Span`] as plain data.
#[verifier::ext_equal]
pub struct SpanView {
    pub text: Seq<char>,
    pub style: TextStyle,
}

/// A [`Body`] as plain data.
#[verifier::ext_equal]
pub enum BodyView {
    Input { prompt: SpanView, value: SpanView },
    Choices {
        prompt: SpanView,
        items: Seq<SpanView>,
        selected: Option<nat>,
        highlight: TextStyle,
        marker: Seq<char>,
    },
}

/// A [`Panel`] as plain data.
#[verifier::ext_equal]
pub struct PanelView {
    pub title: Seq<char>,
    pub body: BodyView,
}

/// A [`Footer`] as plain data.
#[verifier::ext_equal]
pub struct FooterView {
    pub legend: Seq<char>,
    pub filter: Option<SpanView>,
}

/// A [`Screen`] as plain data.
#[verifier::ext_equal]
pub struct ScreenView {
    pub title: Seq<char>,
    pub background: Color,
    pub panel: Option<PanelView>,
    pub footer: Option<FooterView>,
}

impl View for Span {
    type V = SpanView;

    open spec fn view(&self) -> SpanView {
        SpanView { text: self.text@, style: self.style }
    }
}

/// A list of spans as plain data.
pub open spec fn spans_view(spans: Seq<Span>) -> Seq<SpanView> {
    spans.map_values(|span: Span| span@)
}

impl View for Body {
    type V = BodyView;

    open spec fn view(&self) -> BodyView {
        match self {
            Body::Input { prompt, value } => BodyView::Input { prompt: prompt@, value: value@ },
            Body::Choices { prompt, items, selected, highlight, marker } => BodyView::Choices {
                prompt: prompt@,
                items: spans_view(items@),
                selected: match selected {
                    Some(at) => Some(*at as nat),
                    None => None,
                },
                highlight: *highlight,
                marker: marker@,
            },
        }
    }
}

impl View for Panel {
    type V = PanelView;

    open spec fn view(&self) -> PanelView {
        PanelView { title: self.title@, body: self.body@ }
    }
}

impl View for Footer {
    type V = FooterView;

    open spec fn view(&self) -> FooterView {
        FooterView {
            legend: self.legend@,
            filter: match self.filter {
                Some(span) => Some(span@),
                None => None,
            },
        }
    }
}

impl View for Screen {
    type V = ScreenView;

    open spec fn view(&self) -> ScreenView {
        ScreenView {
            title: self.title@,
            background: self.background,
            panel: match self.panel {
                Some(panel) => Some(panel@),
                None => None,
            },
            footer: match self.footer {
                Some(footer) => Some(footer@),
                None => None,
            },
        }
    }
}

/// The title on the outer border.
pub const TITLE: &'static str = "Arch Linux Installer";

/// What stands between the prompt and the text typed so far.
pub const PROMPT_SEPARATOR: &'static str = ": ";

/// What marks the row under the selection.
pub const SELECTION_MARKER: &'static str = "> ";

/// The key bindings as the footer spells them out.
pub const LEGEND: &'static str =
    "Press Enter to confirm, Arrow keys to navigate, '~' to quit, '*' to change theme, Type to filter:";

/// The style of a list entry: the entry under the selection is bold and, in
/// a multiple-choice list, drawn in the highlight color; the others are
/// drawn plain, in the accent color for options and muted for yes and no.
pub open spec fn item_style(
    question_type: QuestionTypeView,
    palette: Palette,
    selected: bool,
) -> TextStyle {
    if question_type is Boolean {
        if selected {
            TextStyle { fg: palette.accent, bold: true }
        } else {
            TextStyle { fg: palette.text, bold: false }
        }
    } else {
        if selected {
            TextStyle { fg: palette.highlight, bold: true }
        } else {
            TextStyle { fg: palette.accent, bold: false }
        }
    }
}

/// The list entries for the visible options `shown`, with the entry at
/// `selected` styled as selected and every other entry as not.
pub open spec fn list_items(
    question_type: QuestionTypeView,
    palette: Palette,
    shown: Seq<Seq<char>>,
    selected: nat,
) -> Seq<SpanView> {
    Seq::new(
        shown.len(),
        |i: int|
            SpanView { text: shown[i], style: item_style(question_type, palette, i == selected) },
    )
}

/// What fills the panel for `question` in the given state.
pub open spec fn body_of(question: QuestionView, state: SessionView) -> BodyView {
    let palette = state.theme.palette();
    match question.question_type {
        QuestionTypeView::FreeText => BodyView::Input {
            prompt: SpanView {
                text: question.prompt,
                style: TextStyle { fg: palette.highlight, bold: false },
            },
            value: SpanView {
                text: state.free_text_buffer,
                style: TextStyle { fg: palette.accent, bold: false },
            },
        },
        _ => {
            let shown = question.question_type.visible_options(state.filter_buffer);
            BodyView::Choices {
                prompt: SpanView {
                    text: question.prompt,
                    style: TextStyle { fg: palette.accent, bold: false },
                },
                items: list_items(question.question_type, palette, shown, state.selected_option),
                selected: if state.selected_option < shown.len() {
                    Some(state.selected_option)
                } else {
                    None
                },
                highlight: TextStyle { fg: palette.highlight, bold: true },
                marker: SELECTION_MARKER@,
            }
        },
    }
}

/// The footer for `question` in the given state: the legend, and on a
/// multiple-choice question the filter typed so far.
pub open spec fn footer_of(question: QuestionView, state: SessionView) -> FooterView {
    FooterView {
        legend: LEGEND@,
        filter: if question.question_type is MultipleChoice {
            Some(
                SpanView {
                    text: state.filter_buffer,
                    style: TextStyle { fg: state.theme.palette().highlight, bold: false },
                },
            )
        } else {
            None
        },
    }
}

/// The frame for the given state: the titled container in the theme's
/// background and, while a question is active, its panel and the footer.
pub open spec fn screen_of(catalog: Seq<QuestionView>, state: SessionView) -> ScreenView {
    ScreenView {
        title: TITLE@,
        background: state.theme.palette().background,
        panel: if state.is_active(catalog) {
            Some(
                PanelView {
                    title: state.question(catalog).prompt,
                    body: body_of(state.question(catalog), state),
                },
            )
        } else {
            None
        },
        footer: if state.is_active(catalog) {
            Some(footer_of(state.question(catalog), state))
        } else {
            None
        },
    }
}

/// Builds the list entries for the visible options `shown`.
fn build_items(
    question_type: &QuestionType,
    palette: Palette,
    shown: &Vec<String>,
    selected: usize,
) -> (items: Vec<Span>)
    ensures
        spans_view(items@) == list_items(question_type@, palette, texts(shown@), selected as nat),
{
    let boolean = match question_type {
        QuestionType::Boolean => true,
        _ => false,
    };
    let mut items: Vec<Span> = Vec::new();
    let mut i: usize = 0;
    while i < shown.len()
        invariant
            i <= shown.len(),
            boolean == (question_type@ is Boolean),
            spans_view(items@).len() == i,
            forall|k: int|
                0 <= k < i ==> #[trigger] spans_view(items@)[k] == list_items(
                    question_type@,
                    palette,
                    texts(shown@),
                    selected as nat,
                )[k],
        decreases shown.len() - i,
    {
        let style = if boolean {
            if i == selected {
                TextStyle { fg: palette.accent, bold: true }
            } else {
                TextStyle { fg: palette.text, bold: false }
            }
        } else {
            if i == selected {
                TextStyle { fg: palette.highlight, bold: true }
            } else {
                TextStyle { fg: palette.accent, bold: false }
            }
        };
        let ghost before = spans_view(items@);
        let span = Span { text: shown[i].clone(), style };
        items.push(span);
        assert(spans_view(items@) =~= before.push(span@));
        i += 1;
    }
    assert(spans_view(items@) =~= list_items(
        question_type@,
        palette,
        texts(shown@),
        selected as nat,
    ));
    items
}

/// Projects the state onto the frame to draw. The state is only read: the
/// same state gives the same frame however often it is projected.
pub fn project(state: &SessionState, catalog: &Vec<Question>) -> (screen: Screen)
    ensures
        screen@ == screen_of(catalog_view(catalog@), state@),
{
    let palette = state.theme.palette();
    let title = String::from_str(TITLE);
    if state.current_index >= catalog.len() {
        return Screen { title, background: palette.background, panel: None, footer: None };
    }
    let question = &catalog[state.current_index];
    let ghost q = question@;
    assert(q == state@.question(catalog_view(catalog@)));
    let body = match &question.question_type {
        QuestionType::FreeText => Body::Input {
            prompt: Span {
                text: question.prompt.clone(),
                style: TextStyle { fg: palette.highlight, bold: false },
            },
            value: Span {
                text: state.free_text_buffer.clone(),
                style: TextStyle { fg: palette.accent, bold: false },
            },
        },
        _ => {
            let shown = question.question_type.visible_options(state.filter_buffer.as_str());
            let items =
                build_items(&question.question_type, palette, &shown, state.selected_option);
            let selected = if state.selected_option < shown.len() {
                Some(state.selected_option)
            } else {
                None
            };
            Body::Choices {
                prompt: Span {
                    text: question.prompt.clone(),
                    style: TextStyle { fg: palette.accent, bold: false },
                },
                items,
                selected,
                highlight: TextStyle { fg: palette.highlight, bold: true },
                marker: String::from_str(SELECTION_MARKER),
            }
        },
    };
    assert(body@ == body_of(q, state@));
    let filter = match &question.question_type {
        QuestionType::MultipleChoice { .. } => Some(
            Span {
                text: state.filter_buffer.clone(),
                style: TextStyle { fg: palette.highlight, bold: false },
            },
        ),
        _ => None,
    };
    let footer = Footer {
        legend: String::from_str(LEGEND),
        filter,
    };
    assert(footer@ == footer_of(q, state@));
    let panel = Panel { title: question.prompt.clone(), body };
    Screen { title, background: palette.background, panel: Some(panel), footer: Some(footer) }
}

/// In a list, the entry under the selection is the one bold entry: every
/// entry is bold exactly if the selection is on it, and `selected` names
/// that entry whenever the selection is within the list.
pub proof fn selected_item_alone_is_bold(catalog: Seq<QuestionView>, state: SessionView, i: int)
    requires
        state.is_active(catalog),
        !(state.question(catalog).question_type is FreeText),
        0 <= i < state.visible_options(catalog).len(),
    ensures
        ({
            let body = screen_of(catalog, state).panel->0.body;
            &&& body is Choices
            &&& body->items.len() == state.visible_options(catalog).len()
            &&& body->items[i].text == state.visible_options(catalog)[i]
            &&& body->items[i].style.bold <==> i == state.selected_option
            &&& state.selection_in_bounds(catalog) ==> body->selected == Some(state.selected_option)
        }),
{
}

} // verus!

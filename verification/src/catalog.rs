//! The question catalog: what is asked, in which order, and how each
//! question takes its answer.

use crate::text::{filter_options, shown_under, texts};
use vstd::prelude::*;
use vstd::string::StringExecFns;

verus! {

/// How a question takes its answer.
#[derive(Clone, Debug)]
pub enum QuestionType {
    /// One of a fixed list of options, narrowed by typing a filter.
    MultipleChoice { options: Vec<String> },
    /// Whatever the user types.
    FreeText,
    /// Yes or no.
    Boolean,
}

/// One entry of the catalog.
#[derive(Clone, Debug)]
pub struct Question {
    pub prompt: String,
    pub question_type: QuestionType,
}

/// A [`QuestionType`] as plain data.
#[verifier::ext_equal]
pub enum QuestionTypeView {
    MultipleChoice { options: Seq<Seq<char>> },
    FreeText,
    Boolean,
}

/// A [`Question`] as plain data.
#[verifier::ext_equal]
pub struct QuestionView {
    pub prompt: Seq<char>,
    pub question_type: QuestionTypeView,
}

impl View for QuestionType {
    type V = QuestionTypeView;

    open spec fn view(&self) -> QuestionTypeView {
        match self {
            QuestionType::MultipleChoice { options } => QuestionTypeView::MultipleChoice {
                options: texts(options@),
            },
            QuestionType::FreeText => QuestionTypeView::FreeText,
            QuestionType::Boolean => QuestionTypeView::Boolean,
        }
    }
}

impl View for Question {
    type V = QuestionView;

    open spec fn view(&self) -> QuestionView {
        QuestionView { prompt: self.prompt@, question_type: self.question_type@ }
    }
}

/// The contents of a list of string slices, each taken as its characters.
pub open spec fn slice_texts(strings: Seq<&str>) -> Seq<Seq<char>> {
    strings.map_values(|s: &str| s@)
}

/// A list of questions as plain data.
pub open spec fn catalog_view(questions: Seq<Question>) -> Seq<QuestionView> {
    questions.map_values(|q: Question| q@)
}

/// The first entry of a yes/no question.
pub const YES: &'static str = "Yes";

/// The second entry of a yes/no question.
pub const NO: &'static str = "No";

/// The two entries of a yes/no question, in the order they are listed.
pub open spec fn yes_no() -> Seq<Seq<char>> {
    seq![YES@, NO@]
}

impl QuestionTypeView {
    /// The entries the user can currently select from: the options that
    /// match the filter, in catalog order; Yes and No; or nothing at all
    /// for a free-text question.
    pub open spec fn visible_options(self, filter: Seq<char>) -> Seq<Seq<char>> {
        match self {
            QuestionTypeView::MultipleChoice { options } => options.filter(shown_under(filter)),
            QuestionTypeView::FreeText => Seq::empty(),
            QuestionTypeView::Boolean => yes_no(),
        }
    }
}

impl QuestionType {
    /// The entries the user can currently select from under `filter`.
    pub fn visible_options(&self, filter: &str) -> (shown: Vec<String>)
        ensures
            texts(shown@) == self@.visible_options(filter@),
    {
        match self {
            QuestionType::MultipleChoice { options } => filter_options(options, filter),
            QuestionType::FreeText => {
                let shown: Vec<String> = Vec::new();
                assert(texts(shown@) =~= Seq::<Seq<char>>::empty());
                shown
            },
            QuestionType::Boolean => {
                let mut shown: Vec<String> = Vec::new();
                shown.push(String::from_str(YES));
                shown.push(String::from_str(NO));
                assert(texts(shown@) =~= yes_no());
                shown
            },
        }
    }
}

impl Question {
    /// A free-text question.
    pub fn free_text(prompt: &str) -> (question: Question)
        ensures
            question@ == free_text_view(prompt@),
    {
        Question { prompt: String::from_str(prompt), question_type: QuestionType::FreeText }
    }

    /// A yes/no question.
    pub fn boolean(prompt: &str) -> (question: Question)
        ensures
            question@ == boolean_view(prompt@),
    {
        Question { prompt: String::from_str(prompt), question_type: QuestionType::Boolean }
    }

    /// A multiple-choice question over `options`, kept in the given order.
    pub fn multiple_choice(prompt: &str, options: Vec<&str>) -> (question: Question)
        ensures
            question@ == choice_view(prompt@, slice_texts(options@)),
    {
        let mut owned: Vec<String> = Vec::new();
        let mut i: usize = 0;
        while i < options.len()
            invariant
                i <= options.len(),
                texts(owned@) == slice_texts(options@).take(i as int),
            decreases options.len() - i,
        {
            let ghost before = texts(owned@);
            owned.push(String::from_str(options[i]));
            assert(texts(owned@) =~= before.push(options@[i as int]@));
            assert(slice_texts(options@).take(i + 1) =~= before.push(
                options@[i as int]@,
            ));
            i += 1;
        }
        assert(slice_texts(options@).take(options.len() as int)
            =~= slice_texts(options@));
        Question {
            prompt: String::from_str(prompt),
            question_type: QuestionType::MultipleChoice { options: owned },
        }
    }
}

/// A free-text question asking `prompt`.
pub open spec fn free_text_view(prompt: Seq<char>) -> QuestionView {
    QuestionView { prompt, question_type: QuestionTypeView::FreeText }
}

/// A yes/no question asking `prompt`.
pub open spec fn boolean_view(prompt: Seq<char>) -> QuestionView {
    QuestionView { prompt, question_type: QuestionTypeView::Boolean }
}

/// A multiple-choice question asking `prompt` over `options`.
pub open spec fn choice_view(prompt: Seq<char>, options: Seq<Seq<char>>) -> QuestionView {
    QuestionView { prompt, question_type: QuestionTypeView::MultipleChoice { options } }
}

/// The installer's questions, in the order they are asked.
pub open spec fn standard_catalog() -> Seq<QuestionView> {
    seq![
        free_text_view("Hostname"@),
        free_text_view("Username"@),
        free_text_view("Password"@),
        choice_view(
            "Timezone"@,
            seq!["UTC"@, "America/New_York"@, "Europe/London"@, "Asia/Tokyo"@, "Australia/Sydney"@],
        ),
        choice_view(
            "Locale"@,
            seq!["en_US.UTF-8"@, "de_DE.UTF-8"@, "fr_FR.UTF-8"@, "ja_JP.UTF-8"@, "zh_CN.UTF-8"@],
        ),
        choice_view("Keyboard Layout"@, seq!["us"@, "de"@, "fr"@, "es"@, "jp"@]),
        choice_view("Format Type"@, seq!["btrfs"@, "ext4"@, "xfs"@]),
        choice_view("Package Manager"@, seq!["pacman"@, "yay"@, "paru"@]),
        choice_view("Bootloader"@, seq!["grub"@, "systemd-boot"@]),
        choice_view("Desktop Environment"@, seq!["gnome"@, "kde"@, "xfce"@, "dwm"@, "wayland"@]),
        choice_view("Reflector Country"@, seq!["US"@, "DE"@, "FR"@, "CA"@, "JP"@]),
        boolean_view("Enable SSH"@),
    ]
}

/// Builds the installer's catalog. The password is an ordinary free-text
/// question: what is typed is shown and stored in the clear.
pub fn catalog() -> (questions: Vec<Question>)
    ensures
        catalog_view(questions@) == standard_catalog(),
{
    let mut questions: Vec<Question> = Vec::new();
    questions.push(Question::free_text("Hostname"));
    questions.push(Question::free_text("Username"));
    questions.push(Question::free_text("Password"));
    questions.push(
        Question::multiple_choice(
            "Timezone",
            vec!["UTC", "America/New_York", "Europe/London", "Asia/Tokyo", "Australia/Sydney"],
        ),
    );
    questions.push(
        Question::multiple_choice(
            "Locale",
            vec!["en_US.UTF-8", "de_DE.UTF-8", "fr_FR.UTF-8", "ja_JP.UTF-8", "zh_CN.UTF-8"],
        ),
    );
    questions.push(
        Question::multiple_choice("Keyboard Layout", vec!["us", "de", "fr", "es", "jp"]),
    );
    questions.push(Question::multiple_choice("Format Type", vec!["btrfs", "ext4", "xfs"]));
    questions.push(Question::multiple_choice("Package Manager", vec!["pacman", "yay", "paru"]));
    questions.push(Question::multiple_choice("Bootloader", vec!["grub", "systemd-boot"]));
    questions.push(
        Question::multiple_choice(
            "Desktop Environment",
            vec!["gnome", "kde", "xfce", "dwm", "wayland"],
        ),
    );
    questions.push(
        Question::multiple_choice("Reflector Country", vec!["US", "DE", "FR", "CA", "JP"]),
    );
    questions.push(Question::boolean("Enable SSH"));
    assert(catalog_view(questions@) =~~= standard_catalog());
    questions
}

} // verus!

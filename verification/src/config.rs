//! The record of answers: one named field per question of the catalog.

use vstd::prelude::*;

verus! {

/// The number of fields of an [`ArchConfig`], one per question.
pub const FIELD_COUNT: usize = 12;

/// The name of the file a completed session is saved to.
pub const OUTPUT_FILE: &'static str = "arch_config.toml";

/// The position of the one yes/no field, `enable_ssh`.
pub const FLAG_FIELD: usize = 11;

/// A committed answer: text for free-text and multiple-choice questions, a
/// flag for yes/no questions.
#[derive(Clone, Debug)]
pub enum Answer {
    Text(String),
    Flag(bool),
}

/// An [`Answer`] as plain data.
#[verifier::ext_equal]
pub enum AnswerView {
    Text(Seq<char>),
    Flag(bool),
}

impl View for Answer {
    type V = AnswerView;

    open spec fn view(&self) -> AnswerView {
        match self {
            Answer::Text(text) => AnswerView::Text(text@),
            Answer::Flag(flag) => AnswerView::Flag(*flag),
        }
    }
}

/// The configuration the wizard collects. Every field starts out empty (or
/// `false`) and is written once, when its question is confirmed.
#[derive(Clone, Debug)]
pub struct ArchConfig {
    pub hostname: String,
    pub username: String,
    pub password: String,
    pub timezone: String,
    pub locale: String,
    pub keyboard_layout: String,
    pub format_type: String,
    pub package_manager: String,
    pub bootloader: String,
    pub desktop_environment: String,
    pub reflector_country: String,
    pub enable_ssh: bool,
}

/// An [`ArchConfig`] as plain data.
#[verifier::ext_equal]
pub struct ArchConfigView {
    pub hostname: Seq<char>,
    pub username: Seq<char>,
    pub password: Seq<char>,
    pub timezone: Seq<char>,
    pub locale: Seq<char>,
    pub keyboard_layout: Seq<char>,
    pub format_type: Seq<char>,
    pub package_manager: Seq<char>,
    pub bootloader: Seq<char>,
    pub desktop_environment: Seq<char>,
    pub reflector_country: Seq<char>,
    pub enable_ssh: bool,
}

impl View for ArchConfig {
    type V = ArchConfigView;

    open spec fn view(&self) -> ArchConfigView {
        ArchConfigView {
            hostname: self.hostname@,
            username: self.username@,
            password: self.password@,
            timezone: self.timezone@,
            locale: self.locale@,
            keyboard_layout: self.keyboard_layout@,
            format_type: self.format_type@,
            package_manager: self.package_manager@,
            bootloader: self.bootloader@,
            desktop_environment: self.desktop_environment@,
            reflector_country: self.reflector_country@,
            enable_ssh: self.enable_ssh,
        }
    }
}

impl ArchConfigView {
    /// The record before any question is answered.
    pub open spec fn empty() -> ArchConfigView {
        ArchConfigView {
            hostname: Seq::empty(),
            username: Seq::empty(),
            password: Seq::empty(),
            timezone: Seq::empty(),
            locale: Seq::empty(),
            keyboard_layout: Seq::empty(),
            format_type: Seq::empty(),
            package_manager: Seq::empty(),
            bootloader: Seq::empty(),
            desktop_environment: Seq::empty(),
            reflector_country: Seq::empty(),
            enable_ssh: false,
        }
    }

    /// The field that belongs to the question at `index`. Positions past
    /// the last field read as the last field.
    pub open spec fn field(self, index: int) -> AnswerView {
        if index == 0 {
            AnswerView::Text(self.hostname)
        } else if index == 1 {
            AnswerView::Text(self.username)
        } else if index == 2 {
            AnswerView::Text(self.password)
        } else if index == 3 {
            AnswerView::Text(self.timezone)
        } else if index == 4 {
            AnswerView::Text(self.locale)
        } else if index == 5 {
            AnswerView::Text(self.keyboard_layout)
        } else if index == 6 {
            AnswerView::Text(self.format_type)
        } else if index == 7 {
            AnswerView::Text(self.package_manager)
        } else if index == 8 {
            AnswerView::Text(self.bootloader)
        } else if index == 9 {
            AnswerView::Text(self.desktop_environment)
        } else if index == 10 {
            AnswerView::Text(self.reflector_country)
        } else {
            AnswerView::Flag(self.enable_ssh)
        }
    }

    /// Whether the field at `index` exists and holds answers of this kind:
    /// text in the first eleven fields, a flag in the last.
    pub open spec fn accepts(index: int, answer: AnswerView) -> bool {
        match answer {
            AnswerView::Text(_) => 0 <= index < FLAG_FIELD,
            AnswerView::Flag(_) => index == FLAG_FIELD,
        }
    }

    /// The record with `answer` written to the field at `index`. Where the
    /// field does not accept the answer, the record is unchanged.
    pub open spec fn with_answer(self, index: int, answer: AnswerView) -> ArchConfigView {
        match answer {
            AnswerView::Text(text) => {
                if index == 0 {
                    ArchConfigView { hostname: text, ..self }
                } else if index == 1 {
                    ArchConfigView { username: text, ..self }
                } else if index == 2 {
                    ArchConfigView { password: text, ..self }
                } else if index == 3 {
                    ArchConfigView { timezone: text, ..self }
                } else if index == 4 {
                    ArchConfigView { locale: text, ..self }
                } else if index == 5 {
                    ArchConfigView { keyboard_layout: text, ..self }
                } else if index == 6 {
                    ArchConfigView { format_type: text, ..self }
                } else if index == 7 {
                    ArchConfigView { package_manager: text, ..self }
                } else if index == 8 {
                    ArchConfigView { bootloader: text, ..self }
                } else if index == 9 {
                    ArchConfigView { desktop_environment: text, ..self }
                } else if index == 10 {
                    ArchConfigView { reflector_country: text, ..self }
                } else {
                    self
                }
            },
            AnswerView::Flag(flag) => {
                if index == FLAG_FIELD {
                    ArchConfigView { enable_ssh: flag, ..self }
                } else {
                    self
                }
            },
        }
    }
}

impl ArchConfig {
    /// The record before any question is answered.
    pub fn new() -> (config: ArchConfig)
        ensures
            config@ == ArchConfigView::empty(),
    {
        ArchConfig {
            hostname: String::new(),
            username: String::new(),
            password: String::new(),
            timezone: String::new(),
            locale: String::new(),
            keyboard_layout: String::new(),
            format_type: String::new(),
            package_manager: String::new(),
            bootloader: String::new(),
            desktop_environment: String::new(),
            reflector_country: String::new(),
            enable_ssh: false,
        }
    }

    /// Writes `answer` to the field of the question at `index` and says
    /// whether that field took it. No other field changes, and a field that
    /// does not accept the answer stays as it was.
    pub fn record(&mut self, index: usize, answer: Answer) -> (written: bool)
        ensures
            final(self)@ == old(self)@.with_answer(index as int, answer@),
            written == ArchConfigView::accepts(index as int, answer@),
    {
        match answer {
            Answer::Text(text) => {
                if index == 0 {
                    self.hostname = text;
                } else if index == 1 {
                    self.username = text;
                } else if index == 2 {
                    self.password = text;
                } else if index == 3 {
                    self.timezone = text;
                } else if index == 4 {
                    self.locale = text;
                } else if index == 5 {
                    self.keyboard_layout = text;
                } else if index == 6 {
                    self.format_type = text;
                } else if index == 7 {
                    self.package_manager = text;
                } else if index == 8 {
                    self.bootloader = text;
                } else if index == 9 {
                    self.desktop_environment = text;
                } else if index == 10 {
                    self.reflector_country = text;
                }
                index < FLAG_FIELD
            },
            Answer::Flag(flag) => {
                if index == FLAG_FIELD {
                    self.enable_ssh = flag;
                }
                index == FLAG_FIELD
            },
        }
    }

    /// A copy of the field that belongs to the question at `index`, or
    /// `None` past the last field.
    pub fn field(&self, index: usize) -> (value: Option<Answer>)
        ensures
            index < FIELD_COUNT ==> value is Some && value->0@ == self@.field(index as int),
            index >= FIELD_COUNT ==> value is None,
    {
        if index == 0 {
            Some(Answer::Text(self.hostname.clone()))
        } else if index == 1 {
            Some(Answer::Text(self.username.clone()))
        } else if index == 2 {
            Some(Answer::Text(self.password.clone()))
        } else if index == 3 {
            Some(Answer::Text(self.timezone.clone()))
        } else if index == 4 {
            Some(Answer::Text(self.locale.clone()))
        } else if index == 5 {
            Some(Answer::Text(self.keyboard_layout.clone()))
        } else if index == 6 {
            Some(Answer::Text(self.format_type.clone()))
        } else if index == 7 {
            Some(Answer::Text(self.package_manager.clone()))
        } else if index == 8 {
            Some(Answer::Text(self.bootloader.clone()))
        } else if index == 9 {
            Some(Answer::Text(self.desktop_environment.clone()))
        } else if index == 10 {
            Some(Answer::Text(self.reflector_country.clone()))
        } else if index == FLAG_FIELD {
            Some(Answer::Flag(self.enable_ssh))
        } else {
            None
        }
    }
}

/// Writing an accepted answer changes the field it was written to and no
/// other: the written field reads back as the answer, every other field
/// reads as before.
pub proof fn write_touches_one_field(
    config: ArchConfigView,
    index: int,
    answer: AnswerView,
    other: int,
)
    requires
        ArchConfigView::accepts(index, answer),
        0 <= other < FIELD_COUNT,
    ensures
        config.with_answer(index, answer).field(index) == answer,
        other != index ==> config.with_answer(index, answer).field(other) == config.field(other),
{
}

/// An answer that its field does not accept leaves the record as it was.
pub proof fn rejected_write_changes_nothing(config: ArchConfigView, index: int, answer: AnswerView)
    requires
        !ArchConfigView::accepts(index, answer),
    ensures
        config.with_answer(index, answer) == config,
{
}

} // verus!

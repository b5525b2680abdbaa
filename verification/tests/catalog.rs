use arch_wizard::catalog::{catalog, Question, QuestionType};

fn options_of(question: &Question) -> Vec<String> {
    match &question.question_type {
        QuestionType::MultipleChoice { options } => options.clone(),
        _ => panic!("{} is not a multiple-choice question", question.prompt),
    }
}

#[test]
fn catalog_has_twelve_questions_in_order() {
    let questions = catalog();
    let prompts: Vec<&str> = questions.iter().map(|q| q.prompt.as_str()).collect();
    assert_eq!(
        prompts,
        vec![
            "Hostname",
            "Username",
            "Password",
            "Timezone",
            "Locale",
            "Keyboard Layout",
            "Format Type",
            "Package Manager",
            "Bootloader",
            "Desktop Environment",
            "Reflector Country",
            "Enable SSH",
        ]
    );
}

#[test]
fn catalog_question_kinds() {
    let questions = catalog();
    for question in &questions[0..3] {
        assert!(matches!(question.question_type, QuestionType::FreeText));
    }
    for question in &questions[3..11] {
        assert!(matches!(question.question_type, QuestionType::MultipleChoice { .. }));
    }
    assert!(matches!(questions[11].question_type, QuestionType::Boolean));
}

#[test]
fn catalog_options() {
    let questions = catalog();
    assert_eq!(
        options_of(&questions[3]),
        vec!["UTC", "America/New_York", "Europe/London", "Asia/Tokyo", "Australia/Sydney"]
    );
    assert_eq!(
        options_of(&questions[4]),
        vec!["en_US.UTF-8", "de_DE.UTF-8", "fr_FR.UTF-8", "ja_JP.UTF-8", "zh_CN.UTF-8"]
    );
    assert_eq!(options_of(&questions[5]), vec!["us", "de", "fr", "es", "jp"]);
    assert_eq!(options_of(&questions[6]), vec!["btrfs", "ext4", "xfs"]);
    assert_eq!(options_of(&questions[7]), vec!["pacman", "yay", "paru"]);
    assert_eq!(options_of(&questions[8]), vec!["grub", "systemd-boot"]);
    assert_eq!(options_of(&questions[9]), vec!["gnome", "kde", "xfce", "dwm", "wayland"]);
    assert_eq!(options_of(&questions[10]), vec!["US", "DE", "FR", "CA", "JP"]);
}

#[test]
fn visible_options_by_kind() {
    assert!(QuestionType::FreeText.visible_options("").is_empty());
    assert!(QuestionType::FreeText.visible_options("x").is_empty());
    assert_eq!(QuestionType::Boolean.visible_options(""), vec!["Yes", "No"]);
    // Yes and No are not filtered.
    assert_eq!(QuestionType::Boolean.visible_options("zzz"), vec!["Yes", "No"]);
    let choice = QuestionType::MultipleChoice { options: vec!["grub".to_string(), "systemd-boot".to_string()] };
    assert_eq!(choice.visible_options(""), vec!["grub", "systemd-boot"]);
    assert_eq!(choice.visible_options("gr"), vec!["grub"]);
    assert_eq!(choice.visible_options("B"), vec!["grub", "systemd-boot"]);
    assert_eq!(choice.visible_options("lilo"), Vec::<String>::new());
}

#[test]
fn question_constructors() {
    let q = Question::free_text("Hostname");
    assert_eq!(q.prompt, "Hostname");
    assert!(matches!(q.question_type, QuestionType::FreeText));
    let q = Question::boolean("Enable SSH");
    assert_eq!(q.prompt, "Enable SSH");
    assert!(matches!(q.question_type, QuestionType::Boolean));
    let q = Question::multiple_choice("Format Type", vec!["btrfs", "ext4", "xfs"]);
    assert_eq!(q.prompt, "Format Type");
    assert_eq!(options_of(&q), vec!["btrfs", "ext4", "xfs"]);
    let q = Question::multiple_choice("Nothing", Vec::new());
    assert!(options_of(&q).is_empty());
}

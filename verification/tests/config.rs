use arch_wizard::config::{Answer, ArchConfig, FIELD_COUNT, FLAG_FIELD};

fn text_of(config: &ArchConfig, index: usize) -> String {
    match config.field(index) {
        Some(Answer::Text(text)) => text,
        other => panic!("field {} holds {:?}", index, other),
    }
}

#[test]
fn new_config_is_empty() {
    let config = ArchConfig::new();
    for index in 0..FLAG_FIELD {
        assert_eq!(text_of(&config, index), "");
    }
    assert!(matches!(config.field(FLAG_FIELD), Some(Answer::Flag(false))));
    assert!(!config.enable_ssh);
}

#[test]
fn record_writes_the_field_of_the_question() {
    let mut config = ArchConfig::new();
    for index in 0..FLAG_FIELD {
        assert!(config.record(index, Answer::Text(format!("value {}", index))));
    }
    assert!(config.record(FLAG_FIELD, Answer::Flag(true)));
    assert_eq!(config.hostname, "value 0");
    assert_eq!(config.username, "value 1");
    assert_eq!(config.password, "value 2");
    assert_eq!(config.timezone, "value 3");
    assert_eq!(config.locale, "value 4");
    assert_eq!(config.keyboard_layout, "value 5");
    assert_eq!(config.format_type, "value 6");
    assert_eq!(config.package_manager, "value 7");
    assert_eq!(config.bootloader, "value 8");
    assert_eq!(config.desktop_environment, "value 9");
    assert_eq!(config.reflector_country, "value 10");
    assert!(config.enable_ssh);
}

#[test]
fn record_touches_no_other_field() {
    let mut config = ArchConfig::new();
    assert!(config.record(8, Answer::Text("grub".to_string())));
    for index in 0..FLAG_FIELD {
        assert_eq!(text_of(&config, index), if index == 8 { "grub" } else { "" });
    }
    assert!(!config.enable_ssh);
}

#[test]
fn record_rejects_answers_of_the_wrong_kind() {
    let mut config = ArchConfig::new();
    assert!(!config.record(0, Answer::Flag(true)));
    assert!(!config.record(FLAG_FIELD, Answer::Text("true".to_string())));
    assert!(!config.record(FIELD_COUNT, Answer::Text("x".to_string())));
    assert!(!config.record(FIELD_COUNT, Answer::Flag(true)));
    assert!(!config.record(usize::MAX, Answer::Flag(true)));
    for index in 0..FLAG_FIELD {
        assert_eq!(text_of(&config, index), "");
    }
    assert!(!config.enable_ssh);
}

#[test]
fn field_reads_back_by_position() {
    let mut config = ArchConfig::new();
    config.locale = "ja_JP.UTF-8".to_string();
    config.enable_ssh = true;
    assert_eq!(text_of(&config, 4), "ja_JP.UTF-8");
    assert!(matches!(config.field(11), Some(Answer::Flag(true))));
    assert!(config.field(12).is_none());
    assert!(config.field(usize::MAX).is_none());
}

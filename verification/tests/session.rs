use arch_wizard::catalog::{catalog, Question};
use arch_wizard::config::ArchConfig;
use arch_wizard::session::{InputEvent, Outcome, SessionState};
use arch_wizard::theme::Theme;

fn type_text(state: &mut SessionState, text: &str, questions: &Vec<Question>, config: &mut ArchConfig) {
    for c in text.chars() {
        assert_eq!(state.apply(InputEvent::Char(c), questions, config), Outcome::Continue);
    }
}

/// Confirms questions until the one at `index` is active, leaving every
/// earlier answer at its default.
fn skip_to(index: usize, state: &mut SessionState, questions: &Vec<Question>, config: &mut ArchConfig) {
    while state.current_index < index {
        assert_eq!(state.apply(InputEvent::Confirm, questions, config), Outcome::Continue);
    }
}

#[test]
fn new_session_starts_at_first_question() {
    let state = SessionState::new();
    assert_eq!(state.current_index, 0);
    assert_eq!(state.selected_option, 0);
    assert_eq!(state.free_text_buffer, "");
    assert_eq!(state.filter_buffer, "");
    assert_eq!(state.theme, Theme::Default);
    assert!(state.is_active(&catalog()));
}

#[test]
fn confirming_free_text_stores_buffer_exactly() {
    let questions = catalog();
    let mut state = SessionState::new();
    let mut config = ArchConfig::new();
    type_text(&mut state, "archbox", &questions, &mut config);
    assert_eq!(state.free_text_buffer, "archbox");
    assert_eq!(state.apply(InputEvent::Confirm, &questions, &mut config), Outcome::Continue);
    assert_eq!(config.hostname, "archbox");
    assert_eq!(state.current_index, 1);
}

#[test]
fn confirming_empty_free_text_stores_empty_string() {
    let questions = catalog();
    let mut state = SessionState::new();
    let mut config = ArchConfig::new();
    assert_eq!(state.apply(InputEvent::Confirm, &questions, &mut config), Outcome::Continue);
    assert_eq!(config.hostname, "");
    assert_eq!(state.current_index, 1);
}

#[test]
fn free_text_keeps_case_and_spaces() {
    let questions = catalog();
    let mut state = SessionState::new();
    let mut config = ArchConfig::new();
    skip_to(1, &mut state, &questions, &mut config);
    type_text(&mut state, "Ada L", &questions, &mut config);
    state.apply(InputEvent::Confirm, &questions, &mut config);
    assert_eq!(config.username, "Ada L");
    assert_eq!(config.hostname, "");
}

#[test]
fn boolean_first_entry_is_true() {
    let questions = catalog();
    let mut state = SessionState::new();
    let mut config = ArchConfig::new();
    skip_to(11, &mut state, &questions, &mut config);
    assert_eq!(state.selected_option, 0);
    assert_eq!(state.apply(InputEvent::Confirm, &questions, &mut config), Outcome::Completed);
    assert!(config.enable_ssh);
}

#[test]
fn boolean_second_entry_is_false() {
    let questions = catalog();
    let mut state = SessionState::new();
    let mut config = ArchConfig::new();
    config.enable_ssh = true;
    skip_to(11, &mut state, &questions, &mut config);
    state.apply(InputEvent::MoveDown, &questions, &mut config);
    assert_eq!(state.selected_option, 1);
    assert_eq!(state.apply(InputEvent::Confirm, &questions, &mut config), Outcome::Completed);
    assert!(!config.enable_ssh);
}

#[test]
fn boolean_ignores_typing() {
    let questions = catalog();
    let mut state = SessionState::new();
    let mut config = ArchConfig::new();
    skip_to(11, &mut state, &questions, &mut config);
    type_text(&mut state, "no", &questions, &mut config);
    state.apply(InputEvent::Backspace, &questions, &mut config);
    assert_eq!(state.free_text_buffer, "");
    assert_eq!(state.filter_buffer, "");
    assert_eq!(state.visible_options(&questions), vec!["Yes".to_string(), "No".to_string()]);
}

#[test]
fn filter_gr_on_bootloader_shows_only_grub() {
    let questions = catalog();
    let mut state = SessionState::new();
    let mut config = ArchConfig::new();
    skip_to(8, &mut state, &questions, &mut config);
    assert_eq!(
        state.visible_options(&questions),
        vec!["grub".to_string(), "systemd-boot".to_string()]
    );
    type_text(&mut state, "gr", &questions, &mut config);
    assert_eq!(state.filter_buffer, "gr");
    assert_eq!(state.visible_options(&questions), vec!["grub".to_string()]);
    assert_eq!(state.apply(InputEvent::Confirm, &questions, &mut config), Outcome::Continue);
    assert_eq!(config.bootloader, "grub");
    assert_eq!(state.current_index, 9);
}

#[test]
fn filter_selects_within_visible_options() {
    let questions = catalog();
    let mut state = SessionState::new();
    let mut config = ArchConfig::new();
    skip_to(3, &mut state, &questions, &mut config);
    // "o" keeps America/New_York, Europe/London and Asia/Tokyo.
    type_text(&mut state, "o", &questions, &mut config);
    assert_eq!(
        state.visible_options(&questions),
        vec!["America/New_York".to_string(), "Europe/London".to_string(), "Asia/Tokyo".to_string()]
    );
    state.apply(InputEvent::MoveDown, &questions, &mut config);
    state.apply(InputEvent::MoveDown, &questions, &mut config);
    assert_eq!(state.selected_option, 2);
    state.apply(InputEvent::Confirm, &questions, &mut config);
    assert_eq!(config.timezone, "Asia/Tokyo");
}

#[test]
fn filter_ignores_case_both_ways() {
    let questions = catalog();
    let mut state = SessionState::new();
    let mut config = ArchConfig::new();
    skip_to(3, &mut state, &questions, &mut config);
    type_text(&mut state, "TOK", &questions, &mut config);
    assert_eq!(state.visible_options(&questions), vec!["Asia/Tokyo".to_string()]);
    state.apply(InputEvent::Confirm, &questions, &mut config);
    assert_eq!(config.timezone, "Asia/Tokyo");
    // Locale: lower-case filter against upper-case option text.
    type_text(&mut state, "utf", &questions, &mut config);
    assert_eq!(state.visible_options(&questions).len(), 5);
    type_text(&mut state, "x", &questions, &mut config);
    assert_eq!(state.visible_options(&questions).len(), 0);
}

#[test]
fn typing_filter_resets_selection() {
    let questions = catalog();
    let mut state = SessionState::new();
    let mut config = ArchConfig::new();
    skip_to(3, &mut state, &questions, &mut config);
    state.apply(InputEvent::MoveDown, &questions, &mut config);
    state.apply(InputEvent::MoveDown, &questions, &mut config);
    assert_eq!(state.selected_option, 2);
    state.apply(InputEvent::Char('a'), &questions, &mut config);
    assert_eq!(state.selected_option, 0);
    assert_eq!(state.filter_buffer, "a");
    state.apply(InputEvent::MoveDown, &questions, &mut config);
    assert_eq!(state.selected_option, 1);
    state.apply(InputEvent::Backspace, &questions, &mut config);
    assert_eq!(state.selected_option, 0);
    assert_eq!(state.filter_buffer, "");
}

#[test]
fn backspace_removes_last_character() {
    let questions = catalog();
    let mut state = SessionState::new();
    let mut config = ArchConfig::new();
    type_text(&mut state, "héllo", &questions, &mut config);
    state.apply(InputEvent::Backspace, &questions, &mut config);
    assert_eq!(state.free_text_buffer, "héll");
    state.apply(InputEvent::Backspace, &questions, &mut config);
    state.apply(InputEvent::Backspace, &questions, &mut config);
    state.apply(InputEvent::Backspace, &questions, &mut config);
    assert_eq!(state.free_text_buffer, "h");
}

#[test]
fn backspace_on_empty_buffer_is_noop() {
    let questions = catalog();
    let mut state = SessionState::new();
    let mut config = ArchConfig::new();
    assert_eq!(state.apply(InputEvent::Backspace, &questions, &mut config), Outcome::Continue);
    assert_eq!(state.free_text_buffer, "");
    assert_eq!(state.current_index, 0);
    skip_to(3, &mut state, &questions, &mut config);
    state.apply(InputEvent::MoveDown, &questions, &mut config);
    state.apply(InputEvent::Backspace, &questions, &mut config);
    assert_eq!(state.filter_buffer, "");
    assert_eq!(state.selected_option, 0);
}

#[test]
fn moves_stay_within_visible_options() {
    let questions = catalog();
    let mut state = SessionState::new();
    let mut config = ArchConfig::new();
    skip_to(3, &mut state, &questions, &mut config);
    for step in 1..=10usize {
        state.apply(InputEvent::MoveDown, &questions, &mut config);
        assert_eq!(state.selected_option, step.min(4));
    }
    for step in 1..=10usize {
        state.apply(InputEvent::MoveUp, &questions, &mut config);
        assert_eq!(state.selected_option, 4usize.saturating_sub(step));
    }
    assert_eq!(state.current_index, 3);
    assert_eq!(config.timezone, "");
}

#[test]
fn moves_respect_filtered_list() {
    let questions = catalog();
    let mut state = SessionState::new();
    let mut config = ArchConfig::new();
    skip_to(8, &mut state, &questions, &mut config);
    type_text(&mut state, "gr", &questions, &mut config);
    state.apply(InputEvent::MoveDown, &questions, &mut config);
    assert_eq!(state.selected_option, 0);
    state.apply(InputEvent::MoveUp, &questions, &mut config);
    assert_eq!(state.selected_option, 0);
}

#[test]
fn moves_do_nothing_on_free_text() {
    let questions = catalog();
    let mut state = SessionState::new();
    let mut config = ArchConfig::new();
    state.apply(InputEvent::MoveDown, &questions, &mut config);
    state.apply(InputEvent::MoveUp, &questions, &mut config);
    assert_eq!(state.selected_option, 0);
    assert!(state.visible_options(&questions).is_empty());
}

#[test]
fn moves_do_nothing_when_filter_hides_everything() {
    let questions = catalog();
    let mut state = SessionState::new();
    let mut config = ArchConfig::new();
    skip_to(3, &mut state, &questions, &mut config);
    type_text(&mut state, "zzz", &questions, &mut config);
    assert!(state.visible_options(&questions).is_empty());
    state.apply(InputEvent::MoveDown, &questions, &mut config);
    assert_eq!(state.selected_option, 0);
    state.apply(InputEvent::MoveUp, &questions, &mut config);
    assert_eq!(state.selected_option, 0);
}

#[test]
fn confirm_clears_input_state() {
    let questions = catalog();
    let mut state = SessionState::new();
    let mut config = ArchConfig::new();
    type_text(&mut state, "box", &questions, &mut config);
    state.apply(InputEvent::Confirm, &questions, &mut config);
    assert_eq!(state.free_text_buffer, "");
    assert_eq!(state.filter_buffer, "");
    assert_eq!(state.selected_option, 0);
    skip_to(3, &mut state, &questions, &mut config);
    type_text(&mut state, "o", &questions, &mut config);
    state.apply(InputEvent::MoveDown, &questions, &mut config);
    assert_eq!(state.selected_option, 1);
    state.apply(InputEvent::Confirm, &questions, &mut config);
    assert_eq!(config.timezone, "Europe/London");
    assert_eq!(state.current_index, 4);
    assert_eq!(state.free_text_buffer, "");
    assert_eq!(state.filter_buffer, "");
    assert_eq!(state.selected_option, 0);
}

#[test]
fn confirm_clears_even_unreachable_leftovers() {
    let questions = catalog();
    let mut state = SessionState::new();
    let mut config = ArchConfig::new();
    state.filter_buffer = "left over".to_string();
    state.free_text_buffer = "name".to_string();
    state.theme = Theme::Light;
    assert_eq!(state.apply(InputEvent::Confirm, &questions, &mut config), Outcome::Continue);
    assert_eq!(config.hostname, "name");
    assert_eq!(state.current_index, 1);
    assert_eq!(state.free_text_buffer, "");
    assert_eq!(state.filter_buffer, "");
    assert_eq!(state.selected_option, 0);
    assert_eq!(state.theme, Theme::Light);
}

#[test]
fn confirm_with_empty_visible_set_changes_nothing() {
    let questions = catalog();
    let mut state = SessionState::new();
    let mut config = ArchConfig::new();
    type_text(&mut state, "host", &questions, &mut config);
    skip_to(3, &mut state, &questions, &mut config);
    type_text(&mut state, "zzz", &questions, &mut config);
    let before = config.clone();
    assert_eq!(state.apply(InputEvent::Confirm, &questions, &mut config), Outcome::Continue);
    assert_eq!(state.current_index, 3);
    assert_eq!(state.filter_buffer, "zzz");
    assert_eq!(state.selected_option, 0);
    assert_eq!(config.hostname, before.hostname);
    assert_eq!(config.timezone, "");
    assert!(state.answer(&questions).is_none());
    // Taking the filter back makes the question answerable again.
    state.apply(InputEvent::Backspace, &questions, &mut config);
    state.apply(InputEvent::Backspace, &questions, &mut config);
    state.apply(InputEvent::Backspace, &questions, &mut config);
    assert_eq!(state.apply(InputEvent::Confirm, &questions, &mut config), Outcome::Continue);
    assert_eq!(config.timezone, "UTC");
    assert_eq!(state.current_index, 4);
}

#[test]
fn confirm_with_selection_out_of_range_changes_nothing() {
    let questions = catalog();
    let mut state = SessionState::new();
    let mut config = ArchConfig::new();
    skip_to(8, &mut state, &questions, &mut config);
    state.selected_option = 2;
    assert_eq!(state.apply(InputEvent::Confirm, &questions, &mut config), Outcome::Continue);
    assert_eq!(state.current_index, 8);
    assert_eq!(state.selected_option, 2);
    assert_eq!(config.bootloader, "");
}

#[test]
fn quit_aborts_and_keeps_everything_as_it_was() {
    let questions = catalog();
    for index in 0..12usize {
        let mut state = SessionState::new();
        let mut config = ArchConfig::new();
        skip_to(index, &mut state, &questions, &mut config);
        state.apply(InputEvent::Char('u'), &questions, &mut config);
        let free_text = state.free_text_buffer.clone();
        let filter = state.filter_buffer.clone();
        let hostname = config.hostname.clone();
        assert_eq!(state.apply(InputEvent::Quit, &questions, &mut config), Outcome::Aborted);
        assert_eq!(state.current_index, index);
        assert_eq!(state.free_text_buffer, free_text);
        assert_eq!(state.filter_buffer, filter);
        assert_eq!(config.hostname, hostname);
    }
}

#[test]
fn theme_cycle_has_period_three() {
    let questions = catalog();
    let mut state = SessionState::new();
    let mut config = ArchConfig::new();
    assert_eq!(state.apply(InputEvent::ThemeCycle, &questions, &mut config), Outcome::Continue);
    assert_eq!(state.theme, Theme::Dark);
    state.apply(InputEvent::ThemeCycle, &questions, &mut config);
    assert_eq!(state.theme, Theme::Light);
    state.apply(InputEvent::ThemeCycle, &questions, &mut config);
    assert_eq!(state.theme, Theme::Default);
}

#[test]
fn theme_cycle_leaves_progress_alone() {
    let questions = catalog();
    let mut state = SessionState::new();
    let mut config = ArchConfig::new();
    skip_to(3, &mut state, &questions, &mut config);
    type_text(&mut state, "o", &questions, &mut config);
    state.apply(InputEvent::MoveDown, &questions, &mut config);
    state.apply(InputEvent::ThemeCycle, &questions, &mut config);
    assert_eq!(state.theme, Theme::Dark);
    assert_eq!(state.current_index, 3);
    assert_eq!(state.selected_option, 1);
    assert_eq!(state.filter_buffer, "o");
    assert_eq!(state.free_text_buffer, "");
}

#[test]
fn theme_survives_confirm() {
    let questions = catalog();
    let mut state = SessionState::new();
    let mut config = ArchConfig::new();
    state.apply(InputEvent::ThemeCycle, &questions, &mut config);
    state.apply(InputEvent::Confirm, &questions, &mut config);
    assert_eq!(state.theme, Theme::Dark);
}

#[test]
fn full_session_fills_every_field() {
    let questions = catalog();
    let mut state = SessionState::new();
    let mut config = ArchConfig::new();
    let mut completions = 0;
    let mut confirm = |state: &mut SessionState, config: &mut ArchConfig| {
        if state.apply(InputEvent::Confirm, &questions, config) == Outcome::Completed {
            completions += 1;
        }
    };
    type_text(&mut state, "archbox", &questions, &mut config);
    confirm(&mut state, &mut config);
    type_text(&mut state, "ada", &questions, &mut config);
    confirm(&mut state, &mut config);
    type_text(&mut state, "s3cret!", &questions, &mut config);
    confirm(&mut state, &mut config);
    let downs = [2usize, 1, 4, 1, 2, 1, 3, 0];
    for downs in downs {
        for _ in 0..downs {
            state.apply(InputEvent::MoveDown, &questions, &mut config);
        }
        confirm(&mut state, &mut config);
    }
    assert_eq!(state.current_index, 11);
    state.apply(InputEvent::MoveDown, &questions, &mut config);
    confirm(&mut state, &mut config);
    assert_eq!(completions, 1);
    assert_eq!(state.current_index, 12);
    assert!(!state.is_active(&questions));
    assert_eq!(config.hostname, "archbox");
    assert_eq!(config.username, "ada");
    assert_eq!(config.password, "s3cret!");
    assert_eq!(config.timezone, "Europe/London");
    assert_eq!(config.locale, "de_DE.UTF-8");
    assert_eq!(config.keyboard_layout, "jp");
    assert_eq!(config.format_type, "ext4");
    assert_eq!(config.package_manager, "paru");
    assert_eq!(config.bootloader, "systemd-boot");
    assert_eq!(config.desktop_environment, "dwm");
    assert_eq!(config.reflector_country, "US");
    assert!(!config.enable_ssh);
}

#[test]
fn events_after_completion_are_ignored() {
    let questions = catalog();
    let mut state = SessionState::new();
    let mut config = ArchConfig::new();
    skip_to(11, &mut state, &questions, &mut config);
    assert_eq!(state.apply(InputEvent::Confirm, &questions, &mut config), Outcome::Completed);
    for event in [
        InputEvent::Confirm,
        InputEvent::MoveUp,
        InputEvent::MoveDown,
        InputEvent::Char('x'),
        InputEvent::Backspace,
    ] {
        assert_eq!(state.apply(event, &questions, &mut config), Outcome::Continue);
        assert_eq!(state.current_index, 12);
        assert_eq!(state.selected_option, 0);
        assert_eq!(state.free_text_buffer, "");
        assert_eq!(state.filter_buffer, "");
    }
    assert!(config.enable_ssh);
    assert!(state.answer(&questions).is_none());
    assert!(state.visible_options(&questions).is_empty());
}

#[test]
fn apply_all_stops_at_quit() {
    let questions = catalog();
    let mut state = SessionState::new();
    let mut config = ArchConfig::new();
    let events = vec![
        InputEvent::Char('a'),
        InputEvent::Confirm,
        InputEvent::Char('b'),
        InputEvent::Quit,
        InputEvent::Confirm,
        InputEvent::Char('c'),
    ];
    assert_eq!(state.apply_all(&events, &questions, &mut config), Outcome::Aborted);
    assert_eq!(config.hostname, "a");
    assert_eq!(config.username, "");
    assert_eq!(state.current_index, 1);
    assert_eq!(state.free_text_buffer, "b");
}

#[test]
fn apply_all_reports_open_session() {
    let questions = catalog();
    let mut state = SessionState::new();
    let mut config = ArchConfig::new();
    assert_eq!(state.apply_all(&Vec::new(), &questions, &mut config), Outcome::Continue);
    let events = vec![InputEvent::Char('a'), InputEvent::Confirm, InputEvent::MoveDown];
    assert_eq!(state.apply_all(&events, &questions, &mut config), Outcome::Continue);
    assert_eq!(state.current_index, 1);
    assert_eq!(config.hostname, "a");
}

#[test]
fn apply_all_stops_at_completion() {
    let questions = catalog();
    let mut state = SessionState::new();
    let mut config = ArchConfig::new();
    let mut events = vec![InputEvent::Confirm; 12];
    events.push(InputEvent::ThemeCycle);
    events.push(InputEvent::Quit);
    assert_eq!(state.apply_all(&events, &questions, &mut config), Outcome::Completed);
    assert_eq!(state.current_index, 12);
    assert_eq!(state.theme, Theme::Default);
    assert_eq!(config.timezone, "UTC");
    assert_eq!(config.reflector_country, "US");
    assert!(config.enable_ssh);
}

#[test]
fn works_on_other_catalogs() {
    let questions = vec![
        Question::multiple_choice("Shell", vec!["bash", "zsh", "fish"]),
        Question::boolean("Sure"),
    ];
    let mut state = SessionState::new();
    let mut config = ArchConfig::new();
    type_text(&mut state, "SH", &questions, &mut config);
    assert_eq!(state.visible_options(&questions).len(), 3);
    state.apply(InputEvent::Backspace, &questions, &mut config);
    state.apply(InputEvent::Backspace, &questions, &mut config);
    type_text(&mut state, "Sh", &questions, &mut config);
    state.apply(InputEvent::MoveDown, &questions, &mut config);
    state.apply(InputEvent::MoveDown, &questions, &mut config);
    assert_eq!(state.apply(InputEvent::Confirm, &questions, &mut config), Outcome::Continue);
    assert_eq!(config.hostname, "fish");
    // The second field holds text, so a yes/no answer does not fit it.
    assert_eq!(state.apply(InputEvent::Confirm, &questions, &mut config), Outcome::Completed);
    assert_eq!(config.username, "");
    assert!(!config.enable_ssh);
}

#[test]
fn empty_catalog_has_nothing_to_ask() {
    let questions: Vec<Question> = Vec::new();
    let mut state = SessionState::new();
    let mut config = ArchConfig::new();
    assert!(!state.is_active(&questions));
    assert_eq!(state.apply(InputEvent::Confirm, &questions, &mut config), Outcome::Continue);
    assert_eq!(state.apply(InputEvent::Char('x'), &questions, &mut config), Outcome::Continue);
    assert_eq!(state.current_index, 0);
    assert_eq!(state.free_text_buffer, "");
    assert_eq!(state.apply(InputEvent::Quit, &questions, &mut config), Outcome::Aborted);
}

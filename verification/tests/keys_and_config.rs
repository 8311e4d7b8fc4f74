use frond_tui::actions::{
    ActionRegistry, ActionSchema, CommonAction, EditModeAction, NormalModeAction, NormalModeActionSchema, UIAction,
};
use frond_tui::config::Config;
use frond_tui::input::InputHandler;
use frond_tui::keybindings::{
    default_keybindings_config, parse_mode, validate_config, ActionBinding, DefaultKeybinding, Keybindings,
    ModeConfig,
};
use frond_tui::keys::{parse_key_chord, KeyChord, KeyCode, KeyModifiers};
use frond_tui::mode::Mode;
use frond_tui::state::AppState;
use frond_tui::status::{
    build_breadcrumb_text, build_mode_text, build_model_info, create_error_help_line, format_key_chord,
    format_key_code, should_skip_schema,
};
use frond_tui::theme::{parse_border_type, parse_color, BorderType, Color, Section, Theme};

fn shifted(key: KeyCode) -> KeyChord {
    KeyChord::new(key, KeyModifiers { shift: true, ..KeyModifiers::none() })
}

#[test]
fn chords_are_parsed_with_their_modifiers() {
    assert_eq!(parse_key_chord("ctrl-u"), Some(KeyChord::ctrl('u')));
    assert_eq!(parse_key_chord("shift-up"), Some(shifted(KeyCode::Up)));
    assert_eq!(parse_key_chord("alt-enter"), Some(KeyChord::new(KeyCode::Enter, KeyModifiers { alt: true, ..KeyModifiers::none() })));
    assert_eq!(parse_key_chord("pgdn"), Some(KeyChord::new(KeyCode::PageDown, KeyModifiers::none())));
    assert_eq!(parse_key_chord("f5"), Some(KeyChord::new(KeyCode::F(5), KeyModifiers::none())));
    assert_eq!(parse_key_chord("f12"), Some(KeyChord::new(KeyCode::F(12), KeyModifiers::none())));
    assert_eq!(parse_key_chord("k"), Some(KeyChord::char('k')));
    assert_eq!(parse_key_chord("bogus"), None);
    assert_eq!(parse_key_chord(""), None);
}

#[test]
fn modes_are_named_normal_and_edit() {
    assert_eq!(parse_mode("normal"), Ok(Mode::Normal));
    assert_eq!(parse_mode("edit"), Ok(Mode::Edit));
    assert_eq!(parse_mode("visual"), Err("Unknown mode: visual".to_string()));
}

#[test]
fn default_bindings_are_valid() {
    assert_eq!(validate_config(&default_keybindings_config()), Ok(()));
    assert!(Keybindings::from_config(default_keybindings_config()).is_ok());
}

#[test]
fn invalid_key_is_refused() {
    let config = vec![ModeConfig {
        mode: "normal".to_string(),
        actions: vec![ActionBinding { action_id: "quit".to_string(), binding: DefaultKeybinding::Single("nonsense-key") }],
    }];
    assert!(validate_config(&config).is_err());
    let bad_mode = vec![ModeConfig { mode: "insert".to_string(), actions: vec![] }];
    assert!(validate_config(&bad_mode).is_err());
}

#[test]
fn default_bindings_map_keys_to_actions() {
    let kb = Keybindings::default();
    assert_eq!(kb.get_action_for_key(Mode::Normal, &KeyChord::char('e')), Some("edit_message".to_string()));
    assert_eq!(kb.get_action_for_key(Mode::Normal, &KeyChord::ctrl('d')), Some("scroll_half_page_down".to_string()));
    assert_eq!(kb.get_action_for_key(Mode::Edit, &KeyChord::ctrl('v')), Some("paste".to_string()));
    assert_eq!(kb.get_action_for_key(Mode::Edit, &KeyChord::char('e')), None);
    let up = kb.get_keys_for_action(Mode::Normal, "scroll_up").unwrap();
    assert_eq!(up, &vec![KeyChord::new(KeyCode::Up, KeyModifiers::none()), KeyChord::char('k')]);
}

#[test]
fn set_keys_then_get_gives_them_back() {
    let mut kb = Keybindings::default();
    kb.set_keys_for_action(Mode::Normal, "scroll_up".to_string(), vec![KeyChord::char('w')]);
    assert_eq!(kb.get_keys_for_action(Mode::Normal, "scroll_up"), Some(&vec![KeyChord::char('w')]));
    assert_eq!(kb.get_action_for_key(Mode::Normal, &KeyChord::char('w')), Some("scroll_up".to_string()));
    kb.add_key_for_action(Mode::Normal, "scroll_up".to_string(), KeyChord::char('z'));
    assert_eq!(
        kb.get_keys_for_action(Mode::Normal, "scroll_up"),
        Some(&vec![KeyChord::char('w'), KeyChord::char('z')])
    );
}

#[test]
fn config_gives_the_first_key() {
    let config = Config::default();
    assert_eq!(config.get_key_for_action(Mode::Normal, "delete_message"), Some(&KeyChord::char('d')));
    assert_eq!(config.get_key_for_action(Mode::Normal, "no_such_action"), None);
    assert_eq!(config.model.provider, "ollama");
    assert_eq!(config.model.name, "gemma3n:2b");
}

#[test]
fn input_handler_turns_keys_into_actions() {
    let handler = InputHandler::new(&Config::default());
    assert_eq!(
        handler.handle_input(KeyChord::char('j'), Mode::Normal),
        Some(UIAction::NormalMode(NormalModeAction::ScrollDown))
    );
    assert_eq!(
        handler.handle_input(KeyChord::new(KeyCode::Enter, KeyModifiers { alt: true, ..KeyModifiers::none() }), Mode::Edit),
        Some(UIAction::EditMode(EditModeAction::SubmitMessage))
    );
    // Escape is bound under `exit_edit_mode`, while the action's identifier is `exit_mode`.
    assert_eq!(handler.handle_input(KeyChord::new(KeyCode::Esc, KeyModifiers::none()), Mode::Edit), None);
    assert_eq!(
        handler.handle_input(KeyChord::char('?'), Mode::Normal),
        Some(UIAction::Common(CommonAction::ShowHelp(Mode::Normal)))
    );
    assert_eq!(handler.handle_input(KeyChord::char('q'), Mode::Normal), Some(UIAction::Common(CommonAction::Quit)));
    assert_eq!(handler.handle_input(KeyChord::char('y'), Mode::Edit), None);
}

#[test]
fn unbound_keys_are_typed_in_edit_mode_only() {
    let handler = InputHandler::new(&Config::default());
    assert!(handler.should_handle_as_raw_input(KeyChord::char('y'), Mode::Edit));
    assert!(!handler.should_handle_as_raw_input(KeyChord::ctrl('v'), Mode::Edit));
    assert!(!handler.should_handle_as_raw_input(KeyChord::char('y'), Mode::Normal));
}

#[test]
fn registry_finds_schemas_by_id() {
    let registry = ActionRegistry::new();
    assert_eq!(
        registry.get_schema("fork_branch"),
        Some(&ActionSchema::Normal(NormalModeActionSchema::ForkBranch))
    );
    assert_eq!(registry.get_schema("nothing"), None);
    let normal = registry.get_schemas_for_mode(Mode::Normal);
    assert!(normal.iter().all(|(_, s)| !matches!(s, ActionSchema::Edit(_))));
}

#[test]
fn colours_and_borders_are_read_in_any_case() {
    assert_eq!(parse_color("Blue"), Some(Color::Blue));
    assert_eq!(parse_color("DARK_GRAY"), Some(Color::DarkGray));
    assert_eq!(parse_color("chartreuse"), None);
    assert_eq!(parse_border_type("Rounded"), Some(BorderType::Rounded));
    assert_eq!(parse_border_type("wavy"), None);
}

#[test]
fn theme_reads_its_section() {
    let raw = vec![Section {
        name: "theme".to_string(),
        fields: vec![("highlight_color".to_string(), "red".to_string())],
    }];
    let theme = Theme::from_string_map(raw).unwrap();
    assert_eq!(theme.highlight_color, Color::Red);
    let default = Theme::from_string_map(vec![]).unwrap();
    assert_eq!(default.highlight_color, Color::Blue);
    assert_eq!(default.secondary_color, Color::DarkGray);
}

#[test]
fn status_texts() {
    let mut state = AppState::default();
    assert_eq!(build_mode_text(&state), "Mode: Normal");
    state.error_message = Some("oops".to_string());
    assert_eq!(build_mode_text(&state), "Mode: Normal > Error");
    assert_eq!(build_model_info(&state), "ollama: gemma3n:2b");
    assert_eq!(
        build_breadcrumb_text(&state),
        "Programming Help Sessions > Rust Ownership Discussion > main"
    );
}

#[test]
fn keys_are_written_for_the_help() {
    assert_eq!(format_key_chord(&KeyChord::ctrl('u')), "ctrl-u");
    assert_eq!(format_key_chord(&shifted(KeyCode::Down)), "shift-↓");
    assert_eq!(format_key_code(KeyCode::PageUp), "pgup");
    assert_eq!(format_key_code(KeyCode::F(3)), "?");
}

#[test]
fn help_leaves_out_actions_needing_focus() {
    let mut state = AppState::default();
    let delete = ActionSchema::Normal(NormalModeActionSchema::DeleteMessage);
    let scroll = ActionSchema::Normal(NormalModeActionSchema::ScrollUp);
    assert!(should_skip_schema(&delete, &state));
    assert!(!should_skip_schema(&scroll, &state));
    state.focused_message_id = Some(state.current_messages()[0].id);
    assert!(!should_skip_schema(&delete, &state));
}

#[test]
fn error_help_line_says_how_to_dismiss() {
    let line = create_error_help_line();
    assert_eq!(line.len(), 2);
    assert_eq!((line[0].text.as_str(), line[0].key), ("esc", true));
    assert_eq!((line[1].text.as_str(), line[1].key), (": dismiss", false));
}

#[test]
fn ctrl_shift_z_redoes_in_both_modes() {
    let kb = Keybindings::default();
    let chord = KeyChord::new(KeyCode::Char('z'), KeyModifiers { control: true, shift: true, ..KeyModifiers::none() });
    assert_eq!(parse_key_chord("ctrl-shift-z"), Some(chord));
    assert_eq!(kb.get_action_for_key(Mode::Edit, &chord), Some("redo".to_string()));
    assert_eq!(kb.get_action_for_key(Mode::Normal, &chord), Some("normal_redo".to_string()));
    assert_eq!(kb.get_action_for_key(Mode::Edit, &KeyChord::ctrl('y')), Some("redo".to_string()));
    assert_eq!(kb.get_action_for_key(Mode::Edit, &KeyChord::ctrl('z')), Some("undo".to_string()));
    let handler = InputHandler::new(&Config::default());
    assert_eq!(handler.handle_input(chord, Mode::Edit), Some(UIAction::EditMode(EditModeAction::Redo)));
}

#[test]
fn colours_of_upper_case_names() {
    assert_eq!(parse_color("RED"), Some(Color::Red));
    assert_eq!(parse_color("Light_Cyan"), Some(Color::LightCyan));
    assert_eq!(parse_border_type("DOUBLE"), Some(BorderType::Double));
}

#[test]
fn modifier_order_and_repetition_do_not_matter() {
    assert_eq!(parse_key_chord("shift-ctrl-x"), parse_key_chord("ctrl-shift-x"));
    assert_eq!(parse_key_chord("alt-alt-up"), parse_key_chord("alt-up"));
    assert_eq!(parse_key_chord("ctrl-alt-f1"), parse_key_chord("alt-ctrl-f1"));
    assert!(parse_key_chord("shift-alt-x").is_some());
}

#[test]
fn formatting_a_parsed_chord_gives_back_its_description() {
    for description in ["ctrl-shift-x", "alt-?", "H", "-", "ctrl-alt-z", "shift-a"] {
        let chord = parse_key_chord(description).unwrap();
        assert_eq!(format_key_chord(&chord), description);
    }
}

#[test]
fn registry_finds_each_schema_by_its_id_and_nothing_else() {
    let registry = ActionRegistry::new();
    let mut ids: Vec<&str> = Vec::new();
    for mode in [Mode::Normal, Mode::Edit] {
        for (id, schema) in registry.get_schemas_for_mode(mode) {
            assert_eq!(registry.get_schema(id), Some(schema));
            assert_eq!(schema.id(), id);
            if !ids.contains(&id) {
                ids.push(id);
            }
        }
    }
    assert_eq!(ids.len(), 60);
    assert_eq!(registry.get_schema("exit_edit_mode"), None);
    assert_eq!(registry.get_schema("exit_mode").map(|s| s.id()), Some("exit_mode"));
}

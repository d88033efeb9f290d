use bath::config::{CatalogItem, CustomVarDef, Entry, EnvProfile, ItemKind, PathEntry, VarKind};
use bath::tui::state::{
    builtin_var_options, AppState, EditorStyle, InputMode, ListState, StoreAction, StoreError,
};
use bath::tui::theme::{default_preset, BathConfig};
use bath::tui::view::View;

fn path_part(path: &str) -> Entry {
    Entry::Path(PathEntry {
        path: path.to_string(),
        program: String::new(),
        version: String::new(),
    })
}

fn cflag(value: &str) -> Entry {
    Entry::CFlag(value.to_string())
}

fn profile(name: &str, entries: Vec<Entry>) -> EnvProfile {
    EnvProfile {
        name: name.to_string(),
        entries,
    }
}

fn app_with(profiles: Vec<EnvProfile>) -> AppState {
    AppState::new(
        profiles,
        Vec::new(),
        Vec::new(),
        BathConfig::default(),
        default_preset().to_string(),
        "dracula".to_string(),
    )
    .0
}

fn texts(app: &AppState) -> Vec<String> {
    app.profiles[app.active_profile_index]
        .entries
        .iter()
        .map(|e| e.to_text())
        .collect()
}

fn names(app: &AppState) -> Vec<&str> {
    app.profiles.iter().map(|p| p.name.as_str()).collect()
}

#[test]
fn builtin_options_are_the_twenty_variables_in_catalog_order() {
    let options = builtin_var_options();
    let seen: Vec<(&str, VarKind, &str, EditorStyle)> = options
        .iter()
        .map(|o| (o.name.as_str(), o.kind, o.separator.as_str(), o.editor))
        .collect();
    let (list, scalar) = (VarKind::List, VarKind::Scalar);
    let (parts_list, path_part, single) =
        (EditorStyle::PartsList, EditorStyle::PathPart, EditorStyle::Single);
    assert_eq!(
        seen,
        vec![
            ("PATH", list, ":", path_part),
            ("CPATH", list, ":", parts_list),
            ("C_INCLUDE_PATH", list, ":", parts_list),
            ("CPLUS_INCLUDE_PATH", list, ":", parts_list),
            ("OBJC_INCLUDE_PATH", list, ":", parts_list),
            ("LIBRARY_PATH", list, ":", parts_list),
            ("LD_LIBRARY_PATH", list, ":", parts_list),
            ("LD_RUN_PATH", list, ":", parts_list),
            ("CPPFLAGS", list, " ", parts_list),
            ("CFLAGS", list, " ", parts_list),
            ("CXXFLAGS", list, " ", parts_list),
            ("LDFLAGS", list, " ", parts_list),
            ("RANLIB", scalar, "", single),
            ("CC", scalar, "", single),
            ("CXX", scalar, "", single),
            ("AR", scalar, "", single),
            ("STRIP", scalar, "", single),
            ("GCC_EXEC_PREFIX", scalar, "", single),
            ("COLLECT_GCC_OPTIONS", scalar, "", single),
            ("LANG", scalar, "", single),
        ]
    );
}

#[test]
fn new_state_without_profiles_gets_a_default_profile_to_save() {
    let (app, action) = AppState::new(
        Vec::new(),
        Vec::new(),
        Vec::new(),
        BathConfig::default(),
        "dracula".to_string(),
        "dracula".to_string(),
    );
    assert_eq!(names(&app), vec!["default"]);
    assert!(app.profiles[0].entries.is_empty());
    assert!(matches!(action, StoreAction::SaveProfile(0)));
    assert_eq!(app.active_profile_index, 0);
}

#[test]
fn new_state_keeps_loaded_profiles_and_opens_on_the_variables() {
    let defs = vec![CustomVarDef {
        name: "MY_PATH".to_string(),
        kind: VarKind::List,
        separator: ";".to_string(),
    }];
    let items = vec![CatalogItem {
        id: Some(3),
        kind: ItemKind::Text,
        value: "/opt/bin".to_string(),
        program: None,
        version: None,
        tags: vec!["core".to_string()],
    }];
    let (app, action) = AppState::new(
        vec![profile("a", vec![cflag("-O2")]), profile("b", vec![])],
        defs,
        items,
        BathConfig::default(),
        "nord".to_string(),
        "nord".to_string(),
    );
    assert!(matches!(action, StoreAction::Nothing));
    assert_eq!(names(&app), vec!["a", "b"]);
    assert_eq!(app.active_profile_index, 0);
    assert_eq!(app.active_view, View::Vars);
    assert_eq!(app.search_target, View::Vars);
    assert_eq!(app.input_mode, InputMode::Normal);
    assert_eq!(app.profile_list_state.selected(), Some(0));
    assert_eq!(app.vars_list_state.selected(), Some(0));
    assert_eq!(app.defs_list_state.selected(), Some(0));
    assert_eq!(app.parts_list_state.selected(), Some(0));
    assert_eq!(app.items_list_state.selected(), Some(0));
    assert_eq!(app.selected_var_name.as_deref(), Some("PATH"));
    assert_eq!(app.theme_preset, "nord");
    assert_eq!(app.theme_name, "nord");
    assert_eq!(app.status, "");
    assert!(app.holding.is_none());
    assert_eq!(app.items.len(), 1);
    assert_eq!(app.items[0].value, "/opt/bin");
    assert_eq!(app.custom_var_defs.len(), 1);
    assert_eq!(app.var_options.len(), 21);
    assert_eq!(app.var_options[20].name, "MY_PATH");
    assert_eq!(app.var_options[20].kind, VarKind::List);
    assert_eq!(app.var_options[20].separator, ";");
    assert_eq!(app.var_options[20].editor, EditorStyle::PartsList);
    assert!(app.command_suggestions.is_empty());
    assert_eq!(app.command_selected, 0);
}

#[test]
fn refresh_var_options_puts_builtins_before_custom_definitions() {
    let mut app = app_with(vec![]);
    app.refresh_var_options(vec![
        CustomVarDef {
            name: "ZED".to_string(),
            kind: VarKind::Scalar,
            separator: String::new(),
        },
        CustomVarDef {
            name: "PATH".to_string(),
            kind: VarKind::List,
            separator: ";".to_string(),
        },
    ]);
    assert_eq!(app.var_options.len(), 22);
    assert_eq!(app.var_options[0].name, "PATH");
    assert_eq!(app.var_options[0].separator, ":");
    assert_eq!(app.var_options[20].name, "ZED");
    assert_eq!(app.var_options[20].editor, EditorStyle::Single);
    assert_eq!(app.var_options[21].name, "PATH");
    assert_eq!(app.var_options[21].separator, ";");
    assert_eq!(app.var_options[21].editor, EditorStyle::PartsList);
    assert_eq!(app.custom_var_defs.len(), 2);
}

#[test]
fn ensure_selected_var_keeps_a_selection() {
    let mut app = app_with(vec![]);
    app.selected_var_name = Some("CC".to_string());
    app.ensure_selected_var();
    assert_eq!(app.selected_var_name.as_deref(), Some("CC"));
    app.selected_var_name = None;
    app.ensure_selected_var();
    assert_eq!(app.selected_var_name.as_deref(), Some("PATH"));
    app.selected_var_name = None;
    app.var_options.clear();
    app.ensure_selected_var();
    assert_eq!(app.selected_var_name, None);
}

#[test]
fn add_env_var_appends_to_the_active_profile() {
    let mut app = app_with(vec![profile("a", vec![]), profile("b", vec![cflag("-g")])]);
    app.active_profile_index = 1;
    let action = app.add_env_var(cflag("-O2"));
    assert!(matches!(action, StoreAction::SaveProfile(1)));
    assert_eq!(texts(&app), vec!["CFLAGS: -g", "CFLAGS: -O2"]);
    assert!(app.profiles[0].entries.is_empty());
}

#[test]
fn delete_env_var_removes_one_entry_or_nothing() {
    let mut app = app_with(vec![profile("a", vec![cflag("1"), cflag("2"), cflag("3")])]);
    assert!(matches!(app.delete_env_var(3), StoreAction::Nothing));
    assert_eq!(texts(&app).len(), 3);
    assert!(matches!(app.delete_env_var(1), StoreAction::SaveProfile(0)));
    assert_eq!(texts(&app), vec!["CFLAGS: 1", "CFLAGS: 3"]);
}

#[test]
fn update_env_var_replaces_one_entry_or_nothing() {
    let mut app = app_with(vec![profile("a", vec![cflag("1"), cflag("2")])]);
    assert!(matches!(
        app.update_env_var(2, cflag("x")),
        StoreAction::Nothing
    ));
    assert!(matches!(
        app.update_env_var(0, path_part("/p")),
        StoreAction::SaveProfile(0)
    ));
    assert_eq!(texts(&app), vec!["PATH: /p ( )", "CFLAGS: 2"]);
}

#[test]
fn move_env_var_up_and_down() {
    let mut app = app_with(vec![profile("a", vec![cflag("1"), cflag("2"), cflag("3")])]);
    assert!(matches!(app.move_env_var_up(0), StoreAction::Nothing));
    assert!(matches!(app.move_env_var_up(3), StoreAction::Nothing));
    assert!(matches!(app.move_env_var_down(2), StoreAction::Nothing));
    assert!(matches!(app.move_env_var_down(7), StoreAction::Nothing));
    assert_eq!(texts(&app), vec!["CFLAGS: 1", "CFLAGS: 2", "CFLAGS: 3"]);
    assert!(matches!(app.move_env_var_up(2), StoreAction::SaveProfile(0)));
    assert_eq!(texts(&app), vec!["CFLAGS: 1", "CFLAGS: 3", "CFLAGS: 2"]);
    assert!(matches!(
        app.move_env_var_down(0),
        StoreAction::SaveProfile(0)
    ));
    assert_eq!(texts(&app), vec!["CFLAGS: 3", "CFLAGS: 1", "CFLAGS: 2"]);
}

#[test]
fn move_env_var_down_on_an_empty_profile_does_nothing() {
    let mut app = app_with(vec![profile("a", vec![])]);
    assert!(matches!(app.move_env_var_down(0), StoreAction::Nothing));
    assert!(matches!(app.move_env_var_up(0), StoreAction::Nothing));
}

#[test]
fn replace_var_parts_puts_new_parts_where_the_first_old_part_stood() {
    let mut app = app_with(vec![profile(
        "a",
        vec![
            cflag("-O2"),
            path_part("/x1"),
            Entry::CC("gcc".to_string()),
            path_part("/x2"),
            cflag("-g"),
        ],
    )]);
    let action = app.replace_var_parts("PATH", vec![path_part("/n1"), path_part("/n2")]);
    assert!(matches!(action, StoreAction::SaveProfile(0)));
    assert_eq!(
        texts(&app),
        vec![
            "CFLAGS: -O2",
            "PATH: /n1 ( )",
            "PATH: /n2 ( )",
            "CC: gcc",
            "CFLAGS: -g"
        ]
    );
}

#[test]
fn replace_var_parts_appends_parts_of_a_new_variable() {
    let mut app = app_with(vec![profile("a", vec![cflag("-O2")])]);
    app.replace_var_parts("PATH", vec![path_part("/n1")]);
    assert_eq!(texts(&app), vec!["CFLAGS: -O2", "PATH: /n1 ( )"]);
}

#[test]
fn replace_var_parts_with_nothing_removes_the_variable() {
    let mut app = app_with(vec![profile(
        "a",
        vec![path_part("/x1"), cflag("-O2"), path_part("/x2")],
    )]);
    app.replace_var_parts("PATH", vec![]);
    assert_eq!(texts(&app), vec!["CFLAGS: -O2"]);
    app.replace_var_parts("CFLAGS", vec![]);
    assert!(texts(&app).is_empty());
    app.replace_var_parts("CC", vec![]);
    assert!(texts(&app).is_empty());
}

#[test]
fn replace_var_parts_at_the_front_and_at_the_end() {
    let mut app = app_with(vec![profile(
        "a",
        vec![path_part("/x1"), cflag("-O2"), path_part("/x2")],
    )]);
    app.replace_var_parts("PATH", vec![path_part("/x")]);
    assert_eq!(texts(&app), vec!["PATH: /x ( )", "CFLAGS: -O2"]);
    app.replace_var_parts("CFLAGS", vec![cflag("a"), cflag("b")]);
    assert_eq!(
        texts(&app),
        vec!["PATH: /x ( )", "CFLAGS: a", "CFLAGS: b"]
    );
}

#[test]
fn add_profile_appends_and_asks_to_save_it() {
    let mut app = app_with(vec![profile("a", vec![])]);
    let action = app.add_profile(EnvProfile::new("b"));
    assert!(matches!(action, StoreAction::SaveProfile(1)));
    assert_eq!(names(&app), vec!["a", "b"]);
    assert_eq!(app.active_profile_index, 0);
}

#[test]
fn state_delete_profile_does_not_remove_last_profile() {
    let default = EnvProfile::new("default");

    let mut app = AppState {
        profiles: vec![default],
        active_profile_index: 0,
        profile_list_state: ListState::default(),
        custom_var_defs: Vec::new(),
        var_options: builtin_var_options(),
        active_view: View::Vars,
        input_mode: InputMode::Normal,
        theme_preset: default_preset().to_string(),
        theme_name: default_preset().to_string(),
        config: BathConfig::default(),
        vars_list_state: ListState::default(),
        defs_list_state: ListState::default(),
        parts_list_state: ListState::default(),
        items_list_state: ListState::default(),
        selected_var_name: Some("PATH".to_string()),
        profiles_filter: String::new(),
        vars_filter: String::new(),
        defs_filter: String::new(),
        parts_filter: String::new(),
        items_filter: String::new(),
        command_input: String::new(),
        command_suggestions: Vec::new(),
        command_selected: 0,
        search_target: View::Vars,
        status: String::new(),
        holding: None,
        items: Vec::new(),
    };

    let action = app.delete_profile(0);

    assert_eq!(app.profiles.len(), 1);
    assert_eq!(app.profiles[0].name, "default");
    assert_eq!(app.active_profile_index, 0);

    // Nothing is deleted from the store either: it still holds one profile.
    assert!(matches!(action, StoreAction::Nothing));
}

#[test]
fn tui_app_delete_profile_does_not_remove_last_profile() {
    let default = EnvProfile::new("default");
    let mut app = app_with(vec![default]);
    app.selected_var_name = Some("PATH".to_string());

    let action = app.delete_profile(0);

    assert_eq!(app.profiles.len(), 1);
    assert_eq!(app.profiles[0].name, "default");
    assert_eq!(app.active_profile_index, 0);
    assert!(matches!(action, StoreAction::Nothing));
}

#[test]
fn delete_profile_removes_and_pulls_the_active_index_back() {
    let mut app = app_with(vec![
        profile("a", vec![]),
        profile("b", vec![]),
        profile("c", vec![]),
    ]);
    app.active_profile_index = 2;
    match app.delete_profile(2) {
        StoreAction::DeleteProfile(name) => assert_eq!(name, "c"),
        other => panic!("unexpected action: {:?}", other),
    }
    assert_eq!(names(&app), vec!["a", "b"]);
    assert_eq!(app.active_profile_index, 1);
    match app.delete_profile(0) {
        StoreAction::DeleteProfile(name) => assert_eq!(name, "a"),
        other => panic!("unexpected action: {:?}", other),
    }
    assert_eq!(names(&app), vec!["b"]);
    assert_eq!(app.active_profile_index, 0);
}

#[test]
fn delete_profile_past_the_end_does_nothing() {
    let mut app = app_with(vec![profile("a", vec![]), profile("b", vec![])]);
    assert!(matches!(app.delete_profile(2), StoreAction::Nothing));
    assert_eq!(names(&app), vec!["a", "b"]);
}

#[test]
fn rename_to_own_name_is_a_no_op_success() {
    let mut app = app_with(vec![profile("a", vec![cflag("1")]), profile("b", vec![])]);
    let out = app.update_profile(0, "a".to_string());
    assert!(matches!(out, Ok(StoreAction::Nothing)));
    assert_eq!(names(&app), vec!["a", "b"]);
    assert_eq!(app.profiles[0].entries.len(), 1);
}

#[test]
fn rename_to_a_taken_name_fails_and_changes_nothing() {
    let mut app = app_with(vec![
        profile("a", vec![cflag("1")]),
        profile("b", vec![cflag("2"), cflag("3")]),
    ]);
    let out = app.update_profile(0, "b".to_string());
    assert!(matches!(out, Err(StoreError::RenameConflict)));
    assert_eq!(names(&app), vec!["a", "b"]);
    assert_eq!(app.profiles[0].entries.len(), 1);
    assert_eq!(app.profiles[1].entries.len(), 2);
    let out = app.update_profile(1, "a".to_string());
    assert!(matches!(out, Err(StoreError::RenameConflict)));
    assert_eq!(names(&app), vec!["a", "b"]);
}

#[test]
fn rename_to_a_free_name_renames_in_place() {
    let mut app = app_with(vec![
        profile("old", vec![cflag("-O2")]),
        profile("other", vec![]),
    ]);
    match app.update_profile(0, "new".to_string()) {
        Ok(StoreAction::RenameProfile { old_name, new_name }) => {
            assert_eq!(old_name, "old");
            assert_eq!(new_name, "new");
        }
        other => panic!("unexpected outcome: {:?}", other),
    }
    assert_eq!(names(&app), vec!["new", "other"]);
    assert_eq!(app.profiles[0].entries.len(), 1);
    assert_eq!(app.profiles[0].entries[0].to_text(), "CFLAGS: -O2");
}

#[test]
fn rename_past_the_end_does_nothing() {
    let mut app = app_with(vec![profile("a", vec![])]);
    assert!(matches!(
        app.update_profile(5, "b".to_string()),
        Ok(StoreAction::Nothing)
    ));
    assert_eq!(names(&app), vec!["a"]);
}

#[test]
fn find_profile_by_name() {
    let app = app_with(vec![
        profile("a", vec![]),
        profile("b", vec![]),
        profile("a", vec![]),
    ]);
    assert_eq!(app.find_profile("a"), Ok(0));
    assert_eq!(app.find_profile("b"), Ok(1));
    assert_eq!(app.find_profile("c"), Err(StoreError::ProfileNotFound));
    assert_eq!(app.find_profile(""), Err(StoreError::ProfileNotFound));
}

#[test]
fn set_theme_preset_trims_and_fills_the_configuration() {
    let mut app = app_with(vec![]);
    assert!(!app.set_theme_preset("   "));
    assert_eq!(app.theme_preset, "dracula");
    assert!(app.config.theme.is_none());
    assert!(app.set_theme_preset("  nord "));
    assert_eq!(app.theme_preset, "nord");
    let section = app.config.theme.as_ref().expect("a theme section");
    assert_eq!(section.preset.as_deref(), Some("nord"));
    assert_eq!(section.base_100, None);
}

#[test]
fn set_theme_preset_keeps_overrides() {
    let mut app = app_with(vec![]);
    let mut config = BathConfig::default();
    let mut section = bath::tui::theme::ThemeSection::default();
    section.preset = Some("light".to_string());
    section.primary = Some("#ff0000".to_string());
    section.error_content = Some("#000".to_string());
    config.theme = Some(section);
    app.config = config;
    assert!(app.set_theme_preset("dark"));
    let section = app.config.theme.as_ref().expect("a theme section");
    assert_eq!(section.preset.as_deref(), Some("dark"));
    assert_eq!(section.primary.as_deref(), Some("#ff0000"));
    assert_eq!(section.error_content.as_deref(), Some("#000"));
    assert_eq!(section.accent, None);
}

#[test]
fn theme_applied_records_the_name_and_says_so() {
    let mut app = app_with(vec![]);
    app.theme_applied("nord".to_string());
    assert_eq!(app.theme_name, "nord");
    assert_eq!(app.status, "theme: nord");
}

#[test]
fn refresh_items_takes_over_the_items() {
    let mut app = app_with(vec![]);
    app.refresh_items(vec![CatalogItem {
        id: Some(1),
        kind: ItemKind::Path,
        value: "/x".to_string(),
        program: Some("p".to_string()),
        version: None,
        tags: vec![],
    }]);
    assert_eq!(app.items.len(), 1);
    assert_eq!(app.items[0].kind, ItemKind::Path);
    app.refresh_items(vec![]);
    assert!(app.items.is_empty());
}

#[test]
fn list_state_selects() {
    let mut s = ListState::default();
    assert_eq!(s.selected(), None);
    s.select(Some(4));
    assert_eq!(s.selected(), Some(4));
    s.select(None);
    assert_eq!(s.selected(), None);
    assert_eq!(ListState::at(Some(2)).selected(), Some(2));
}

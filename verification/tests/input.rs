use bath::config::{CatalogItem, CustomVarDef, Entry, EnvProfile, ItemKind, PathEntry, VarKind};
use bath::tui::input::{
    activate_selection, apply_live_filter, current_var_name, cycle_view, finish_add_part,
    finish_add_profile, finish_delete_item, finish_delete_profile, finish_edit_part,
    finish_item_form, finish_new_var_def, finish_rename_profile, handle_key_event, jump_to_bottom,
    jump_to_top, move_selection, Dialog, Key, Step,
};
use bath::tui::state::{AppState, Holding, InputMode, StoreAction, StoreError};
use bath::tui::theme::BathConfig;
use bath::tui::view::View;

fn themes() -> Vec<String> {
    vec!["dark".to_string(), "dracula".to_string()]
}

fn path_part(path: &str) -> Entry {
    Entry::Path(PathEntry {
        path: path.to_string(),
        program: String::new(),
        version: String::new(),
    })
}

fn cflag(v: &str) -> Entry {
    Entry::CFlag(v.to_string())
}

fn item(id: Option<i64>, value: &str) -> CatalogItem {
    CatalogItem {
        id,
        kind: ItemKind::Text,
        value: value.to_string(),
        program: None,
        version: None,
        tags: vec![],
    }
}

fn app() -> AppState {
    AppState::new(
        vec![
            EnvProfile {
                name: "work".to_string(),
                entries: vec![
                    path_part("/a"),
                    cflag("-O2"),
                    path_part("/b"),
                    path_part("/c"),
                ],
            },
            EnvProfile::new("home"),
        ],
        vec![CustomVarDef {
            name: "MY_LIST".to_string(),
            kind: VarKind::List,
            separator: ";".to_string(),
        }],
        vec![item(Some(1), "/opt/one"), item(None, "/opt/two")],
        BathConfig::default(),
        "dracula".to_string(),
        "dracula".to_string(),
    )
    .0
}

fn key(app: &mut AppState, k: Key) -> Step {
    handle_key_event(app, k, &themes())
}

fn press(app: &mut AppState, c: char) -> Step {
    key(app, Key::Char(c))
}

fn texts(app: &AppState) -> Vec<String> {
    app.profiles[app.active_profile_index]
        .entries
        .iter()
        .map(|e| e.to_text())
        .collect()
}

fn saves_active(step: &Step) -> bool {
    matches!(step, Step::Store(StoreAction::SaveProfile(0)))
}

#[test]
fn q_quits() {
    let mut a = app();
    assert!(matches!(press(&mut a, 'q'), Step::Quit));
}

#[test]
fn unknown_keys_change_nothing() {
    let mut a = app();
    for k in [Key::Other, Key::Backspace, Key::Char('x'), Key::Char('Z')] {
        assert!(matches!(key(&mut a, k), Step::Continue));
    }
    assert_eq!(a.active_view, View::Vars);
    assert_eq!(a.vars_list_state.selected(), Some(0));
    assert_eq!(a.status, "");
}

#[test]
fn tab_cycles_the_views_and_question_mark_shows_help() {
    let mut a = app();
    key(&mut a, Key::Tab);
    assert_eq!(a.active_view, View::Parts);
    cycle_view(&mut a);
    assert_eq!(a.active_view, View::Items);
    press(&mut a, '?');
    assert_eq!(a.active_view, View::Help);
    key(&mut a, Key::Tab);
    assert_eq!(a.active_view, View::Profiles);
}

#[test]
fn moving_in_the_list_of_variables_selects_the_row() {
    let mut a = app();
    // Rows in order: AR, CC, CFLAGS, ...
    assert!(matches!(press(&mut a, 'j'), Step::Continue));
    assert_eq!(a.vars_list_state.selected(), Some(1));
    assert_eq!(a.selected_var_name.as_deref(), Some("CC"));
    key(&mut a, Key::Down);
    assert_eq!(a.selected_var_name.as_deref(), Some("CFLAGS"));
    press(&mut a, 'k');
    key(&mut a, Key::Up);
    key(&mut a, Key::Up);
    assert_eq!(a.vars_list_state.selected(), Some(0));
    assert_eq!(a.selected_var_name.as_deref(), Some("AR"));
    key(&mut a, Key::PageDown);
    assert_eq!(a.vars_list_state.selected(), Some(10));
    key(&mut a, Key::PageDown);
    key(&mut a, Key::PageDown);
    assert_eq!(a.vars_list_state.selected(), Some(20));
    assert_eq!(a.selected_var_name.as_deref(), Some("STRIP"));
    key(&mut a, Key::PageUp);
    assert_eq!(a.vars_list_state.selected(), Some(10));
}

#[test]
fn moving_pulls_a_stray_cursor_back_first() {
    let mut a = app();
    a.active_view = View::Profiles;
    a.profile_list_state.select(Some(40));
    move_selection(&mut a, -1);
    assert_eq!(a.profile_list_state.selected(), Some(0));
    a.profile_list_state.select(None);
    move_selection(&mut a, 1);
    assert_eq!(a.profile_list_state.selected(), Some(1));
    move_selection(&mut a, isize::MAX);
    assert_eq!(a.profile_list_state.selected(), Some(1));
    move_selection(&mut a, isize::MIN);
    assert_eq!(a.profile_list_state.selected(), Some(0));
}

#[test]
fn moving_in_an_empty_list_clears_the_cursor() {
    let mut a = app();
    a.active_view = View::Items;
    a.items_filter = "nothing".to_string();
    move_selection(&mut a, 1);
    assert_eq!(a.items_list_state.selected(), None);
    a.active_view = View::Help;
    a.items_list_state.select(Some(3));
    move_selection(&mut a, 1);
    assert_eq!(a.items_list_state.selected(), Some(3));
}

#[test]
fn jumping_to_the_ends() {
    let mut a = app();
    a.active_view = View::Defs;
    press(&mut a, 'g');
    assert_eq!(a.defs_list_state.selected(), Some(20));
    press(&mut a, 'G');
    assert_eq!(a.defs_list_state.selected(), Some(0));
    key(&mut a, Key::End);
    assert_eq!(a.defs_list_state.selected(), Some(20));
    key(&mut a, Key::Home);
    assert_eq!(a.defs_list_state.selected(), Some(0));
    a.active_view = View::Parts;
    a.selected_var_name = None;
    jump_to_bottom(&mut a);
    assert_eq!(a.parts_list_state.selected(), Some(2));
    a.parts_filter = "zzz".to_string();
    jump_to_bottom(&mut a);
    assert_eq!(a.parts_list_state.selected(), Some(2));
    jump_to_top(&mut a);
    assert_eq!(a.parts_list_state.selected(), Some(0));
    a.active_view = View::Export;
    jump_to_top(&mut a);
    jump_to_bottom(&mut a);
    assert_eq!(a.parts_list_state.selected(), Some(0));
}

#[test]
fn enter_in_the_list_of_profiles_activates_the_profile() {
    let mut a = app();
    a.active_view = View::Profiles;
    a.profile_list_state.select(Some(1));
    assert!(matches!(key(&mut a, Key::Enter), Step::Continue));
    assert_eq!(a.active_profile_index, 1);
    assert_eq!(a.status, "profile: home");
    a.profile_list_state.select(Some(5));
    a.status.clear();
    activate_selection(&mut a);
    assert_eq!(a.active_profile_index, 1);
    assert_eq!(a.status, "");
}

#[test]
fn enter_in_the_list_of_variables_shows_the_parts() {
    let mut a = app();
    a.vars_list_state.select(Some(2));
    key(&mut a, Key::Enter);
    assert_eq!(a.selected_var_name.as_deref(), Some("CFLAGS"));
    assert_eq!(a.active_view, View::Parts);
    assert_eq!(a.status, "selected var: CFLAGS");
    key(&mut a, Key::Enter);
    assert_eq!(a.active_view, View::Parts);
}

#[test]
fn slash_opens_the_search_on_lists_only() {
    let mut a = app();
    a.command_input = "old".to_string();
    press(&mut a, '/');
    assert_eq!(a.input_mode, InputMode::Search);
    assert_eq!(a.search_target, View::Vars);
    assert_eq!(a.command_input, "");
    let mut b = app();
    b.active_view = View::Preview;
    press(&mut b, '/');
    assert_eq!(b.input_mode, InputMode::Normal);
}

#[test]
fn search_keys_filter_at_once() {
    let mut a = app();
    press(&mut a, '/');
    press(&mut a, 'f');
    press(&mut a, 'l');
    press(&mut a, 'x');
    assert_eq!(a.vars_filter, "flx");
    key(&mut a, Key::Backspace);
    assert_eq!(a.vars_filter, "fl");
    assert_eq!(a.command_input, "fl");
    key(&mut a, Key::Tab);
    assert_eq!(a.vars_filter, "fl");
    assert!(matches!(key(&mut a, Key::Enter), Step::Continue));
    assert_eq!(a.input_mode, InputMode::Normal);
    assert_eq!(a.vars_filter, "fl");
    assert_eq!(a.command_input, "");
    // 'q' typed while searching is text, not quit.
    press(&mut a, '/');
    assert!(matches!(press(&mut a, 'q'), Step::Continue));
    assert_eq!(a.vars_filter, "q");
    key(&mut a, Key::Esc);
    assert_eq!(a.input_mode, InputMode::Normal);
    assert_eq!(a.vars_filter, "");
    assert_eq!(a.command_input, "");
}

#[test]
fn live_filter_goes_to_the_list_that_is_searched() {
    let mut a = app();
    for (target, pick) in [
        (View::Profiles, 0),
        (View::Vars, 1),
        (View::Defs, 2),
        (View::Parts, 3),
        (View::Items, 4),
    ] {
        a.search_target = target;
        apply_live_filter(&mut a, "q");
        let filters = [
            &a.profiles_filter,
            &a.vars_filter,
            &a.defs_filter,
            &a.parts_filter,
            &a.items_filter,
        ];
        assert_eq!(filters[pick], "q");
        apply_live_filter(&mut a, "");
    }
    a.search_target = View::Help;
    apply_live_filter(&mut a, "q");
    assert_eq!(a.profiles_filter, "");
    assert_eq!(a.items_filter, "");
}

#[test]
fn colon_opens_the_command_line() {
    let mut a = app();
    a.command_input = "old".to_string();
    a.command_selected = 3;
    press(&mut a, ':');
    assert_eq!(a.input_mode, InputMode::Command);
    assert_eq!(a.command_input, "");
    assert_eq!(a.command_selected, 0);
    assert_eq!(a.command_suggestions.len(), 14);
}

#[test]
fn command_line_types_completes_and_runs() {
    let mut a = app();
    press(&mut a, ':');
    press(&mut a, 'p');
    press(&mut a, 'r');
    assert_eq!(a.command_suggestions, vec!["preview", "profiles"]);
    key(&mut a, Key::Down);
    assert_eq!(a.command_selected, 1);
    key(&mut a, Key::Down);
    assert_eq!(a.command_selected, 1);
    key(&mut a, Key::Up);
    key(&mut a, Key::Up);
    assert_eq!(a.command_selected, 0);
    key(&mut a, Key::Down);
    key(&mut a, Key::Tab);
    assert_eq!(a.command_input, "profiles");
    assert_eq!(a.command_suggestions, vec!["profiles"]);
    assert_eq!(a.command_selected, 0);
    key(&mut a, Key::Backspace);
    assert_eq!(a.command_input, "profile");
    assert!(matches!(key(&mut a, Key::Enter), Step::Continue));
    assert_eq!(a.active_view, View::Profiles);
    assert_eq!(a.input_mode, InputMode::Normal);
}

#[test]
fn command_line_steps() {
    let mut a = app();
    a.input_mode = InputMode::Command;
    a.command_input = "quit".to_string();
    assert!(matches!(key(&mut a, Key::Enter), Step::Quit));
    let mut a = app();
    a.input_mode = InputMode::Command;
    a.command_input = "new-var".to_string();
    assert!(matches!(
        key(&mut a, Key::Enter),
        Step::Ask(Dialog::NewVarDef)
    ));
    let mut a = app();
    a.input_mode = InputMode::Command;
    a.command_input = "new-item".to_string();
    assert!(matches!(key(&mut a, Key::Enter), Step::Ask(Dialog::NewItem)));
    let mut a = app();
    a.input_mode = InputMode::Command;
    a.command_input = "theme dark".to_string();
    match key(&mut a, Key::Enter) {
        Step::SetTheme(name) => assert_eq!(name, "dark"),
        other => panic!("unexpected step: {:?}", other),
    }
    let mut a = app();
    a.input_mode = InputMode::Command;
    a.command_input = "themes".to_string();
    key(&mut a, Key::Enter);
    assert_eq!(a.status, "2 themes available (use :theme <name>)");
    let mut a = app();
    press(&mut a, ':');
    assert!(matches!(key(&mut a, Key::Esc), Step::Continue));
    assert_eq!(a.input_mode, InputMode::Normal);
    a.input_mode = InputMode::Command;
    assert!(matches!(key(&mut a, Key::Home), Step::Continue));
}

#[test]
fn escape_clears_the_status_and_lets_go() {
    let mut a = app();
    a.status = "something".to_string();
    a.holding = Some(Holding::Item(item(None, "x")));
    assert!(matches!(key(&mut a, Key::Esc), Step::Continue));
    assert_eq!(a.status, "");
    assert!(a.holding.is_none());
}

#[test]
fn escape_puts_a_moving_part_back() {
    let mut a = app();
    a.active_view = View::Parts;
    a.parts_list_state.select(Some(1));
    let step = press(&mut a, 'm');
    assert!(saves_active(&step));
    // The parts that are left stand together where the first part stood.
    assert_eq!(
        texts(&a),
        vec!["PATH: /a ( )", "PATH: /c ( )", "CFLAGS: -O2"]
    );
    assert_eq!(a.status, "moving part (navigate, p:drop, Esc:cancel)");
    match &a.holding {
        Some(Holding::Part { var, from, entry }) => {
            assert_eq!(var, "PATH");
            assert_eq!(*from, 1);
            assert_eq!(entry.display_value(), "/b");
        }
        other => panic!("unexpected holding: {:?}", other),
    }
    let step = key(&mut a, Key::Esc);
    assert!(saves_active(&step));
    assert!(a.holding.is_none());
    assert_eq!(a.status, "cancelled move");
    assert_eq!(
        texts(&a),
        vec!["PATH: /a ( )", "PATH: /b ( )", "PATH: /c ( )", "CFLAGS: -O2"]
    );
}

#[test]
fn escape_puts_a_part_at_the_end_of_a_shorter_list() {
    let mut a = app();
    a.holding = Some(Holding::Part {
        var: "CFLAGS".to_string(),
        from: 7,
        entry: cflag("-g"),
    });
    key(&mut a, Key::Esc);
    assert_eq!(
        texts(&a),
        vec![
            "PATH: /a ( )",
            "CFLAGS: -O2",
            "CFLAGS: -g",
            "PATH: /b ( )",
            "PATH: /c ( )"
        ]
    );
}

#[test]
fn profile_keys_ask() {
    let mut a = app();
    a.active_view = View::Profiles;
    a.profile_list_state.select(Some(1));
    assert!(matches!(press(&mut a, 'A'), Step::Ask(Dialog::AddProfile)));
    match press(&mut a, 'E') {
        Step::Ask(Dialog::RenameProfile { index, current }) => {
            assert_eq!(index, 1);
            assert_eq!(current, "home");
        }
        other => panic!("unexpected step: {:?}", other),
    }
    assert!(matches!(
        press(&mut a, 'D'),
        Step::Ask(Dialog::DeleteProfile { index: 1 })
    ));
    a.profile_list_state.select(None);
    assert!(matches!(press(&mut a, 'E'), Step::Continue));
    assert!(matches!(press(&mut a, 'D'), Step::Continue));
    assert!(matches!(press(&mut a, 'A'), Step::Ask(Dialog::AddProfile)));
    a.active_view = View::Vars;
    assert!(matches!(press(&mut a, 'A'), Step::Continue));
}

#[test]
fn finishing_add_profile() {
    let mut a = app();
    assert!(matches!(finish_add_profile(&mut a, None), Step::Continue));
    assert_eq!(a.profiles.len(), 2);
    let step = finish_add_profile(&mut a, Some("play".to_string()));
    assert!(matches!(step, Step::Store(StoreAction::SaveProfile(2))));
    assert_eq!(a.profiles.len(), 3);
    assert_eq!(a.profiles[2].name, "play");
    assert!(a.profiles[2].entries.is_empty());
    assert_eq!(a.active_profile_index, 2);
    assert_eq!(a.status, "added profile: play");
}

#[test]
fn finishing_rename_profile() {
    let mut a = app();
    assert!(matches!(
        finish_rename_profile(&mut a, 0, "work", None),
        Ok(Step::Continue)
    ));
    match finish_rename_profile(&mut a, 0, "work", Some("job".to_string())) {
        Ok(Step::Store(StoreAction::RenameProfile { old_name, new_name })) => {
            assert_eq!(old_name, "work");
            assert_eq!(new_name, "job");
        }
        other => panic!("unexpected outcome: {:?}", other),
    }
    assert_eq!(a.profiles[0].name, "job");
    assert_eq!(a.profiles[0].entries.len(), 4);
    assert_eq!(a.status, "renamed profile: work -> job");
    a.status.clear();
    assert!(matches!(
        finish_rename_profile(&mut a, 0, "job", Some("home".to_string())),
        Err(StoreError::RenameConflict)
    ));
    assert_eq!(a.profiles[0].name, "job");
    assert_eq!(a.profiles[1].name, "home");
    assert_eq!(a.status, "");
    assert!(matches!(
        finish_rename_profile(&mut a, 0, "job", Some("job".to_string())),
        Ok(Step::Store(StoreAction::Nothing))
    ));
    assert_eq!(a.status, "renamed profile: job -> job");
}

#[test]
fn finishing_delete_profile() {
    let mut a = app();
    assert!(matches!(
        finish_delete_profile(&mut a, 1, false),
        Step::Continue
    ));
    assert_eq!(a.profiles.len(), 2);
    match finish_delete_profile(&mut a, 1, true) {
        Step::Store(StoreAction::DeleteProfile(name)) => assert_eq!(name, "home"),
        other => panic!("unexpected step: {:?}", other),
    }
    assert_eq!(a.profiles.len(), 1);
    assert_eq!(a.status, "deleted profile: home");
    assert!(matches!(
        finish_delete_profile(&mut a, 0, true),
        Step::Store(StoreAction::Nothing)
    ));
    assert_eq!(a.profiles.len(), 1);
    assert_eq!(a.status, "deleted profile: work");
}

#[test]
fn defs_key_asks_for_a_definition() {
    let mut a = app();
    a.active_view = View::Defs;
    assert!(matches!(press(&mut a, 'C'), Step::Ask(Dialog::NewVarDef)));
    assert!(matches!(press(&mut a, 'c'), Step::Continue));
    a.active_view = View::Vars;
    assert!(matches!(press(&mut a, 'C'), Step::Continue));
}

#[test]
fn finishing_new_var_def() {
    let mut a = app();
    assert!(matches!(finish_new_var_def(&mut a, None), Step::Continue));
    assert_eq!(a.status, "");
    let def = CustomVarDef {
        name: "NEW".to_string(),
        kind: VarKind::Scalar,
        separator: String::new(),
    };
    match finish_new_var_def(&mut a, Some(def)) {
        Step::Store(StoreAction::SaveCustomVarDef(d)) => {
            assert_eq!(d.name, "NEW");
            assert_eq!(d.kind, VarKind::Scalar);
        }
        other => panic!("unexpected step: {:?}", other),
    }
    assert_eq!(a.status, "saved var def: NEW");
}

#[test]
fn item_keys() {
    let mut a = app();
    a.active_view = View::Items;
    assert!(matches!(press(&mut a, 'a'), Step::Ask(Dialog::NewItem)));
    match press(&mut a, 'e') {
        Step::Ask(Dialog::EditItem { initial }) => {
            assert_eq!(initial.id, Some(1));
            assert_eq!(initial.value, "/opt/one");
        }
        other => panic!("unexpected step: {:?}", other),
    }
    assert!(matches!(
        press(&mut a, 'd'),
        Step::Ask(Dialog::DeleteItem { id: 1 })
    ));
    match press(&mut a, 'y') {
        Step::Store(StoreAction::SaveItem(dup)) => {
            assert_eq!(dup.id, None);
            assert_eq!(dup.value, "/opt/one");
        }
        other => panic!("unexpected step: {:?}", other),
    }
    assert_eq!(a.status, "duplicated item");
    assert!(matches!(press(&mut a, 'm'), Step::Continue));
    assert_eq!(a.status, "picked item");
    assert!(matches!(&a.holding, Some(Holding::Item(it)) if it.value == "/opt/one"));
    a.items_list_state.select(Some(1));
    assert!(matches!(press(&mut a, 'd'), Step::Continue));
    a.items_list_state.select(Some(2));
    for c in ['e', 'd', 'y', 'm'] {
        assert!(matches!(press(&mut a, c), Step::Continue));
    }
    assert!(matches!(press(&mut a, 'a'), Step::Ask(Dialog::NewItem)));
}

#[test]
fn dropping_an_item_into_the_current_variable() {
    let mut a = app();
    a.active_view = View::Items;
    a.items_list_state.select(Some(1));
    let step = press(&mut a, 'p');
    assert!(saves_active(&step));
    assert_eq!(texts(&a).last().map(|s| s.as_str()), Some("PATH: /opt/two ( )"));
    assert_eq!(a.status, "dropped into PATH");
    a.selected_var_name = Some("CC".to_string());
    assert!(matches!(press(&mut a, 'p'), Step::Continue));
    assert_eq!(a.status, "cannot drop into scalar var");
    assert_eq!(texts(&a).len(), 5);
    a.selected_var_name = Some("MY_LIST".to_string());
    a.items_list_state.select(Some(0));
    press(&mut a, 'p');
    match a.profiles[0].entries.last() {
        Some(Entry::CustomPart {
            name,
            value,
            separator,
        }) => {
            assert_eq!(name, "MY_LIST");
            assert_eq!(value, "/opt/one");
            assert_eq!(separator, ";");
        }
        other => panic!("unexpected entry: {:?}", other),
    }
    a.selected_var_name = None;
    a.items_list_state.select(None);
    a.status.clear();
    assert!(matches!(press(&mut a, 'p'), Step::Continue));
    assert_eq!(a.status, "");
}

#[test]
fn finishing_the_item_form() {
    let mut a = app();
    assert!(matches!(
        finish_item_form(&mut a, None, false),
        Step::Continue
    ));
    assert!(matches!(
        finish_item_form(&mut a, Some(item(None, "v")), false),
        Step::Store(StoreAction::SaveItem(_))
    ));
    assert_eq!(a.status, "saved item: v");
    assert!(matches!(
        finish_item_form(&mut a, Some(item(Some(3), "w")), true),
        Step::Store(StoreAction::SaveItem(_))
    ));
    assert_eq!(a.status, "updated item: w");
}

#[test]
fn finishing_delete_item() {
    let mut a = app();
    assert!(matches!(
        finish_delete_item(&mut a, 4, false),
        Step::Continue
    ));
    assert_eq!(a.status, "");
    assert!(matches!(
        finish_delete_item(&mut a, 4, true),
        Step::Store(StoreAction::DeleteItem(4))
    ));
    assert_eq!(a.status, "deleted item");
}

#[test]
fn dropping_a_held_item_into_the_variable_under_the_cursor() {
    let mut a = app();
    assert!(matches!(press(&mut a, 'p'), Step::Continue));
    a.holding = Some(Holding::Item(item(None, "-Wall")));
    a.vars_list_state.select(Some(1));
    assert!(matches!(press(&mut a, 'p'), Step::Continue));
    assert_eq!(a.status, "cannot drop into scalar var");
    assert!(a.holding.is_some());
    a.vars_list_state.select(Some(2));
    let step = press(&mut a, 'p');
    assert!(saves_active(&step));
    assert_eq!(texts(&a).last().map(|s| s.as_str()), Some("CFLAGS: -Wall"));
    assert!(a.holding.is_none());
    assert_eq!(a.selected_var_name.as_deref(), Some("CFLAGS"));
    assert_eq!(a.status, "dropped into CFLAGS");
    a.holding = Some(Holding::Item(item(None, "x")));
    a.vars_list_state.select(Some(99));
    a.status.clear();
    assert!(matches!(press(&mut a, 'p'), Step::Continue));
    assert_eq!(a.status, "");
    a.holding = Some(Holding::Part {
        var: "PATH".to_string(),
        from: 0,
        entry: path_part("/z"),
    });
    a.vars_list_state.select(Some(2));
    assert!(matches!(press(&mut a, 'p'), Step::Continue));
    assert_eq!(texts(&a).len(), 5);
}

#[test]
fn part_keys_ask() {
    let mut a = app();
    a.active_view = View::Parts;
    match press(&mut a, 'a') {
        Step::Ask(Dialog::AddPart { var, option }) => {
            assert_eq!(var, "PATH");
            assert_eq!(option.name, "PATH");
            assert_eq!(option.kind, VarKind::List);
        }
        other => panic!("unexpected step: {:?}", other),
    }
    a.parts_list_state.select(Some(2));
    match press(&mut a, 'e') {
        Step::Ask(Dialog::EditPart {
            var,
            option,
            parts,
            index,
        }) => {
            assert_eq!(var, "PATH");
            assert_eq!(option.separator, ":");
            assert_eq!(parts.len(), 3);
            assert_eq!(index, 2);
            assert_eq!(parts[index].display_value(), "/c");
        }
        other => panic!("unexpected step: {:?}", other),
    }
    a.parts_list_state.select(Some(3));
    for c in ['e', 'd', 'y', 'K', 'J', 'm'] {
        assert!(matches!(press(&mut a, c), Step::Continue));
    }
    assert_eq!(texts(&a).len(), 4);
}

#[test]
fn part_keys_delete_and_duplicate() {
    let mut a = app();
    a.active_view = View::Parts;
    a.parts_list_state.select(Some(1));
    let step = press(&mut a, 'y');
    assert!(saves_active(&step));
    assert_eq!(
        texts(&a),
        vec![
            "PATH: /a ( )",
            "PATH: /b ( )",
            "PATH: /b ( )",
            "PATH: /c ( )",
            "CFLAGS: -O2"
        ]
    );
    assert_eq!(a.status, "duplicated part in PATH");
    a.parts_list_state.select(Some(0));
    let step = press(&mut a, 'd');
    assert!(saves_active(&step));
    assert_eq!(
        texts(&a),
        vec!["PATH: /b ( )", "PATH: /b ( )", "PATH: /c ( )", "CFLAGS: -O2"]
    );
    assert_eq!(a.status, "deleted part from PATH");
}

#[test]
fn part_keys_move_up_and_down() {
    let mut a = app();
    a.active_view = View::Parts;
    a.parts_list_state.select(Some(0));
    assert!(matches!(press(&mut a, 'K'), Step::Continue));
    let step = press(&mut a, 'J');
    assert!(saves_active(&step));
    assert_eq!(
        texts(&a),
        vec!["PATH: /b ( )", "PATH: /a ( )", "PATH: /c ( )", "CFLAGS: -O2"]
    );
    assert_eq!(a.parts_list_state.selected(), Some(1));
    assert_eq!(a.status, "moved part down in PATH");
    press(&mut a, 'J');
    assert_eq!(a.parts_list_state.selected(), Some(2));
    assert!(matches!(press(&mut a, 'J'), Step::Continue));
    assert_eq!(
        texts(&a),
        vec!["PATH: /b ( )", "PATH: /c ( )", "PATH: /a ( )", "CFLAGS: -O2"]
    );
    let step = press(&mut a, 'K');
    assert!(saves_active(&step));
    assert_eq!(a.parts_list_state.selected(), Some(1));
    assert_eq!(a.status, "moved part up in PATH");
    assert_eq!(
        texts(&a),
        vec!["PATH: /b ( )", "PATH: /a ( )", "PATH: /c ( )", "CFLAGS: -O2"]
    );
}

#[test]
fn part_keys_go_through_the_filter() {
    let mut a = app();
    a.active_view = View::Parts;
    a.parts_filter = "/c".to_string();
    a.parts_list_state.select(Some(0));
    press(&mut a, 'd');
    assert_eq!(
        texts(&a),
        vec!["PATH: /a ( )", "PATH: /b ( )", "CFLAGS: -O2"]
    );
}

#[test]
fn moving_a_part_to_another_variable() {
    let mut a = app();
    a.active_view = View::Parts;
    a.parts_list_state.select(Some(0));
    press(&mut a, 'm');
    a.selected_var_name = Some("CPATH".to_string());
    a.parts_list_state.select(Some(0));
    let step = press(&mut a, 'p');
    assert!(saves_active(&step));
    assert!(a.holding.is_none());
    assert_eq!(a.status, "moved part into CPATH");
    assert_eq!(
        texts(&a),
        vec!["PATH: /b ( )", "PATH: /c ( )", "CFLAGS: -O2", "CPATH: /a"]
    );
}

#[test]
fn dropping_into_the_parts_at_the_cursor() {
    let mut a = app();
    a.active_view = View::Parts;
    assert!(matches!(press(&mut a, 'p'), Step::Continue));
    a.holding = Some(Holding::Item(item(None, "/new")));
    a.parts_list_state.select(Some(1));
    let step = press(&mut a, 'p');
    assert!(saves_active(&step));
    assert_eq!(a.status, "dropped into PATH");
    assert_eq!(
        texts(&a),
        vec![
            "PATH: /a ( )",
            "PATH: /new ( )",
            "PATH: /b ( )",
            "PATH: /c ( )",
            "CFLAGS: -O2"
        ]
    );
    a.holding = Some(Holding::Item(item(None, "/last")));
    a.parts_list_state.select(None);
    press(&mut a, 'p');
    assert_eq!(
        texts(&a),
        vec![
            "PATH: /a ( )",
            "PATH: /new ( )",
            "PATH: /b ( )",
            "PATH: /c ( )",
            "PATH: /last ( )",
            "CFLAGS: -O2"
        ]
    );
    a.holding = Some(Holding::Item(item(None, "x")));
    a.selected_var_name = Some("LANG".to_string());
    assert!(matches!(press(&mut a, 'p'), Step::Continue));
    assert_eq!(a.status, "cannot drop into scalar var");
    assert!(a.holding.is_some());
}

#[test]
fn finishing_add_part() {
    let mut a = app();
    assert!(matches!(
        finish_add_part(&mut a, "PATH", VarKind::List, None),
        Step::Continue
    ));
    let step = finish_add_part(&mut a, "PATH", VarKind::List, Some(path_part("/n")));
    assert!(saves_active(&step));
    assert_eq!(a.status, "added part to PATH");
    assert_eq!(texts(&a).last().map(|s| s.as_str()), Some("PATH: /n ( )"));
    a.profiles[0].entries.push(Entry::CC("gcc".to_string()));
    a.profiles[0].entries.insert(0, Entry::CC("cc".to_string()));
    let step = finish_add_part(
        &mut a,
        "CC",
        VarKind::Scalar,
        Some(Entry::CC("clang".to_string())),
    );
    assert!(saves_active(&step));
    assert_eq!(a.status, "added part to CC");
    let all = texts(&a);
    assert_eq!(all[0], "CC: clang");
    assert_eq!(all.iter().filter(|t| t.starts_with("CC:")).count(), 1);
}

#[test]
fn finishing_edit_part() {
    let mut a = app();
    let parts = vec![path_part("/a"), path_part("/b"), path_part("/c")];
    assert!(matches!(
        finish_edit_part(&mut a, "PATH", parts, 1, None),
        Step::Continue
    ));
    let parts = vec![path_part("/a"), path_part("/b"), path_part("/c")];
    let step = finish_edit_part(&mut a, "PATH", parts, 1, Some(path_part("/edited")));
    assert!(saves_active(&step));
    assert_eq!(a.status, "edited part in PATH");
    assert_eq!(
        texts(&a),
        vec![
            "PATH: /a ( )",
            "PATH: /edited ( )",
            "PATH: /c ( )",
            "CFLAGS: -O2"
        ]
    );
}

#[test]
fn current_var_defaults_to_path() {
    let mut a = app();
    assert_eq!(current_var_name(&a), "PATH");
    a.selected_var_name = None;
    assert_eq!(current_var_name(&a), "PATH");
    a.selected_var_name = Some("CC".to_string());
    assert_eq!(current_var_name(&a), "CC");
}

use bath::config::{Entry, PathEntry, VarKind};
use bath::profile_editor::Outcome;
use bath::tui::editor::{
    entry_from_state, is_path_part, parts_list_hint, parts_list_title, EnvVarEditorState,
    FocusArea, PartsListEditor, PartsListStep,
};
use bath::tui::input::Key;
use bath::tui::state::{builtin_var_options, EditorStyle, VarTypeOption};

fn option(name: &str, kind: VarKind, separator: &str, editor: EditorStyle) -> VarTypeOption {
    VarTypeOption {
        name: name.to_string(),
        kind,
        separator: separator.to_string(),
        editor,
    }
}

fn type_text(s: &mut EnvVarEditorState, text: &str) {
    for c in text.chars() {
        assert!(matches!(s.key(Key::Char(c)), Outcome::Pending));
    }
}

#[test]
fn editor_update_filter_does_not_reset_selected_when_search_is_unchanged() {
    let options = builtin_var_options();
    let mut s = EnvVarEditorState::new(&options, None);

    // Force one filter refresh.
    s.search.push('c');
    s.update_filter();
    assert!(
        s.filtered.len() > 2,
        "expected enough options for selection test"
    );

    // Simulate user moving selection in the options list.
    s.selected = 2;

    // Subsequent draws call update_filter again; selection must not be reset.
    s.update_filter();
    assert_eq!(s.selected, 2);
}

#[test]
fn tui_app_update_filter_does_not_reset_selected_when_search_is_unchanged() {
    let options = builtin_var_options();
    let mut s = EnvVarEditorState::new(&options, None);

    // Force one filter refresh.
    s.search.push('c');
    s.update_filter();
    assert!(
        s.filtered.len() > 2,
        "expected enough options for selection test"
    );

    // Simulate user moving selection in the options list.
    s.selected = 2;

    // Subsequent draws call update_filter again; selection must not be reset.
    s.update_filter();
    assert_eq!(s.selected, 2);
}

#[test]
fn update_filter_keeps_matching_options_and_resets_the_cursor() {
    let options = builtin_var_options();
    let mut s = EnvVarEditorState::new(&options, None);
    s.selected = 5;
    s.search = "FLAG".to_string();
    s.update_filter();
    let names: Vec<&str> = s.filtered.iter().map(|o| o.name.as_str()).collect();
    assert_eq!(names, vec!["CPPFLAGS", "CFLAGS", "CXXFLAGS", "LDFLAGS"]);
    assert_eq!(s.selected, 0);
    assert_eq!(s.last_search, "FLAG");
}

#[test]
fn update_filter_shows_everything_when_nothing_matches() {
    let options = builtin_var_options();
    let mut s = EnvVarEditorState::new(&options, None);
    s.search = "no such variable".to_string();
    s.update_filter();
    assert_eq!(s.filtered.len(), options.len());
    assert_eq!(s.selected, 0);
}

#[test]
fn new_editor_is_empty_and_searches() {
    let options = builtin_var_options();
    let s = EnvVarEditorState::new(&options, None);
    assert_eq!(s.all_options.len(), 20);
    assert_eq!(s.filtered.len(), 20);
    assert_eq!(s.selected, 0);
    assert_eq!(s.search, "");
    assert_eq!(s.input, "");
    assert_eq!(s.path, "");
    assert_eq!(s.version, "");
    assert_eq!(s.tool, "");
    assert_eq!(s.active_input_field, 0);
    assert_eq!(s.focus, FocusArea::Search);
    assert_eq!(FocusArea::default(), FocusArea::Search);
}

#[test]
fn new_editor_on_a_path_part_fills_the_three_fields() {
    let options = builtin_var_options();
    let initial = Entry::Path(PathEntry {
        path: "/opt/gcc/bin".to_string(),
        program: "gcc".to_string(),
        version: "13".to_string(),
    });
    let s = EnvVarEditorState::new(&options, Some(&initial));
    assert_eq!(s.selected, 0);
    assert_eq!(s.path, "/opt/gcc/bin");
    assert_eq!(s.tool, "gcc");
    assert_eq!(s.version, "13");
    assert_eq!(s.input, "");
    assert_eq!(s.focus, FocusArea::Input);
}

#[test]
fn new_editor_on_a_simple_part_selects_its_variable() {
    let options = builtin_var_options();
    let initial = Entry::CFlag("-O2".to_string());
    let s = EnvVarEditorState::new(&options, Some(&initial));
    assert_eq!(s.selected, 9);
    assert_eq!(s.input, "-O2");
    assert_eq!(s.focus, FocusArea::Input);
    let custom = Entry::CustomPart {
        name: "UNLISTED".to_string(),
        value: "v".to_string(),
        separator: ";".to_string(),
    };
    let s = EnvVarEditorState::new(&options, Some(&custom));
    assert_eq!(s.selected, 0);
    assert_eq!(s.input, "v");
}

#[test]
fn is_path_part_looks_at_the_editor_style() {
    assert!(is_path_part(&option(
        "PATH",
        VarKind::List,
        ":",
        EditorStyle::PathPart
    )));
    assert!(!is_path_part(&option(
        "CPATH",
        VarKind::List,
        ":",
        EditorStyle::PartsList
    )));
    assert!(!is_path_part(&option(
        "CC",
        VarKind::Scalar,
        "",
        EditorStyle::Single
    )));
}

#[test]
fn entry_from_state_for_builtins_and_custom_variables() {
    let options = builtin_var_options();
    let mut s = EnvVarEditorState::new(&options, None);
    s.input = "value".to_string();
    s.path = "/p".to_string();
    s.version = "2".to_string();
    s.tool = "tool".to_string();
    match entry_from_state(&options[0], &s) {
        Entry::Path(p) => {
            assert_eq!(p.path, "/p");
            assert_eq!(p.version, "2");
            assert_eq!(p.program, "tool");
        }
        other => panic!("unexpected entry: {:?}", other),
    }
    for opt in &options[1..] {
        let e = entry_from_state(opt, &s);
        assert_eq!(e.var_name().as_ref(), opt.name);
        assert_eq!(e.display_value(), "value");
        assert!(!matches!(
            e,
            Entry::CustomPart { .. } | Entry::CustomScalar { .. } | Entry::Path(_)
        ));
    }
    let list = option("MY_LIST", VarKind::List, ";", EditorStyle::PartsList);
    match entry_from_state(&list, &s) {
        Entry::CustomPart {
            name,
            value,
            separator,
        } => {
            assert_eq!(name, "MY_LIST");
            assert_eq!(value, "value");
            assert_eq!(separator, ";");
        }
        other => panic!("unexpected entry: {:?}", other),
    }
    let scalar = option("MY_SCALAR", VarKind::Scalar, "", EditorStyle::Single);
    match entry_from_state(&scalar, &s) {
        Entry::CustomScalar { name, value } => {
            assert_eq!(name, "MY_SCALAR");
            assert_eq!(value, "value");
        }
        other => panic!("unexpected entry: {:?}", other),
    }
}

#[test]
fn editor_keys_search_then_pick_then_type() {
    let options = builtin_var_options();
    let mut s = EnvVarEditorState::new(&options, None);
    type_text(&mut s, "cx");
    assert_eq!(s.search, "cx");
    let names: Vec<&str> = s.filtered.iter().map(|o| o.name.as_str()).collect();
    assert_eq!(names, vec!["CXXFLAGS", "CXX"]);
    assert!(matches!(s.key(Key::Tab), Outcome::Pending));
    assert_eq!(s.focus, FocusArea::Options);
    assert!(matches!(s.key(Key::Down), Outcome::Pending));
    assert_eq!(s.selected, 1);
    assert!(matches!(s.key(Key::Down), Outcome::Pending));
    assert_eq!(s.selected, 1);
    type_text(&mut s, "ignored");
    assert_eq!(s.input, "");
    assert!(matches!(s.key(Key::Tab), Outcome::Pending));
    assert_eq!(s.focus, FocusArea::Input);
    type_text(&mut s, "g++x");
    assert!(matches!(s.key(Key::Backspace), Outcome::Pending));
    assert_eq!(s.input, "g++");
    assert_eq!(s.preview(), "export CXX=\"g++${CXX:+ ${CXX}}\";");
    match s.key(Key::Enter) {
        Outcome::Finished(Entry::CXX(v)) => assert_eq!(v, "g++"),
        other => panic!("unexpected outcome: {:?}", other),
    }
    assert!(matches!(s.key(Key::Tab), Outcome::Pending));
    assert_eq!(s.focus, FocusArea::Search);
    assert!(matches!(s.key(Key::Esc), Outcome::Cancelled));
}

#[test]
fn editor_keys_on_a_path_go_from_field_to_field() {
    let options = builtin_var_options();
    let mut s = EnvVarEditorState::new(&options, None);
    s.focus = FocusArea::Input;
    assert!(s.on_path());
    type_text(&mut s, "/a");
    s.key(Key::Down);
    assert_eq!(s.active_input_field, 1);
    type_text(&mut s, "1.2");
    s.key(Key::Down);
    assert_eq!(s.active_input_field, 2);
    type_text(&mut s, "gccc");
    s.key(Key::Backspace);
    s.key(Key::Down);
    assert_eq!(s.active_input_field, 2);
    assert_eq!(s.path, "/a");
    assert_eq!(s.version, "1.2");
    assert_eq!(s.tool, "gcc");
    assert_eq!(s.path_field_line(0), "  Path: /a");
    assert_eq!(s.path_field_line(1), "  Version: 1.2");
    assert_eq!(s.path_field_line(2), "> Tool Name: gcc");
    s.key(Key::Up);
    s.key(Key::Up);
    s.key(Key::Up);
    assert_eq!(s.active_input_field, 0);
    assert_eq!(s.preview(), "export PATH=\"/a${PATH:+:${PATH}}\";");
    match s.key(Key::Enter) {
        Outcome::Finished(Entry::Path(p)) => {
            assert_eq!(p.path, "/a");
            assert_eq!(p.version, "1.2");
            assert_eq!(p.program, "gcc");
        }
        other => panic!("unexpected outcome: {:?}", other),
    }
}

#[test]
fn editor_backspace_in_the_search_widens_the_list() {
    let options = builtin_var_options();
    let mut s = EnvVarEditorState::new(&options, None);
    type_text(&mut s, "lang");
    assert_eq!(s.filtered.len(), 1);
    for _ in 0..4 {
        s.key(Key::Backspace);
    }
    assert_eq!(s.search, "");
    assert_eq!(s.filtered.len(), 20);
    s.key(Key::Backspace);
    assert_eq!(s.search, "");
}

#[test]
fn editor_up_in_the_options_stops_at_the_first_row() {
    let options = builtin_var_options();
    let mut s = EnvVarEditorState::new(&options, None);
    s.focus = FocusArea::Options;
    s.key(Key::Up);
    assert_eq!(s.selected, 0);
    s.key(Key::Down);
    s.key(Key::Down);
    s.key(Key::Up);
    assert_eq!(s.selected, 1);
    s.key(Key::Other);
    s.key(Key::Home);
    assert_eq!(s.selected, 1);
}

#[test]
fn editor_preview_without_a_variable_is_that_of_cflags() {
    let mut s = EnvVarEditorState::new(&[], None);
    s.input = "-O2".to_string();
    assert!(!s.on_path());
    assert_eq!(s.preview(), "export CFLAGS=\"-O2${CFLAGS:+ ${CFLAGS}}\";");
    assert_eq!(s.input_title(), "Enter value for ...");
    let options = builtin_var_options();
    let mut t = EnvVarEditorState::new(&options, None);
    t.selected = 13;
    assert_eq!(t.input_title(), "Enter value for CC");
}

#[test]
fn parts_list_editor_moves_deletes_and_asks() {
    let parts = vec![
        Entry::CFlag("1".to_string()),
        Entry::CFlag("2".to_string()),
        Entry::CFlag("3".to_string()),
    ];
    let mut e = PartsListEditor::new(&parts);
    let values = |e: &PartsListEditor| -> Vec<String> {
        e.parts.iter().map(|p| p.display_value()).collect()
    };
    assert_eq!(e.selected, 0);
    assert!(matches!(e.key(Key::Up), PartsListStep::Pending));
    assert_eq!(e.selected, 0);
    assert!(matches!(e.key(Key::Char('K')), PartsListStep::Pending));
    assert_eq!(values(&e), vec!["1", "2", "3"]);
    assert!(matches!(e.key(Key::Char('J')), PartsListStep::Pending));
    assert_eq!(values(&e), vec!["2", "1", "3"]);
    assert_eq!(e.selected, 1);
    e.key(Key::Down);
    assert_eq!(e.selected, 2);
    e.key(Key::Down);
    assert_eq!(e.selected, 2);
    e.key(Key::Char('J'));
    assert_eq!(values(&e), vec!["2", "1", "3"]);
    e.key(Key::Char('K'));
    assert_eq!(values(&e), vec!["2", "3", "1"]);
    assert_eq!(e.selected, 1);
    assert!(matches!(e.key(Key::Char('e')), PartsListStep::AskEdit(1)));
    e.edited(1, Some(Entry::CFlag("x".to_string())));
    assert_eq!(values(&e), vec!["2", "x", "1"]);
    e.edited(1, None);
    assert_eq!(values(&e), vec!["2", "x", "1"]);
    assert!(matches!(e.key(Key::Char('a')), PartsListStep::AskNew));
    e.added(None);
    assert_eq!(e.selected, 1);
    e.added(Some(Entry::CFlag("new".to_string())));
    assert_eq!(values(&e), vec!["2", "x", "1", "new"]);
    assert_eq!(e.selected, 3);
    e.key(Key::Char('d'));
    assert_eq!(values(&e), vec!["2", "x", "1"]);
    assert_eq!(e.selected, 2);
    e.key(Key::Up);
    e.key(Key::Up);
    e.key(Key::Char('d'));
    assert_eq!(values(&e), vec!["x", "1"]);
    assert_eq!(e.selected, 0);
    assert!(matches!(e.key(Key::Enter), PartsListStep::Finished));
    assert!(matches!(e.key(Key::Esc), PartsListStep::Cancelled));
    assert!(matches!(e.key(Key::Char('z')), PartsListStep::Pending));
}

#[test]
fn parts_list_editor_on_nothing() {
    let mut e = PartsListEditor::new(&[]);
    for key in [
        Key::Down,
        Key::Up,
        Key::Char('d'),
        Key::Char('K'),
        Key::Char('J'),
        Key::Char('e'),
    ] {
        assert!(matches!(e.key(key), PartsListStep::Pending));
        assert!(e.parts.is_empty());
        assert_eq!(e.selected, 0);
    }
}

#[test]
fn parts_list_title_and_hint() {
    let var = option("CFLAGS", VarKind::List, " ", EditorStyle::PartsList);
    assert_eq!(
        parts_list_title(&var),
        "CFLAGS parts (a:add, e:edit, d:delete, J/K:move, Enter:save, Esc:cancel)"
    );
    assert_eq!(
        parts_list_hint(&var),
        "Export preview uses separator ' ' and produces one export line."
    );
}

use bath::config::{CatalogItem, CustomVarDef, Entry, EnvProfile, ItemKind, PathEntry, VarKind};
use bath::tui::select::{
    clamp_list_state, compute_def_rows, compute_var_rows, current_var_parts, make_part_entry,
    preview_value, selected_item_index, selected_profile_index, var_option_for,
    visible_item_indices, visible_part_indices, visible_profile_indices,
};
use bath::tui::state::{AppState, EditorStyle, ListState};
use bath::tui::theme::BathConfig;

fn path_part(path: &str) -> Entry {
    Entry::Path(PathEntry {
        path: path.to_string(),
        program: "tool".to_string(),
        version: "1".to_string(),
    })
}

fn item(value: &str, tags: &[&str]) -> CatalogItem {
    CatalogItem {
        id: None,
        kind: ItemKind::Text,
        value: value.to_string(),
        program: None,
        version: None,
        tags: tags.iter().map(|t| t.to_string()).collect(),
    }
}

fn def(name: &str, kind: VarKind, separator: &str) -> CustomVarDef {
    CustomVarDef {
        name: name.to_string(),
        kind,
        separator: separator.to_string(),
    }
}

fn app_with(entries: Vec<Entry>, defs: Vec<CustomVarDef>, items: Vec<CatalogItem>) -> AppState {
    AppState::new(
        vec![
            EnvProfile {
                name: "work".to_string(),
                entries,
            },
            EnvProfile::new("Home"),
            EnvProfile::new("homework"),
        ],
        defs,
        items,
        BathConfig::default(),
        "dracula".to_string(),
        "dracula".to_string(),
    )
    .0
}

#[test]
fn clamp_list_state_pulls_the_cursor_into_the_list() {
    let mut s = ListState::at(Some(7));
    clamp_list_state(&mut s, 3);
    assert_eq!(s.selected(), Some(2));
    clamp_list_state(&mut s, 5);
    assert_eq!(s.selected(), Some(2));
    clamp_list_state(&mut s, 0);
    assert_eq!(s.selected(), None);
    clamp_list_state(&mut s, 4);
    assert_eq!(s.selected(), Some(0));
    let mut t = ListState::at(Some(0));
    clamp_list_state(&mut t, 1);
    assert_eq!(t.selected(), Some(0));
}

#[test]
fn current_var_parts_are_the_entries_of_one_variable_in_order() {
    let app = app_with(
        vec![
            path_part("/a"),
            Entry::CFlag("-O2".to_string()),
            path_part("/b"),
            Entry::CustomPart {
                name: "PATH".to_string(),
                value: "/c".to_string(),
                separator: ";".to_string(),
            },
        ],
        vec![],
        vec![],
    );
    let parts: Vec<String> = current_var_parts(&app, "PATH")
        .iter()
        .map(preview_value)
        .collect();
    assert_eq!(parts, vec!["/a", "/b", "/c"]);
    assert_eq!(current_var_parts(&app, "CFLAGS").len(), 1);
    assert!(current_var_parts(&app, "CC").is_empty());
}

#[test]
fn var_rows_are_sorted_by_name_and_counted() {
    let app = app_with(
        vec![
            path_part("/a"),
            Entry::CFlag("-O2".to_string()),
            path_part("/b"),
            Entry::CustomPart {
                name: "ZZ_UNKNOWN".to_string(),
                value: "v".to_string(),
                separator: ",".to_string(),
            },
            Entry::CustomScalar {
                name: "AAA".to_string(),
                value: "v".to_string(),
            },
            Entry::CustomScalar {
                name: "AAA".to_string(),
                value: "w".to_string(),
            },
        ],
        vec![def("MY_LIST", VarKind::List, ";")],
        vec![],
    );
    let rows = compute_var_rows(&app);
    let names: Vec<&str> = rows.iter().map(|r| r.name.as_str()).collect();
    let mut sorted = names.clone();
    sorted.sort();
    assert_eq!(names, sorted);
    assert_eq!(rows.len(), 23);
    assert_eq!(names[0], "AAA");
    assert_eq!(names[22], "ZZ_UNKNOWN");
    let by_name = |n: &str| rows.iter().find(|r| r.name == n).expect("row");
    assert_eq!(by_name("PATH").count, 2);
    assert_eq!(by_name("PATH").separator, ":");
    assert_eq!(by_name("CFLAGS").count, 1);
    assert_eq!(by_name("CC").count, 0);
    assert_eq!(by_name("CC").kind, VarKind::Scalar);
    assert_eq!(by_name("MY_LIST").count, 0);
    assert_eq!(by_name("MY_LIST").separator, ";");
    assert_eq!(by_name("ZZ_UNKNOWN").count, 1);
    assert_eq!(by_name("ZZ_UNKNOWN").kind, VarKind::List);
    assert_eq!(by_name("ZZ_UNKNOWN").separator, ",");
    assert_eq!(by_name("AAA").count, 2);
    assert_eq!(by_name("AAA").kind, VarKind::List);
    assert_eq!(by_name("AAA").separator, " ");
}

#[test]
fn var_rows_follow_the_filter() {
    let mut app = app_with(vec![], vec![], vec![]);
    app.vars_filter = "flag".to_string();
    let names: Vec<String> = compute_var_rows(&app)
        .iter()
        .map(|r| r.name.clone())
        .collect();
    assert_eq!(names, vec!["CFLAGS", "CPPFLAGS", "CXXFLAGS", "LDFLAGS"]);
    app.vars_filter = "nothing matches".to_string();
    assert!(compute_var_rows(&app).is_empty());
}

#[test]
fn def_rows_are_sorted_and_filtered() {
    let mut app = app_with(vec![], vec![def("AAA", VarKind::Scalar, "")], vec![]);
    let rows = compute_def_rows(&app);
    assert_eq!(rows.len(), 21);
    assert_eq!(rows[0].name, "AAA");
    assert_eq!(rows[0].editor, EditorStyle::Single);
    assert_eq!(rows[1].name, "AR");
    app.defs_filter = "include".to_string();
    let names: Vec<String> = compute_def_rows(&app)
        .iter()
        .map(|r| r.name.clone())
        .collect();
    assert_eq!(
        names,
        vec!["CPLUS_INCLUDE_PATH", "C_INCLUDE_PATH", "OBJC_INCLUDE_PATH"]
    );
}

#[test]
fn visible_part_indices_follow_the_filter_on_the_line() {
    let mut app = app_with(vec![], vec![], vec![]);
    let parts = vec![
        path_part("/opt/gcc"),
        path_part("/usr/bin"),
        path_part("/opt/GCC-13"),
    ];
    assert_eq!(visible_part_indices(&app, &parts), vec![0, 1, 2]);
    app.parts_filter = "gcc".to_string();
    assert_eq!(visible_part_indices(&app, &parts), vec![0, 2]);
    app.parts_filter = "path:".to_string();
    assert_eq!(visible_part_indices(&app, &parts), vec![0, 1, 2]);
    app.parts_filter = "tool 1".to_string();
    assert_eq!(visible_part_indices(&app, &parts), vec![0, 1, 2]);
    app.parts_filter = "zzz".to_string();
    assert_eq!(visible_part_indices(&app, &parts), Vec::<usize>::new());
}

#[test]
fn visible_item_indices_look_at_value_and_tags() {
    let mut app = app_with(
        vec![],
        vec![],
        vec![
            item("/opt/bin", &["core"]),
            item("/usr/lib", &["Libs", "core"]),
            item("-O2", &[]),
        ],
    );
    assert_eq!(visible_item_indices(&app), vec![0, 1, 2]);
    app.items_filter = "CORE".to_string();
    assert_eq!(visible_item_indices(&app), vec![0, 1]);
    app.items_filter = "lib".to_string();
    assert_eq!(visible_item_indices(&app), vec![1]);
    app.items_filter = "-o".to_string();
    assert_eq!(visible_item_indices(&app), vec![2]);
    app.items_filter = "none".to_string();
    assert!(visible_item_indices(&app).is_empty());
}

#[test]
fn visible_profile_indices_and_the_profile_under_the_cursor() {
    let mut app = app_with(vec![], vec![], vec![]);
    assert_eq!(visible_profile_indices(&app), vec![0, 1, 2]);
    assert_eq!(selected_profile_index(&app), Some(0));
    app.profiles_filter = "home".to_string();
    assert_eq!(visible_profile_indices(&app), vec![1, 2]);
    assert_eq!(selected_profile_index(&app), Some(1));
    app.profile_list_state.select(Some(1));
    assert_eq!(selected_profile_index(&app), Some(2));
    app.profile_list_state.select(Some(2));
    assert_eq!(selected_profile_index(&app), None);
    app.profile_list_state.select(None);
    assert_eq!(selected_profile_index(&app), None);
}

#[test]
fn selected_item_index_goes_through_the_filter() {
    let mut app = app_with(
        vec![],
        vec![],
        vec![item("a", &[]), item("b", &[]), item("ab", &[])],
    );
    app.items_filter = "b".to_string();
    app.items_list_state.select(Some(1));
    assert_eq!(selected_item_index(&app), Some(2));
    app.items_list_state.select(Some(2));
    assert_eq!(selected_item_index(&app), None);
}

#[test]
fn preview_value_is_the_exported_value() {
    assert_eq!(preview_value(&path_part("/x")), "/x");
    assert_eq!(preview_value(&Entry::CC("gcc".to_string())), "gcc");
}

#[test]
fn make_part_entry_for_builtins() {
    let app = app_with(vec![], vec![], vec![]);
    let made = make_part_entry(&app, "PATH", "/x".to_string()).expect("an entry");
    match &made {
        Entry::Path(p) => {
            assert_eq!(p.path, "/x");
            assert_eq!(p.program, "");
            assert_eq!(p.version, "");
        }
        other => panic!("unexpected entry: {:?}", other),
    }
    let names = [
        "CPATH",
        "C_INCLUDE_PATH",
        "CPLUS_INCLUDE_PATH",
        "OBJC_INCLUDE_PATH",
        "CPPFLAGS",
        "CFLAGS",
        "CXXFLAGS",
        "LDFLAGS",
        "LIBRARY_PATH",
        "LD_LIBRARY_PATH",
        "LD_RUN_PATH",
        "RANLIB",
        "CC",
        "CXX",
        "AR",
        "STRIP",
        "GCC_EXEC_PREFIX",
        "COLLECT_GCC_OPTIONS",
        "LANG",
    ];
    for name in names {
        let made = make_part_entry(&app, name, "v".to_string()).expect("an entry");
        assert_eq!(made.var_name().as_ref(), name);
        assert_eq!(made.display_value(), "v");
        assert!(
            !matches!(
                made,
                Entry::CustomPart { .. } | Entry::CustomScalar { .. } | Entry::Path(_)
            ),
            "{name} gave {made:?}"
        );
    }
}

#[test]
fn make_part_entry_for_custom_and_unknown_variables() {
    let app = app_with(
        vec![],
        vec![
            def("MY_LIST", VarKind::List, ";"),
            def("MY_SCALAR", VarKind::Scalar, ""),
            def("CC", VarKind::List, ","),
        ],
        vec![],
    );
    match make_part_entry(&app, "MY_LIST", "v".to_string()) {
        Some(Entry::CustomPart {
            name,
            value,
            separator,
        }) => {
            assert_eq!(name, "MY_LIST");
            assert_eq!(value, "v");
            assert_eq!(separator, ";");
        }
        other => panic!("unexpected entry: {:?}", other),
    }
    match make_part_entry(&app, "MY_SCALAR", "v".to_string()) {
        Some(Entry::CustomScalar { name, value }) => {
            assert_eq!(name, "MY_SCALAR");
            assert_eq!(value, "v");
        }
        other => panic!("unexpected entry: {:?}", other),
    }
    match make_part_entry(&app, "NOBODY", "v".to_string()) {
        Some(Entry::CustomPart {
            name,
            value,
            separator,
        }) => {
            assert_eq!(name, "NOBODY");
            assert_eq!(value, "v");
            assert_eq!(separator, ":");
        }
        other => panic!("unexpected entry: {:?}", other),
    }
    // A built-in shadows a custom definition of the same name.
    assert!(matches!(
        make_part_entry(&app, "CC", "gcc".to_string()),
        Some(Entry::CC(_))
    ));
}

#[test]
fn var_option_for_checks_builtins_first_then_custom_then_defaults() {
    let app = app_with(
        vec![],
        vec![
            def("PATH", VarKind::Scalar, "!"),
            def("MINE", VarKind::Scalar, ""),
        ],
        vec![],
    );
    let path = var_option_for(&app, "PATH");
    assert_eq!(path.kind, VarKind::List);
    assert_eq!(path.separator, ":");
    assert_eq!(path.editor, EditorStyle::PathPart);
    let mine = var_option_for(&app, "MINE");
    assert_eq!(mine.kind, VarKind::Scalar);
    assert_eq!(mine.editor, EditorStyle::Single);
    let unknown = var_option_for(&app, "WHO");
    assert_eq!(unknown.name, "WHO");
    assert_eq!(unknown.kind, VarKind::List);
    assert_eq!(unknown.separator, ":");
    assert_eq!(unknown.editor, EditorStyle::PartsList);
}

use bath::tui::panes::{show_view, BottomTab, FocusPane};
use bath::tui::view::View;

#[test]
fn view_titles() {
    assert_eq!(View::Profiles.title(), "Profiles");
    assert_eq!(View::Vars.title(), "Vars");
    assert_eq!(View::Parts.title(), "Parts");
    assert_eq!(View::Items.title(), "Items");
    assert_eq!(View::Defs.title(), "Defs");
    assert_eq!(View::Preview.title(), "Preview");
    assert_eq!(View::Export.title(), "Export");
    assert_eq!(View::Help.title(), "Help");
}

#[test]
fn views_with_a_list_are_filterable() {
    for v in [
        View::Profiles,
        View::Vars,
        View::Parts,
        View::Items,
        View::Defs,
    ] {
        assert!(v.is_filterable());
    }
    for v in [View::Preview, View::Export, View::Help] {
        assert!(!v.is_filterable());
    }
}

#[test]
fn views_cycle_through_all_eight() {
    let mut v = View::Profiles;
    let mut seen = vec![v];
    for _ in 0..7 {
        v = v.next();
        seen.push(v);
    }
    assert_eq!(
        seen,
        vec![
            View::Profiles,
            View::Vars,
            View::Parts,
            View::Items,
            View::Defs,
            View::Preview,
            View::Export,
            View::Help
        ]
    );
    assert_eq!(v.next(), View::Profiles);
}

#[test]
fn panes_cycle_through_all_four() {
    assert_eq!(FocusPane::Profiles.next(), FocusPane::Vars);
    assert_eq!(FocusPane::Vars.next(), FocusPane::Defs);
    assert_eq!(FocusPane::Defs.next(), FocusPane::Bottom);
    assert_eq!(FocusPane::Bottom.next(), FocusPane::Profiles);
}

#[test]
fn digits_choose_the_bottom_tab() {
    assert_eq!(BottomTab::of_digit('1'), Some(BottomTab::Parts));
    assert_eq!(BottomTab::of_digit('2'), Some(BottomTab::Items));
    assert_eq!(BottomTab::of_digit('3'), Some(BottomTab::Preview));
    assert_eq!(BottomTab::of_digit('4'), Some(BottomTab::Export));
    assert_eq!(BottomTab::of_digit('0'), None);
    assert_eq!(BottomTab::of_digit('5'), None);
    assert_eq!(BottomTab::of_digit('a'), None);
}

#[test]
fn panes_and_views_correspond() {
    assert_eq!(
        FocusPane::Profiles.view_of(BottomTab::Items),
        View::Profiles
    );
    assert_eq!(FocusPane::Vars.view_of(BottomTab::Items), View::Vars);
    assert_eq!(FocusPane::Defs.view_of(BottomTab::Items), View::Defs);
    assert_eq!(FocusPane::Bottom.view_of(BottomTab::Parts), View::Parts);
    assert_eq!(FocusPane::Bottom.view_of(BottomTab::Items), View::Items);
    assert_eq!(FocusPane::Bottom.view_of(BottomTab::Preview), View::Preview);
    assert_eq!(FocusPane::Bottom.view_of(BottomTab::Export), View::Export);
    for focus in [
        FocusPane::Profiles,
        FocusPane::Vars,
        FocusPane::Defs,
        FocusPane::Bottom,
    ] {
        for tab in [
            BottomTab::Parts,
            BottomTab::Items,
            BottomTab::Preview,
            BottomTab::Export,
        ] {
            assert_eq!(show_view(focus.view_of(tab), focus, tab), (focus, tab));
            assert_eq!(show_view(View::Help, focus, tab), (focus, tab));
        }
    }
    assert_eq!(
        show_view(View::Export, FocusPane::Vars, BottomTab::Parts),
        (FocusPane::Bottom, BottomTab::Export)
    );
    assert_eq!(
        show_view(View::Defs, FocusPane::Bottom, BottomTab::Items),
        (FocusPane::Defs, BottomTab::Items)
    );
}

use bath::export::{interactive_export_key, PickerStep};
use bath::profile_editor::{
    centered_margin, confirm_key, confirm_text, edit_profile_name_key, initial_profile_name,
    profile_name_text, Outcome,
};
use bath::tui::input::Key;

#[test]
fn name_dialog_edits_and_answers() {
    let mut name = initial_profile_name(None);
    assert_eq!(name, "");
    assert!(matches!(
        edit_profile_name_key(&mut name, Key::Backspace),
        Outcome::Pending
    ));
    assert_eq!(name, "");
    for c in "worx".chars() {
        assert!(matches!(
            edit_profile_name_key(&mut name, Key::Char(c)),
            Outcome::Pending
        ));
    }
    edit_profile_name_key(&mut name, Key::Backspace);
    edit_profile_name_key(&mut name, Key::Char('k'));
    edit_profile_name_key(&mut name, Key::Tab);
    edit_profile_name_key(&mut name, Key::Up);
    assert_eq!(name, "work");
    assert_eq!(profile_name_text(&name), "Profile Name: work");
    match edit_profile_name_key(&mut name, Key::Enter) {
        Outcome::Finished(answer) => assert_eq!(answer, "work"),
        other => panic!("unexpected outcome: {:?}", other),
    }
    assert!(matches!(
        edit_profile_name_key(&mut name, Key::Esc),
        Outcome::Cancelled
    ));
    assert_eq!(name, "work");
}

#[test]
fn name_dialog_opens_on_the_current_name() {
    assert_eq!(initial_profile_name(Some("old")), "old");
}

#[test]
fn confirm_dialog_keys() {
    assert_eq!(confirm_key(Key::Char('y')), Some(true));
    assert_eq!(confirm_key(Key::Char('Y')), Some(true));
    assert_eq!(confirm_key(Key::Char('n')), Some(false));
    assert_eq!(confirm_key(Key::Char('N')), Some(false));
    assert_eq!(confirm_key(Key::Esc), Some(false));
    assert_eq!(confirm_key(Key::Enter), None);
    assert_eq!(confirm_key(Key::Char('x')), None);
    assert_eq!(confirm_key(Key::Other), None);
    assert_eq!(
        confirm_text("Delete profile?"),
        "Delete profile?\n\nPress Y to confirm, N or Esc to cancel"
    );
}

#[test]
fn centered_margin_halves_what_is_left() {
    assert_eq!(centered_margin(50), 25);
    assert_eq!(centered_margin(20), 40);
    assert_eq!(centered_margin(85), 7);
    assert_eq!(centered_margin(100), 0);
    assert_eq!(centered_margin(0), 50);
}

#[test]
fn picker_wraps_around() {
    let mut sel = Some(0);
    assert_eq!(interactive_export_key(&mut sel, 3, Key::Down), PickerStep::Pending);
    assert_eq!(sel, Some(1));
    interactive_export_key(&mut sel, 3, Key::Down);
    assert_eq!(sel, Some(2));
    interactive_export_key(&mut sel, 3, Key::Down);
    assert_eq!(sel, Some(0));
    interactive_export_key(&mut sel, 3, Key::Up);
    assert_eq!(sel, Some(2));
    interactive_export_key(&mut sel, 3, Key::Up);
    assert_eq!(sel, Some(1));
    let mut none = None;
    interactive_export_key(&mut none, 3, Key::Up);
    assert_eq!(none, Some(2));
    let mut none = None;
    interactive_export_key(&mut none, 3, Key::Down);
    assert_eq!(none, Some(0));
    let mut one = Some(0);
    interactive_export_key(&mut one, 1, Key::Down);
    assert_eq!(one, Some(0));
    interactive_export_key(&mut one, 1, Key::Up);
    assert_eq!(one, Some(0));
}

#[test]
fn picker_enter_and_escape() {
    let mut sel = Some(1);
    assert_eq!(
        interactive_export_key(&mut sel, 3, Key::Enter),
        PickerStep::Export(1)
    );
    assert_eq!(
        interactive_export_key(&mut sel, 3, Key::Esc),
        PickerStep::Cancelled
    );
    assert_eq!(
        interactive_export_key(&mut sel, 3, Key::Char('x')),
        PickerStep::Pending
    );
    assert_eq!(sel, Some(1));
    let mut none = None;
    assert_eq!(
        interactive_export_key(&mut none, 3, Key::Enter),
        PickerStep::Pending
    );
}

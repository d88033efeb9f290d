//! The two small dialogs around profiles: the one that asks for a name and
//! the one that asks for consent.

use crate::text::{pop_char, push_char};
use crate::tui::input::Key;
use vstd::prelude::*;

verus! {

/// Where a dialog stands after a key.
#[derive(Debug)]
pub enum Outcome<T> {
    /// The dialog goes on.
    Pending,
    /// The user gave up.
    Cancelled,
    /// The user is done, and this is the answer.
    Finished(T),
}

/// The name in the field after a key: Backspace takes the last character
/// off, a character is added at the end, and every other key leaves the
/// name as it is.
pub open spec fn name_after_key(name: Seq<char>, key: Key) -> Seq<char> {
    match key {
        Key::Backspace => if name.len() > 0 {
            name.drop_last()
        } else {
            name
        },
        Key::Char(c) => name.push(c),
        _ => name,
    }
}

/// Handles a key of the dialog that asks for the name of a profile. Enter
/// answers with the name as it stands, Esc gives up.
pub fn edit_profile_name_key(name: &mut String, key: Key) -> (out: Outcome<String>)
    ensures
        final(name)@ == name_after_key(old(name)@, key),
        match key {
            Key::Enter => out matches Outcome::Finished(answer) && answer@ == old(name)@,
            Key::Esc => out is Cancelled,
            _ => out is Pending,
        },
{
    match key {
        Key::Enter => Outcome::Finished(name.clone()),
        Key::Esc => Outcome::Cancelled,
        Key::Backspace => {
            pop_char(name);
            Outcome::Pending
        },
        Key::Char(c) => {
            push_char(name, c);
            Outcome::Pending
        },
        _ => Outcome::Pending,
    }
}

/// The name that the dialog opens with: the one given, or none.
pub fn initial_profile_name(initial: Option<&str>) -> (out: String)
    ensures
        out@ == match initial {
            Some(name) => name@,
            None => Seq::<char>::empty(),
        },
{
    match initial {
        Some(name) => String::from_str(name),
        None => String::new(),
    }
}

/// What a key answers to a question of consent: `y` consents, `n` and Esc
/// refuse, in either letter case, and every other key is no answer.
pub open spec fn consent_of(key: Key) -> Option<bool> {
    match key {
        Key::Char(c) => if c == 'y' || c == 'Y' {
            Some(true)
        } else if c == 'n' || c == 'N' {
            Some(false)
        } else {
            None
        },
        Key::Esc => Some(false),
        _ => None,
    }
}

/// Handles a key of the dialog that asks for consent.
pub fn confirm_key(key: Key) -> (out: Option<bool>)
    ensures
        out == consent_of(key),
{
    match key {
        Key::Char(c) => if c == 'y' || c == 'Y' {
            Some(true)
        } else if c == 'n' || c == 'N' {
            Some(false)
        } else {
            None
        },
        Key::Esc => Some(false),
        _ => None,
    }
}

/// Returns the text that shows the dialog that asks for a name.
pub fn profile_name_text(name: &str) -> (out: String)
    ensures
        out@ == "Profile Name: "@ + name@,
{
    let mut out = String::from_str("Profile Name: ");
    out.append(name);
    out
}

/// Returns the text that shows the dialog that asks for consent.
pub fn confirm_text(message: &str) -> (out: String)
    ensures
        out@ == message@ + "\n\nPress Y to confirm, N or Esc to cancel"@,
{
    let mut out = String::from_str(message);
    out.append("\n\nPress Y to confirm, N or Esc to cancel");
    out
}

/// The margin, in hundredths, on either side of an area that takes
/// `percent` hundredths of the room.
pub fn centered_margin(percent: u16) -> (out: u16)
    requires
        percent <= 100,
    ensures
        out == (100 - percent) / 2,
{
    (100 - percent) / 2
}

} // verus!

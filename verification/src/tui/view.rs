//! The views of the browser.

use vstd::prelude::*;
use vstd::view::View as _;

verus! {

/// One screen of the browser.
#[derive(Debug, Clone, Copy, PartialEq, Eq, Structural)]
pub enum View {
    Profiles,
    Vars,
    Parts,
    Items,
    Defs,
    Preview,
    Export,
    Help,
}

impl View {
    /// The title of the view, as text.
    pub open spec fn title_spec(self) -> Seq<char> {
        match self {
            View::Profiles => "Profiles"@,
            View::Vars => "Vars"@,
            View::Parts => "Parts"@,
            View::Items => "Items"@,
            View::Defs => "Defs"@,
            View::Preview => "Preview"@,
            View::Export => "Export"@,
            View::Help => "Help"@,
        }
    }

    /// Whether the view shows a list that a filter can narrow.
    pub open spec fn filterable(self) -> bool {
        self is Profiles || self is Vars || self is Parts || self is Items || self is Defs
    }

    /// The view that follows this one when the views are cycled through.
    pub open spec fn next_spec(self) -> View {
        match self {
            View::Profiles => View::Vars,
            View::Vars => View::Parts,
            View::Parts => View::Items,
            View::Items => View::Defs,
            View::Defs => View::Preview,
            View::Preview => View::Export,
            View::Export => View::Help,
            View::Help => View::Profiles,
        }
    }

    /// Returns the title of the view.
    pub fn title(self) -> (out: &'static str)
        ensures
            out@ == self.title_spec(),
    {
        match self {
            View::Profiles => "Profiles",
            View::Vars => "Vars",
            View::Parts => "Parts",
            View::Items => "Items",
            View::Defs => "Defs",
            View::Preview => "Preview",
            View::Export => "Export",
            View::Help => "Help",
        }
    }

    /// Tells whether the view shows a list that a filter can narrow.
    pub fn is_filterable(self) -> (out: bool)
        ensures
            out == self.filterable(),
    {
        match self {
            View::Profiles | View::Vars | View::Parts | View::Items | View::Defs => true,
            View::Preview | View::Export | View::Help => false,
        }
    }

    /// Returns the view that follows this one.
    pub fn next(self) -> (out: View)
        ensures
            out == self.next_spec(),
    {
        match self {
            View::Profiles => View::Vars,
            View::Vars => View::Parts,
            View::Parts => View::Items,
            View::Items => View::Defs,
            View::Defs => View::Preview,
            View::Preview => View::Export,
            View::Export => View::Help,
            View::Help => View::Profiles,
        }
    }
}

} // verus!

//! The panes of the four-pane layout, in which three lists stand side by
//! side above a bottom pane with tabs.

use crate::tui::view;
use vstd::prelude::*;

verus! {

/// The pane that takes the keys.
#[derive(Debug, Clone, Copy, PartialEq, Eq, Structural)]
pub enum FocusPane {
    Profiles,
    Vars,
    Defs,
    Bottom,
}

/// The tab that the bottom pane shows.
#[derive(Debug, Clone, Copy, PartialEq, Eq, Structural)]
pub enum BottomTab {
    Parts,
    Items,
    Preview,
    Export,
}

impl FocusPane {
    /// The pane that Tab goes to.
    pub open spec fn next_spec(self) -> FocusPane {
        match self {
            FocusPane::Profiles => FocusPane::Vars,
            FocusPane::Vars => FocusPane::Defs,
            FocusPane::Defs => FocusPane::Bottom,
            FocusPane::Bottom => FocusPane::Profiles,
        }
    }

    /// Returns the pane that Tab goes to.
    pub fn next(self) -> (out: FocusPane)
        ensures
            out == self.next_spec(),
    {
        match self {
            FocusPane::Profiles => FocusPane::Vars,
            FocusPane::Vars => FocusPane::Defs,
            FocusPane::Defs => FocusPane::Bottom,
            FocusPane::Bottom => FocusPane::Profiles,
        }
    }

    /// The view that a pane stands for, given the tab of the bottom pane.
    pub open spec fn view_spec(self, tab: BottomTab) -> view::View {
        match self {
            FocusPane::Profiles => view::View::Profiles,
            FocusPane::Vars => view::View::Vars,
            FocusPane::Defs => view::View::Defs,
            FocusPane::Bottom => match tab {
                BottomTab::Parts => view::View::Parts,
                BottomTab::Items => view::View::Items,
                BottomTab::Preview => view::View::Preview,
                BottomTab::Export => view::View::Export,
            },
        }
    }

    /// Returns the view that a pane stands for.
    pub fn view_of(self, tab: BottomTab) -> (out: view::View)
        ensures
            out == self.view_spec(tab),
    {
        match self {
            FocusPane::Profiles => view::View::Profiles,
            FocusPane::Vars => view::View::Vars,
            FocusPane::Defs => view::View::Defs,
            FocusPane::Bottom => match tab {
                BottomTab::Parts => view::View::Parts,
                BottomTab::Items => view::View::Items,
                BottomTab::Preview => view::View::Preview,
                BottomTab::Export => view::View::Export,
            },
        }
    }
}

impl BottomTab {
    /// The tab that a digit key shows: `1` to `4` for the four tabs in
    /// their order, and none for any other character.
    pub open spec fn of_digit_spec(c: char) -> Option<BottomTab> {
        if c == '1' {
            Some(BottomTab::Parts)
        } else if c == '2' {
            Some(BottomTab::Items)
        } else if c == '3' {
            Some(BottomTab::Preview)
        } else if c == '4' {
            Some(BottomTab::Export)
        } else {
            None
        }
    }

    /// Returns the tab that a digit key shows.
    pub fn of_digit(c: char) -> (out: Option<BottomTab>)
        ensures
            out == Self::of_digit_spec(c),
    {
        if c == '1' {
            Some(BottomTab::Parts)
        } else if c == '2' {
            Some(BottomTab::Items)
        } else if c == '3' {
            Some(BottomTab::Preview)
        } else if c == '4' {
            Some(BottomTab::Export)
        } else {
            None
        }
    }
}

/// The pane and the tab that show a view. The help has no pane; it leaves
/// the layout as it is.
pub open spec fn pane_of_view(v: view::View, focus: FocusPane, tab: BottomTab) -> (
    FocusPane,
    BottomTab,
) {
    match v {
        view::View::Profiles => (FocusPane::Profiles, tab),
        view::View::Vars => (FocusPane::Vars, tab),
        view::View::Defs => (FocusPane::Defs, tab),
        view::View::Parts => (FocusPane::Bottom, BottomTab::Parts),
        view::View::Items => (FocusPane::Bottom, BottomTab::Items),
        view::View::Preview => (FocusPane::Bottom, BottomTab::Preview),
        view::View::Export => (FocusPane::Bottom, BottomTab::Export),
        view::View::Help => (focus, tab),
    }
}

/// Returns the pane and the tab that show a view.
pub fn show_view(v: view::View, focus: FocusPane, tab: BottomTab) -> (out: (FocusPane, BottomTab))
    ensures
        out == pane_of_view(v, focus, tab),
{
    match v {
        view::View::Profiles => (FocusPane::Profiles, tab),
        view::View::Vars => (FocusPane::Vars, tab),
        view::View::Defs => (FocusPane::Defs, tab),
        view::View::Parts => (FocusPane::Bottom, BottomTab::Parts),
        view::View::Items => (FocusPane::Bottom, BottomTab::Items),
        view::View::Preview => (FocusPane::Bottom, BottomTab::Preview),
        view::View::Export => (FocusPane::Bottom, BottomTab::Export),
        view::View::Help => (focus, tab),
    }
}

/// A view that a pane shows is shown by that pane again.
pub proof fn lemma_pane_round_trip(focus: FocusPane, tab: BottomTab)
    ensures
        pane_of_view(focus.view_spec(tab), focus, tab) == (focus, tab),
{
}

} // verus!

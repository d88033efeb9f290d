//! What a key does to the browser.
//!
//! The caller reads a key, hands it to [`handle_key_event`] and carries out
//! the [`Step`] that comes back: it writes to the store, asks the user
//! through a dialog and hands the answer to the matching `finish_` function,
//! or leaves.

use crate::config::{
    CatalogItem, CatalogItemView, CustomVarDef, CustomVarDefView, Entry, EntryView, EnvProfile,
    VarKind,
};
use crate::text::{
    as_places, concat_str, kept_places, lemma_kept_places_bounds, pop_char, push_char,
};
use crate::tui::commands::{
    command_outcome, command_to_execute, execute_command, pick_command_to_execute,
    refresh_command_suggestions, suggestions, CommandEffect, CommandEffectView,
};
use crate::tui::select::{
    compute_def_rows, compute_var_rows, current_var_parts, def_rows, items_kept, make_part_entry,
    option_for, part_for, parts_kept, pointed_at, preview_value, profiles_kept, selected_item_index,
    selected_profile_index, var_option_for, var_rows, visible_item_indices, visible_part_indices,
    visible_profile_indices,
};
use crate::tui::state::{
    entries_of, replaced_parts, AppState, AppStateView, Holding, HoldingView, InputMode, ListState,
    StoreAction, StoreActionView, StoreError, VarTypeOption, VarTypeOptionView,
};
use crate::tui::view;
use vstd::prelude::*;

verus! {

/// A key, as far as the browser tells keys apart.
#[derive(Debug, Clone, Copy, PartialEq, Eq)]
pub enum Key {
    Char(char),
    Enter,
    Esc,
    Tab,
    Backspace,
    Up,
    Down,
    Home,
    End,
    PageUp,
    PageDown,
    /// Any key that the browser does not react to.
    Other,
}

/// A question to the user. The answer goes to the `finish_` function of the
/// same name.
#[derive(Debug)]
pub enum Dialog {
    /// Ask for the name of a new profile.
    AddProfile,
    /// Ask for a new name of the profile at `index`, now called `current`.
    RenameProfile { index: usize, current: String },
    /// Ask whether the profile at `index` is to be deleted.
    DeleteProfile { index: usize },
    /// Ask for a new custom variable.
    NewVarDef,
    /// Ask for a new catalog item.
    NewItem,
    /// Ask for changes to a catalog item.
    EditItem { initial: CatalogItem },
    /// Ask whether the catalog item of this number is to be deleted.
    DeleteItem { id: i64 },
    /// Ask for a new part of the variable `var`.
    AddPart { var: String, option: VarTypeOption },
    /// Ask for changes to the part at `index` of `parts`, the parts of the
    /// variable `var`.
    EditPart { var: String, option: VarTypeOption, parts: Vec<Entry>, index: usize },
}

/// Mathematical model of a [`Dialog`].
pub ghost enum DialogView {
    AddProfile,
    RenameProfile { index: usize, current: Seq<char> },
    DeleteProfile { index: usize },
    NewVarDef,
    NewItem,
    EditItem { initial: CatalogItemView },
    DeleteItem { id: i64 },
    AddPart { var: Seq<char>, option: VarTypeOptionView },
    EditPart { var: Seq<char>, option: VarTypeOptionView, parts: Seq<EntryView>, index: usize },
}

impl View for Dialog {
    type V = DialogView;

    open spec fn view(&self) -> DialogView {
        match self {
            Dialog::AddProfile => DialogView::AddProfile,
            Dialog::RenameProfile { index, current } => DialogView::RenameProfile {
                index: *index,
                current: current@,
            },
            Dialog::DeleteProfile { index } => DialogView::DeleteProfile { index: *index },
            Dialog::NewVarDef => DialogView::NewVarDef,
            Dialog::NewItem => DialogView::NewItem,
            Dialog::EditItem { initial } => DialogView::EditItem { initial: initial@ },
            Dialog::DeleteItem { id } => DialogView::DeleteItem { id: *id },
            Dialog::AddPart { var, option } => DialogView::AddPart { var: var@, option: option@ },
            Dialog::EditPart { var, option, parts, index } => DialogView::EditPart {
                var: var@,
                option: option@,
                parts: parts.deep_view(),
                index: *index,
            },
        }
    }
}

/// What the caller has to do after a key.
#[derive(Debug)]
pub enum Step {
    /// Nothing: go on with the next key.
    Continue,
    /// Leave the browser.
    Quit,
    /// Write to the store.
    Store(StoreAction),
    /// Ask the user.
    Ask(Dialog),
    /// Switch to the theme of this name and keep it in the configuration.
    SetTheme(String),
}

/// Mathematical model of a [`Step`].
pub ghost enum StepView {
    Continue,
    Quit,
    Store(StoreActionView),
    Ask(DialogView),
    SetTheme(Seq<char>),
}

impl View for Step {
    type V = StepView;

    open spec fn view(&self) -> StepView {
        match self {
            Step::Continue => StepView::Continue,
            Step::Quit => StepView::Quit,
            Step::Store(action) => StepView::Store(action@),
            Step::Ask(dialog) => StepView::Ask(dialog@),
            Step::SetTheme(name) => StepView::SetTheme(name@),
        }
    }
}

/// The variable whose parts are shown: the selected one, or `PATH` while
/// none is selected.
pub open spec fn current_var(app: AppStateView) -> Seq<char> {
    match app.selected_var_name {
        Some(name) => name,
        None => "PATH"@,
    }
}

/// Returns the variable whose parts are shown.
pub fn current_var_name(app: &AppState) -> (out: String)
    ensures
        out@ == current_var(app@),
{
    match &app.selected_var_name {
        Some(name) => name.clone(),
        None => String::from_str("PATH"),
    }
}

/// The parts of the variable whose parts are shown.
pub open spec fn shown_parts(app: AppStateView) -> Seq<EntryView> {
    entries_of(app.active_entries(), current_var(app))
}

/// How many rows the list of the view `v` shows. The views without a list
/// count as showing none.
pub open spec fn list_len(app: AppStateView, v: view::View) -> nat {
    match v {
        view::View::Profiles => kept_places(profiles_kept(app)).len(),
        view::View::Vars => var_rows(app).len(),
        view::View::Parts => kept_places(parts_kept(shown_parts(app), app.parts_filter)).len(),
        view::View::Items => kept_places(items_kept(app)).len(),
        view::View::Defs => def_rows(app).len(),
        _ => 0,
    }
}

/// The cursor of the list of the view `v`; none for a view without a list.
pub open spec fn cursor_of(app: AppStateView, v: view::View) -> Option<usize> {
    match v {
        view::View::Profiles => app.profile_list_state.selected,
        view::View::Vars => app.vars_list_state.selected,
        view::View::Parts => app.parts_list_state.selected,
        view::View::Items => app.items_list_state.selected,
        view::View::Defs => app.defs_list_state.selected,
        _ => None,
    }
}

/// The state with the cursor of the list of the view `v` at `selected`. A
/// view without a list leaves the state as it is.
pub open spec fn with_cursor(
    app: AppStateView,
    v: view::View,
    selected: Option<usize>,
) -> AppStateView {
    match v {
        view::View::Profiles => AppStateView {
            profile_list_state: ListState { selected },
            ..app
        },
        view::View::Vars => AppStateView { vars_list_state: ListState { selected }, ..app },
        view::View::Parts => AppStateView { parts_list_state: ListState { selected }, ..app },
        view::View::Items => AppStateView { items_list_state: ListState { selected }, ..app },
        view::View::Defs => AppStateView { defs_list_state: ListState { selected }, ..app },
        _ => app,
    }
}

/// Counts the rows of the list of the active view.
fn count_rows(app: &AppState) -> (out: usize)
    requires
        app.wf(),
    ensures
        out == list_len(app@, app.active_view),
{
    match app.active_view {
        view::View::Profiles => visible_profile_indices(app).len(),
        view::View::Vars => compute_var_rows(app).len(),
        view::View::Parts => {
            let var = current_var_name(app);
            let parts = current_var_parts(app, var.as_str());
            visible_part_indices(app, parts.as_slice()).len()
        },
        view::View::Items => visible_item_indices(app).len(),
        view::View::Defs => compute_def_rows(app).len(),
        view::View::Preview | view::View::Export | view::View::Help => 0,
    }
}

/// Reads the cursor of the list of the active view.
fn cursor(app: &AppState) -> (out: Option<usize>)
    ensures
        out == cursor_of(app@, app.active_view),
{
    match app.active_view {
        view::View::Profiles => app.profile_list_state.selected(),
        view::View::Vars => app.vars_list_state.selected(),
        view::View::Parts => app.parts_list_state.selected(),
        view::View::Items => app.items_list_state.selected(),
        view::View::Defs => app.defs_list_state.selected(),
        view::View::Preview | view::View::Export | view::View::Help => None,
    }
}

/// Moves the cursor of the list of the active view.
fn set_cursor(app: &mut AppState, selected: Option<usize>)
    ensures
        final(app)@ == with_cursor(old(app)@, old(app).active_view, selected),
{
    match app.active_view {
        view::View::Profiles => app.profile_list_state.select(selected),
        view::View::Vars => app.vars_list_state.select(selected),
        view::View::Parts => app.parts_list_state.select(selected),
        view::View::Items => app.items_list_state.select(selected),
        view::View::Defs => app.defs_list_state.select(selected),
        view::View::Preview | view::View::Export | view::View::Help => {},
    }
}

/// Where a cursor at `selected` stands after a move by `delta` rows in a
/// list of `len` rows: first pulled back into the list, then moved, and
/// stopped at the first and at the last row.
pub open spec fn moved_cursor(selected: Option<usize>, delta: int, len: nat) -> Option<usize> {
    if len == 0 {
        None
    } else {
        let start = match selected {
            Some(i) => if i < len {
                i as int
            } else {
                len - 1
            },
            None => 0,
        };
        if start + delta < 0 {
            Some(0)
        } else if start + delta > len - 1 {
            Some((len - 1) as usize)
        } else {
            Some((start + delta) as usize)
        }
    }
}

/// The state with the variable under the cursor of the list of variables
/// selected. The state stays as it is when the cursor points at no row.
pub open spec fn with_var_under_cursor(app: AppStateView) -> AppStateView {
    match app.vars_list_state.selected {
        Some(i) => if i < var_rows(app).len() {
            AppStateView { selected_var_name: Some(var_rows(app)[i as int].name), ..app }
        } else {
            app
        },
        None => app,
    }
}

/// The state after the cursor of the active view has moved by `delta` rows.
/// In the list of variables the variable under the cursor becomes the
/// selected one.
pub open spec fn after_move(app: AppStateView, delta: int) -> AppStateView {
    if !app.active_view.filterable() {
        app
    } else {
        let len = list_len(app, app.active_view);
        let moved = with_cursor(
            app,
            app.active_view,
            moved_cursor(cursor_of(app, app.active_view), delta, len),
        );
        if len > 0 && app.active_view == view::View::Vars {
            with_var_under_cursor(moved)
        } else {
            moved
        }
    }
}

/// Selects the variable under the cursor of the list of variables.
fn select_var_under_cursor(app: &mut AppState)
    requires
        old(app).wf(),
    ensures
        final(app)@ == with_var_under_cursor(old(app)@),
{
    let rows = compute_var_rows(app);
    if let Some(i) = app.vars_list_state.selected() {
        if i < rows.len() {
            proof {
                assert(rows.deep_view()[i as int] == rows[i as int]@);
            }
            app.selected_var_name = Some(rows[i].name.clone());
        }
    }
}

/// Moves the cursor of the active view by `delta` rows.
pub fn move_selection(app: &mut AppState, delta: isize)
    requires
        old(app).wf(),
    ensures
        final(app)@ == after_move(old(app)@, delta as int),
        final(app).wf(),
{
    if !app.active_view.is_filterable() {
        return ;
    }
    let len = count_rows(app);
    if len == 0 {
        set_cursor(app, None);
        return ;
    }
    let start: usize = match cursor(app) {
        Some(i) => if i < len {
            i
        } else {
            len - 1
        },
        None => 0,
    };
    let target: i128 = start as i128 + delta as i128;
    let next: usize = if target < 0 {
        0
    } else if target > (len - 1) as i128 {
        len - 1
    } else {
        target as usize
    };
    set_cursor(app, Some(next));
    // Keep the selected variable in step with the highlighted row.
    match app.active_view {
        view::View::Vars => {
            proof {
                lemma_var_rows_ignore_cursor(old(app)@, app@);
            }
            select_var_under_cursor(app);
        },
        _ => {},
    }
}

/// The rows of the list of variables do not depend on where a cursor
/// stands.
proof fn lemma_var_rows_ignore_cursor(a: AppStateView, b: AppStateView)
    requires
        a.profiles == b.profiles,
        a.active_profile_index == b.active_profile_index,
        a.var_options == b.var_options,
        a.vars_filter == b.vars_filter,
    ensures
        var_rows(a) == var_rows(b),
{
    assert(crate::tui::select::unordered_rows(a) =~= crate::tui::select::unordered_rows(b));
}

/// The state after a jump to the first row of the active view.
pub open spec fn after_jump_to_top(app: AppStateView) -> AppStateView {
    with_cursor(app, app.active_view, Some(0))
}

/// Puts the cursor of the active view on the first row.
pub fn jump_to_top(app: &mut AppState)
    ensures
        final(app)@ == after_jump_to_top(old(app)@),
        old(app).wf() ==> final(app).wf(),
{
    set_cursor(app, Some(0));
}

/// The state after a jump to the last row of the active view. An empty list
/// leaves the cursor where it is.
pub open spec fn after_jump_to_bottom(app: AppStateView) -> AppStateView {
    let len = list_len(app, app.active_view);
    if len > 0 {
        with_cursor(app, app.active_view, Some((len - 1) as usize))
    } else {
        app
    }
}

/// Puts the cursor of the active view on the last row.
pub fn jump_to_bottom(app: &mut AppState)
    requires
        old(app).wf(),
    ensures
        final(app)@ == after_jump_to_bottom(old(app)@),
        final(app).wf(),
{
    let len = count_rows(app);
    if len > 0 {
        set_cursor(app, Some(len - 1));
    }
}

/// The state after the views have been cycled by one.
pub open spec fn after_cycle_view(app: AppStateView) -> AppStateView {
    AppStateView { active_view: app.active_view.next_spec(), ..app }
}

/// Shows the view that follows the active one.
pub fn cycle_view(app: &mut AppState)
    ensures
        final(app)@ == after_cycle_view(old(app)@),
        old(app).wf() ==> final(app).wf(),
{
    app.active_view = app.active_view.next();
}

/// The state with the filter of the list that is searched set to `query`.
pub open spec fn with_live_filter(app: AppStateView, query: Seq<char>) -> AppStateView {
    match app.search_target {
        view::View::Profiles => AppStateView { profiles_filter: query, ..app },
        view::View::Vars => AppStateView { vars_filter: query, ..app },
        view::View::Defs => AppStateView { defs_filter: query, ..app },
        view::View::Parts => AppStateView { parts_filter: query, ..app },
        view::View::Items => AppStateView { items_filter: query, ..app },
        _ => app,
    }
}

/// Sets the filter of the list that is searched.
pub fn apply_live_filter(app: &mut AppState, q: &str)
    ensures
        final(app)@ == with_live_filter(old(app)@, q@),
        old(app).wf() ==> final(app).wf(),
{
    let q = String::from_str(q);
    match app.search_target {
        view::View::Profiles => app.profiles_filter = q,
        view::View::Vars => app.vars_filter = q,
        view::View::Defs => app.defs_filter = q,
        view::View::Parts => app.parts_filter = q,
        view::View::Items => app.items_filter = q,
        view::View::Preview | view::View::Export | view::View::Help => {},
    }
}

/// The state after a key while a filter is typed.
///
/// Esc drops the filter and Enter keeps it; both end the search. Backspace
/// and a character change what has been typed, and the list follows at
/// once.
pub open spec fn after_search_key(app: AppStateView, key: Key) -> AppStateView {
    match key {
        Key::Esc => AppStateView {
            input_mode: InputMode::Normal,
            ..with_live_filter(AppStateView { command_input: Seq::empty(), ..app }, Seq::empty())
        },
        Key::Enter => AppStateView {
            command_input: Seq::empty(),
            input_mode: InputMode::Normal,
            ..app
        },
        Key::Backspace => {
            let typed = if app.command_input.len() > 0 {
                app.command_input.drop_last()
            } else {
                app.command_input
            };
            with_live_filter(AppStateView { command_input: typed, ..app }, typed)
        },
        Key::Char(c) => with_live_filter(
            AppStateView { command_input: app.command_input.push(c), ..app },
            app.command_input.push(c),
        ),
        _ => app,
    }
}

/// Handles a key while a filter is typed.
pub fn handle_search_key(app: &mut AppState, key: Key) -> (out: Step)
    ensures
        final(app)@ == after_search_key(old(app)@, key),
        out@ == StepView::Continue,
        old(app).wf() ==> final(app).wf(),
{
    match key {
        Key::Esc => {
            app.command_input = String::new();
            apply_live_filter(app, "");
            app.input_mode = InputMode::Normal;
            proof {
                reveal_strlit("");
                assert(""@ =~= Seq::<char>::empty());
            }
        },
        Key::Enter => {
            app.command_input = String::new();
            app.input_mode = InputMode::Normal;
        },
        Key::Backspace => {
            pop_char(&mut app.command_input);
            let q = app.command_input.clone();
            apply_live_filter(app, q.as_str());
        },
        Key::Char(c) => {
            push_char(&mut app.command_input, c);
            let q = app.command_input.clone();
            apply_live_filter(app, q.as_str());
        },
        _ => {},
    }
    Step::Continue
}

/// The step that carries out the effect of a command.
pub open spec fn step_of_effect(effect: CommandEffectView) -> StepView {
    match effect {
        CommandEffectView::Done => StepView::Continue,
        CommandEffectView::Quit => StepView::Quit,
        CommandEffectView::NewVarDef => StepView::Ask(DialogView::NewVarDef),
        CommandEffectView::NewItem => StepView::Ask(DialogView::NewItem),
        CommandEffectView::SetTheme(name) => StepView::SetTheme(name),
    }
}

/// The state with the suggestions of the command line brought up to date.
pub open spec fn with_suggestions(app: AppStateView, themes: Seq<Seq<char>>) -> AppStateView {
    AppStateView {
        command_suggestions: suggestions(app, themes),
        command_selected: if suggestions(app, themes).len() == 0 {
            0usize
        } else if app.command_selected < suggestions(app, themes).len() {
            app.command_selected
        } else {
            (suggestions(app, themes).len() - 1) as usize
        },
        ..app
    }
}

/// The state and the step after a key while a command is typed.
///
/// Esc leaves the command line. Enter runs the command that the line stands
/// for and leaves the command line. Tab completes to the suggestion under
/// the cursor, Up and Down move that cursor, Backspace and a character
/// change what has been typed and the suggestions follow.
pub open spec fn after_command_key(app: AppStateView, key: Key, themes: Seq<Seq<char>>) -> (
    AppStateView,
    StepView,
) {
    match key {
        Key::Esc => (AppStateView { input_mode: InputMode::Normal, ..app }, StepView::Continue),
        Key::Enter => {
            let done = command_outcome(app, command_to_execute(app), themes.len());
            (AppStateView { input_mode: InputMode::Normal, ..done.0 }, step_of_effect(done.1))
        },
        Key::Tab => if app.command_selected < app.command_suggestions.len() {
            (
                with_suggestions(
                    AppStateView {
                        command_input: app.command_suggestions[app.command_selected as int],
                        ..app
                    },
                    themes,
                ),
                StepView::Continue,
            )
        } else {
            (app, StepView::Continue)
        },
        Key::Up => (
            AppStateView {
                command_selected: if app.command_selected > 0 {
                    (app.command_selected - 1) as usize
                } else {
                    0
                },
                ..app
            },
            StepView::Continue,
        ),
        Key::Down => if app.command_suggestions.len() == 0 {
            (app, StepView::Continue)
        } else {
            (
                AppStateView {
                    command_selected: if app.command_selected + 1 < app.command_suggestions.len() {
                        (app.command_selected + 1) as usize
                    } else {
                        (app.command_suggestions.len() - 1) as usize
                    },
                    ..app
                },
                StepView::Continue,
            )
        },
        Key::Backspace => (
            with_suggestions(
                AppStateView {
                    command_input: if app.command_input.len() > 0 {
                        app.command_input.drop_last()
                    } else {
                        app.command_input
                    },
                    ..app
                },
                themes,
            ),
            StepView::Continue,
        ),
        Key::Char(c) => (
            with_suggestions(
                AppStateView { command_input: app.command_input.push(c), ..app },
                themes,
            ),
            StepView::Continue,
        ),
        _ => (app, StepView::Continue),
    }
}

/// Handles a key while a command is typed.
pub fn handle_command_key(app: &mut AppState, key: Key, theme_names: &Vec<String>) -> (out: Step)
    ensures
        final(app)@ == after_command_key(old(app)@, key, theme_names.deep_view()).0,
        out@ == after_command_key(old(app)@, key, theme_names.deep_view()).1,
        old(app).wf() ==> final(app).wf(),
{
    match key {
        Key::Esc => {
            app.input_mode = InputMode::Normal;
            Step::Continue
        },
        Key::Enter => {
            let exec = pick_command_to_execute(app);
            let effect = execute_command(app, exec.as_str(), theme_names.len());
            app.input_mode = InputMode::Normal;
            match effect {
                CommandEffect::Done => Step::Continue,
                CommandEffect::Quit => Step::Quit,
                CommandEffect::NewVarDef => Step::Ask(Dialog::NewVarDef),
                CommandEffect::NewItem => Step::Ask(Dialog::NewItem),
                CommandEffect::SetTheme(name) => Step::SetTheme(name),
            }
        },
        Key::Tab => {
            if app.command_selected < app.command_suggestions.len() {
                proof {
                    assert(app@.command_suggestions[app.command_selected as int]
                        == app.command_suggestions[app.command_selected as int]@);
                }
                app.command_input = app.command_suggestions[app.command_selected].clone();
                refresh_command_suggestions(app, theme_names);
            }
            Step::Continue
        },
        Key::Up => {
            if app.command_selected > 0 {
                app.command_selected = app.command_selected - 1;
            }
            Step::Continue
        },
        Key::Down => {
            if app.command_suggestions.len() > 0 {
                if app.command_selected < app.command_suggestions.len() - 1 {
                    app.command_selected = app.command_selected + 1;
                } else {
                    app.command_selected = app.command_suggestions.len() - 1;
                }
            }
            Step::Continue
        },
        Key::Backspace => {
            pop_char(&mut app.command_input);
            refresh_command_suggestions(app, theme_names);
            Step::Continue
        },
        Key::Char(c) => {
            push_char(&mut app.command_input, c);
            refresh_command_suggestions(app, theme_names);
            Step::Continue
        },
        _ => Step::Continue,
    }
}

/// The state with `status` in the status line.
pub open spec fn with_status(app: AppStateView, status: Seq<char>) -> AppStateView {
    AppStateView { status, ..app }
}

/// The state in which the parts of `var` in the active profile have been
/// replaced by `parts`.
pub open spec fn with_parts(
    app: AppStateView,
    var: Seq<char>,
    parts: Seq<EntryView>,
) -> AppStateView {
    app.with_active_entries(replaced_parts(app.active_entries(), var, parts))
}

/// The step that saves the active profile.
pub open spec fn save_active(app: AppStateView) -> StepView {
    StepView::Store(StoreActionView::SaveProfile(app.active_profile_index))
}

/// The place among the shown parts that the cursor of the list of parts
/// points at.
pub open spec fn pointed_part(app: AppStateView) -> Option<int> {
    pointed_at(
        app.parts_list_state.selected,
        kept_places(parts_kept(shown_parts(app), app.parts_filter)),
    )
}

/// The place among the items that the cursor of the list of items points
/// at.
pub open spec fn pointed_item(app: AppStateView) -> Option<int> {
    pointed_at(app.items_list_state.selected, kept_places(items_kept(app)))
}

/// The place among the profiles that the cursor of the list of profiles
/// points at.
pub open spec fn pointed_profile(app: AppStateView) -> Option<int> {
    pointed_at(app.profile_list_state.selected, kept_places(profiles_kept(app)))
}

/// Finds the part that the cursor of the list of parts points at, together
/// with the parts of the variable shown and its name.
fn part_under_cursor(app: &AppState) -> (out: (String, Vec<Entry>, Option<usize>))
    requires
        app.wf(),
    ensures
        out.0@ == current_var(app@),
        out.1.deep_view() == shown_parts(app@),
        match out.2 {
            Some(i) => i < out.1.len() && pointed_part(app@) == Some(i as int),
            None => pointed_part(app@) is None,
        },
{
    let var = current_var_name(app);
    let parts = current_var_parts(app, var.as_str());
    let visible = visible_part_indices(app, parts.as_slice());
    let place = match app.parts_list_state.selected() {
        Some(sel) => if sel < visible.len() {
            proof {
                assert(as_places(visible@)[sel as int] == visible[sel as int]);
            }
            Some(visible[sel])
        } else {
            None
        },
        None => None,
    };
    (var, parts, place)
}

/// The state and the step after Esc.
///
/// Whatever is held is let go. A part that was being moved goes back among
/// the parts of its variable, at the place it was taken from or at the end
/// if the list has become shorter. Otherwise the status line is cleared.
pub open spec fn after_escape(app: AppStateView) -> (AppStateView, StepView) {
    let free = AppStateView { holding: None, ..app };
    match app.holding {
        Some(HoldingView::Part { var, from, entry }) => {
            let parts = entries_of(app.active_entries(), var);
            let at = if from < parts.len() {
                from as int
            } else {
                parts.len() as int
            };
            (
                with_status(with_parts(free, var, parts.insert(at, entry)), "cancelled move"@),
                save_active(app),
            )
        },
        _ => (with_status(free, Seq::empty()), StepView::Continue),
    }
}

/// Handles Esc.
pub fn escape(app: &mut AppState) -> (out: Step)
    requires
        old(app).wf(),
    ensures
        final(app)@ == after_escape(old(app)@).0,
        out@ == after_escape(old(app)@).1,
        final(app).wf(),
{
    let held = app.holding.take();
    match held {
        Some(Holding::Part { var, from, entry }) => {
            let mut parts = current_var_parts(app, var.as_str());
            let ghost before = parts.deep_view();
            let insert_at = if from < parts.len() {
                from
            } else {
                parts.len()
            };
            parts.insert(insert_at, entry);
            proof {
                assert(parts.deep_view() =~= before.insert(insert_at as int, entry@));
            }
            let action = app.replace_var_parts(var.as_str(), parts);
            app.status = String::from_str("cancelled move");
            Step::Store(action)
        },
        _ => {
            app.status = String::new();
            Step::Continue
        },
    }
}

/// The state after the command line has been opened.
pub open spec fn after_open_command_line(
    app: AppStateView,
    themes: Seq<Seq<char>>,
) -> AppStateView {
    with_suggestions(
        AppStateView {
            input_mode: InputMode::Command,
            command_input: Seq::empty(),
            command_selected: 0,
            ..app
        },
        themes,
    )
}

/// Opens the command line.
pub fn open_command_line(app: &mut AppState, theme_names: &Vec<String>)
    ensures
        final(app)@ == after_open_command_line(old(app)@, theme_names.deep_view()),
        old(app).wf() ==> final(app).wf(),
{
    app.input_mode = InputMode::Command;
    app.command_input = String::new();
    app.command_selected = 0;
    refresh_command_suggestions(app, theme_names);
}

/// The state after a filter has been asked for: the search opens on the
/// list of the active view, if the view has one.
pub open spec fn after_open_search(app: AppStateView) -> AppStateView {
    if app.active_view.filterable() {
        AppStateView {
            input_mode: InputMode::Search,
            search_target: app.active_view,
            command_input: Seq::empty(),
            ..app
        }
    } else {
        app
    }
}

/// Opens the search on the list of the active view.
pub fn open_search(app: &mut AppState)
    ensures
        final(app)@ == after_open_search(old(app)@),
        old(app).wf() ==> final(app).wf(),
{
    if app.active_view.is_filterable() {
        app.input_mode = InputMode::Search;
        app.search_target = app.active_view;
        app.command_input = String::new();
    }
}

/// The state after Enter in a list.
///
/// In the list of profiles the profile under the cursor becomes the active
/// one. In the list of variables the variable under the cursor is selected
/// and its parts are shown. Elsewhere, and when the cursor points at no
/// row, nothing changes.
pub open spec fn after_activate(app: AppStateView) -> AppStateView {
    match app.active_view {
        view::View::Profiles => match pointed_profile(app) {
            Some(i) => AppStateView {
                active_profile_index: i as usize,
                status: "profile: "@ + app.profiles[i].name,
                ..app
            },
            None => app,
        },
        view::View::Vars => match app.vars_list_state.selected {
            Some(i) => if i < var_rows(app).len() {
                AppStateView {
                    selected_var_name: Some(var_rows(app)[i as int].name),
                    active_view: view::View::Parts,
                    status: "selected var: "@ + var_rows(app)[i as int].name,
                    ..app
                }
            } else {
                app
            },
            None => app,
        },
        _ => app,
    }
}

/// Handles Enter in a list.
pub fn activate_selection(app: &mut AppState)
    requires
        old(app).wf(),
    ensures
        final(app)@ == after_activate(old(app)@),
        final(app).wf(),
{
    match app.active_view {
        view::View::Profiles => {
            if let Some(i) = selected_profile_index(app) {
                proof {
                    assert(app@.profiles[i as int] == app.profiles[i as int]@);
                }
                app.active_profile_index = i;
                app.status = concat_str("profile: ", app.profiles[i].name.as_str());
            }
        },
        view::View::Vars => {
            let rows = compute_var_rows(app);
            if let Some(i) = app.vars_list_state.selected() {
                if i < rows.len() {
                    proof {
                        assert(rows.deep_view()[i as int] == rows[i as int]@);
                    }
                    app.selected_var_name = Some(rows[i].name.clone());
                    app.active_view = view::View::Parts;
                    app.status = concat_str("selected var: ", rows[i].name.as_str());
                }
            }
        },
        _ => {},
    }
}

/// The step after a key of the list of profiles: `A` asks for a new
/// profile, `E` for a new name of the profile under the cursor, `D` whether
/// that profile is to be deleted.
pub open spec fn profiles_key(app: AppStateView, c: char) -> StepView {
    if c == 'A' {
        StepView::Ask(DialogView::AddProfile)
    } else {
        match pointed_profile(app) {
            Some(i) => if c == 'E' {
                StepView::Ask(
                    DialogView::RenameProfile { index: i as usize, current: app.profiles[i].name },
                )
            } else if c == 'D' {
                StepView::Ask(DialogView::DeleteProfile { index: i as usize })
            } else {
                StepView::Continue
            },
            None => StepView::Continue,
        }
    }
}

/// Handles a key of the list of profiles.
pub fn handle_profiles_key(app: &AppState, c: char) -> (out: Step)
    ensures
        out@ == profiles_key(app@, c),
{
    if c == 'A' {
        return Step::Ask(Dialog::AddProfile);
    }
    match selected_profile_index(app) {
        Some(i) => {
            proof {
                assert(app@.profiles[i as int] == app.profiles[i as int]@);
            }
            if c == 'E' {
                Step::Ask(Dialog::RenameProfile { index: i, current: app.profiles[i].name.clone() })
            } else if c == 'D' {
                Step::Ask(Dialog::DeleteProfile { index: i })
            } else {
                Step::Continue
            }
        },
        None => Step::Continue,
    }
}

/// The state and the step after the answer to [`Dialog::AddProfile`]: a
/// name adds an empty profile of that name at the end and makes it the
/// active one; no name changes nothing.
pub open spec fn after_add_profile(app: AppStateView, name: Option<Seq<char>>) -> (
    AppStateView,
    StepView,
) {
    match name {
        Some(name) => (
            AppStateView {
                profiles: app.profiles.push(
                    crate::config::EnvProfileView { name, entries: Seq::empty() },
                ),
                active_profile_index: app.profiles.len() as usize,
                status: "added profile: "@ + name,
                ..app
            },
            StepView::Store(StoreActionView::SaveProfile(app.profiles.len() as usize)),
        ),
        None => (app, StepView::Continue),
    }
}

/// Takes the answer to [`Dialog::AddProfile`].
pub fn finish_add_profile(app: &mut AppState, name: Option<String>) -> (out: Step)
    requires
        old(app).profiles.len() < usize::MAX,
    ensures
        final(app)@ == after_add_profile(old(app)@, name.deep_view()).0,
        out@ == after_add_profile(old(app)@, name.deep_view()).1,
        name is Some || old(app).wf() ==> final(app).wf(),
{
    match name {
        Some(new_name) => {
            let new_profile = EnvProfile::new(new_name.as_str());
            let ghost count = app.profiles.len();
            proof {
                assert(app@.profiles.len() == count);
            }
            let action = app.add_profile(new_profile);
            proof {
                assert(app@.profiles.len() == app.profiles.len());
            }
            app.active_profile_index = app.profiles.len() - 1;
            app.status = concat_str("added profile: ", new_name.as_str());
            Step::Store(action)
        },
        None => Step::Continue,
    }
}

/// Takes the answer to [`Dialog::RenameProfile`].
///
/// No name changes nothing. A name is handed to
/// [`AppState::update_profile`]: a refusal leaves the state as it is and
/// comes back as the error; otherwise the status line tells of the rename.
pub fn finish_rename_profile(
    app: &mut AppState,
    index: usize,
    current: &str,
    name: Option<String>,
) -> (out: Result<Step, StoreError>)
    ensures
        old(app).wf() ==> final(app).wf(),
        match name {
            None => {
                &&& final(app)@ == old(app)@
                &&& out matches Ok(step) && step@ == StepView::Continue
            },
            Some(new_name) => match crate::tui::state::rename_outcome(
                old(app)@.profiles,
                index as int,
                new_name@,
            ) {
                crate::tui::state::RenameOutcome::Conflict => final(app)@ == old(app)@ && out
                    == Err::<Step, StoreError>(StoreError::RenameConflict),
                crate::tui::state::RenameOutcome::Unchanged => {
                    &&& final(app)@ == with_status(
                        old(app)@,
                        "renamed profile: "@ + current@ + " -> "@ + new_name@,
                    )
                    &&& out matches Ok(step) && step@ == StepView::Store(StoreActionView::Nothing)
                },
                crate::tui::state::RenameOutcome::Renamed => {
                    &&& final(app)@ == (AppStateView {
                        profiles: crate::tui::state::renamed(
                            old(app)@.profiles,
                            index as int,
                            new_name@,
                        ),
                        status: "renamed profile: "@ + current@ + " -> "@ + new_name@,
                        ..old(app)@
                    })
                    &&& out matches Ok(step) && step@ == StepView::Store(
                        StoreActionView::RenameProfile {
                            old_name: old(app)@.profiles[index as int].name,
                            new_name: new_name@,
                        },
                    )
                },
            },
        },
{
    match name {
        Some(new_name) => {
            let mut status = String::from_str("renamed profile: ");
            status.append(current);
            status.append(" -> ");
            status.append(new_name.as_str());
            match app.update_profile(index, new_name) {
                Ok(action) => {
                    app.status = status;
                    Ok(Step::Store(action))
                },
                Err(e) => Err(e),
            }
        },
        None => Ok(Step::Continue),
    }
}

/// Takes the answer to [`Dialog::DeleteProfile`].
///
/// A refusal changes nothing. After a consent the profile is handed to
/// [`AppState::delete_profile`], and the status line names the profile that
/// was asked about, whether or not it could be deleted.
pub fn finish_delete_profile(app: &mut AppState, index: usize, confirmed: bool) -> (out: Step)
    requires
        index < old(app).profiles.len(),
    ensures
        old(app).wf() ==> final(app).wf(),
        !confirmed ==> final(app)@ == old(app)@ && out@ == StepView::Continue,
        confirmed && old(app).profiles.len() > 1 ==> final(app)@ == (AppStateView {
            profiles: old(app)@.profiles.remove(index as int),
            active_profile_index: if old(app).active_profile_index >= old(app).profiles.len() - 1 {
                (old(app).profiles.len() - 2) as usize
            } else {
                old(app).active_profile_index
            },
            status: "deleted profile: "@ + old(app)@.profiles[index as int].name,
            ..old(app)@
        }) && out@ == StepView::Store(
            StoreActionView::DeleteProfile(old(app)@.profiles[index as int].name),
        ),
        confirmed && old(app).profiles.len() <= 1 ==> final(app)@ == with_status(
            old(app)@,
            "deleted profile: "@ + old(app)@.profiles[index as int].name,
        ) && out@ == StepView::Store(StoreActionView::Nothing),
{
    if confirmed {
        proof {
            assert(app@.profiles[index as int] == app.profiles[index as int]@);
        }
        let status = concat_str("deleted profile: ", app.profiles[index].name.as_str());
        let action = app.delete_profile(index);
        app.status = status;
        Step::Store(action)
    } else {
        Step::Continue
    }
}

/// The state and the step after the answer to [`Dialog::NewVarDef`]: a
/// definition is to be saved, and the status line says so.
pub open spec fn after_new_var_def(app: AppStateView, def: Option<CustomVarDefView>) -> (
    AppStateView,
    StepView,
) {
    match def {
        Some(def) => (
            with_status(app, "saved var def: "@ + def.name),
            StepView::Store(StoreActionView::SaveCustomVarDef(def)),
        ),
        None => (app, StepView::Continue),
    }
}

/// Takes the answer to [`Dialog::NewVarDef`].
pub fn finish_new_var_def(app: &mut AppState, def: Option<CustomVarDef>) -> (out: Step)
    ensures
        final(app)@ == after_new_var_def(old(app)@, def.deep_view()).0,
        out@ == after_new_var_def(old(app)@, def.deep_view()).1,
        old(app).wf() ==> final(app).wf(),
{
    match def {
        Some(def) => {
            app.status = concat_str("saved var def: ", def.name.as_str());
            Step::Store(StoreAction::SaveCustomVarDef(def))
        },
        None => Step::Continue,
    }
}

/// The state and the step after the answer to [`Dialog::NewItem`] or, with
/// `edited`, to [`Dialog::EditItem`]: an item is to be saved, and the status
/// line says so.
pub open spec fn after_item_form(
    app: AppStateView,
    item: Option<CatalogItemView>,
    edited: bool,
) -> (
    AppStateView,
    StepView,
) {
    match item {
        Some(item) => (
            with_status(
                app,
                if edited {
                    "updated item: "@ + item.value
                } else {
                    "saved item: "@ + item.value
                },
            ),
            StepView::Store(StoreActionView::SaveItem(item)),
        ),
        None => (app, StepView::Continue),
    }
}

/// Takes the answer to [`Dialog::NewItem`] or [`Dialog::EditItem`].
pub fn finish_item_form(app: &mut AppState, item: Option<CatalogItem>, edited: bool) -> (out: Step)
    ensures
        final(app)@ == after_item_form(old(app)@, item.deep_view(), edited).0,
        out@ == after_item_form(old(app)@, item.deep_view(), edited).1,
        old(app).wf() ==> final(app).wf(),
{
    match item {
        Some(item) => {
            app.status = if edited {
                concat_str("updated item: ", item.value.as_str())
            } else {
                concat_str("saved item: ", item.value.as_str())
            };
            Step::Store(StoreAction::SaveItem(item))
        },
        None => Step::Continue,
    }
}

/// The state and the step after the answer to [`Dialog::DeleteItem`].
pub open spec fn after_delete_item(app: AppStateView, id: i64, confirmed: bool) -> (
    AppStateView,
    StepView,
) {
    if confirmed {
        (with_status(app, "deleted item"@), StepView::Store(StoreActionView::DeleteItem(id)))
    } else {
        (app, StepView::Continue)
    }
}

/// Takes the answer to [`Dialog::DeleteItem`].
pub fn finish_delete_item(app: &mut AppState, id: i64, confirmed: bool) -> (out: Step)
    ensures
        final(app)@ == after_delete_item(old(app)@, id, confirmed).0,
        out@ == after_delete_item(old(app)@, id, confirmed).1,
        old(app).wf() ==> final(app).wf(),
{
    if confirmed {
        app.status = String::from_str("deleted item");
        Step::Store(StoreAction::DeleteItem(id))
    } else {
        Step::Continue
    }
}

/// The state and the step after dropping the item under the cursor of the
/// list of items into the variable whose parts are shown.
///
/// A scalar takes no dropped items. A list gets a part with the item's
/// value at its end.
pub open spec fn after_drop_item_into_current(app: AppStateView) -> (AppStateView, StepView) {
    let var = current_var(app);
    if option_for(app.var_options, var).kind != VarKind::List {
        (with_status(app, "cannot drop into scalar var"@), StepView::Continue)
    } else {
        match pointed_item(app) {
            Some(i) => (
                with_status(
                    app.with_active_entries(
                        app.active_entries().push(
                            part_for(app.custom_var_defs, var, app.items[i].value),
                        ),
                    ),
                    "dropped into "@ + var,
                ),
                save_active(app),
            ),
            None => (app, StepView::Continue),
        }
    }
}

/// Drops the item under the cursor into the variable whose parts are shown.
fn drop_item_into_current(app: &mut AppState) -> (out: Step)
    requires
        old(app).wf(),
    ensures
        final(app)@ == after_drop_item_into_current(old(app)@).0,
        out@ == after_drop_item_into_current(old(app)@).1,
        final(app).wf(),
{
    let var = current_var_name(app);
    let opt = var_option_for(app, var.as_str());
    match opt.kind {
        VarKind::List => {
            match selected_item_index(app) {
                Some(i) => {
                    proof {
                        assert(app@.items[i as int] == app.items[i as int]@);
                    }
                    let value = app.items[i].value.clone();
                    match make_part_entry(app, var.as_str(), value) {
                        Some(e) => {
                            let action = app.add_env_var(e);
                            app.status = concat_str("dropped into ", var.as_str());
                            Step::Store(action)
                        },
                        None => Step::Continue,
                    }
                },
                None => Step::Continue,
            }
        },
        VarKind::Scalar => {
            app.status = String::from_str("cannot drop into scalar var");
            Step::Continue
        },
    }
}

/// The state and the step after a key of the list of items.
///
/// `a` asks for a new item, `e` for changes to the item under the cursor,
/// `d` whether that item is to be deleted, if the store has given it a
/// number. `y` saves a copy of it as a new item, `m` picks it up, and `p`
/// drops it into the variable whose parts are shown.
pub open spec fn items_key(app: AppStateView, c: char) -> (AppStateView, StepView) {
    if c == 'a' {
        (app, StepView::Ask(DialogView::NewItem))
    } else if c == 'p' {
        after_drop_item_into_current(app)
    } else {
        match pointed_item(app) {
            Some(i) => if c == 'e' {
                (app, StepView::Ask(DialogView::EditItem { initial: app.items[i] }))
            } else if c == 'd' {
                match app.items[i].id {
                    Some(id) => (app, StepView::Ask(DialogView::DeleteItem { id })),
                    None => (app, StepView::Continue),
                }
            } else if c == 'y' {
                (
                    with_status(app, "duplicated item"@),
                    StepView::Store(
                        StoreActionView::SaveItem(
                            crate::config::CatalogItemView { id: None, ..app.items[i] },
                        ),
                    ),
                )
            } else if c == 'm' {
                (
                    AppStateView {
                        holding: Some(HoldingView::Item(app.items[i])),
                        status: "picked item"@,
                        ..app
                    },
                    StepView::Continue,
                )
            } else {
                (app, StepView::Continue)
            },
            None => (app, StepView::Continue),
        }
    }
}

/// Handles a key of the list of items.
pub fn handle_items_key(app: &mut AppState, c: char) -> (out: Step)
    requires
        old(app).wf(),
    ensures
        final(app)@ == items_key(old(app)@, c).0,
        out@ == items_key(old(app)@, c).1,
        final(app).wf(),
{
    if c == 'a' {
        return Step::Ask(Dialog::NewItem);
    }
    if c == 'p' {
        return drop_item_into_current(app);
    }
    match selected_item_index(app) {
        Some(i) => {
            proof {
                assert(app@.items[i as int] == app.items[i as int]@);
            }
            if c == 'e' {
                Step::Ask(Dialog::EditItem { initial: app.items[i].clone() })
            } else if c == 'd' {
                match app.items[i].id {
                    Some(id) => Step::Ask(Dialog::DeleteItem { id }),
                    None => Step::Continue,
                }
            } else if c == 'y' {
                let mut dup = app.items[i].clone();
                dup.id = None;
                app.status = String::from_str("duplicated item");
                Step::Store(StoreAction::SaveItem(dup))
            } else if c == 'm' {
                app.holding = Some(Holding::Item(app.items[i].clone()));
                app.status = String::from_str("picked item");
                Step::Continue
            } else {
                Step::Continue
            }
        },
        None => Step::Continue,
    }
}

/// The state and the step after `p` in the list of variables: the item that
/// is held is dropped into the variable under the cursor.
///
/// Nothing happens unless an item is held and the cursor points at a row. A
/// scalar takes no dropped items. A list gets a part with the item's value
/// at its end; it becomes the selected variable and the item is let go.
pub open spec fn after_drop_held_into_var(app: AppStateView) -> (AppStateView, StepView) {
    match app.holding {
        Some(HoldingView::Item(item)) => match app.vars_list_state.selected {
            Some(i) => if i < var_rows(app).len() {
                let row = var_rows(app)[i as int];
                if row.kind != VarKind::List {
                    (with_status(app, "cannot drop into scalar var"@), StepView::Continue)
                } else {
                    (
                        AppStateView {
                            holding: None,
                            selected_var_name: Some(row.name),
                            status: "dropped into "@ + row.name,
                            ..app.with_active_entries(
                                app.active_entries().push(
                                    part_for(app.custom_var_defs, row.name, item.value),
                                ),
                            )
                        },
                        save_active(app),
                    )
                }
            } else {
                (app, StepView::Continue)
            },
            None => (app, StepView::Continue),
        },
        _ => (app, StepView::Continue),
    }
}

/// Handles `p` in the list of variables.
pub fn drop_held_into_var(app: &mut AppState) -> (out: Step)
    requires
        old(app).wf(),
    ensures
        final(app)@ == after_drop_held_into_var(old(app)@).0,
        out@ == after_drop_held_into_var(old(app)@).1,
        final(app).wf(),
{
    let value = match &app.holding {
        Some(Holding::Item(it)) => it.value.clone(),
        _ => {
            return Step::Continue;
        },
    };
    let rows = compute_var_rows(app);
    match app.vars_list_state.selected() {
        Some(i) => {
            if i < rows.len() {
                proof {
                    assert(rows.deep_view()[i as int] == rows[i as int]@);
                }
                let row = &rows[i];
                match row.kind {
                    VarKind::List => match make_part_entry(app, row.name.as_str(), value) {
                        Some(e) => {
                            let action = app.add_env_var(e);
                            app.holding = None;
                            app.selected_var_name = Some(row.name.clone());
                            app.status = concat_str("dropped into ", row.name.as_str());
                            Step::Store(action)
                        },
                        None => Step::Continue,
                    },
                    VarKind::Scalar => {
                        app.status = String::from_str("cannot drop into scalar var");
                        Step::Continue
                    },
                }
            } else {
                Step::Continue
            }
        },
        None => Step::Continue,
    }
}

/// The state and the step after `p` in the list of parts: what is held is
/// dropped among the parts of the variable shown, before the part under the
/// cursor or at the end when the cursor points at no part.
///
/// A scalar takes nothing dropped. A held item gives a part with its value;
/// a held part gives a part of this variable with the held part's value, so
/// a part can move between variables. What was held is let go.
pub open spec fn after_drop_into_parts(app: AppStateView) -> (AppStateView, StepView) {
    let var = current_var(app);
    let parts = shown_parts(app);
    if option_for(app.var_options, var).kind != VarKind::List {
        (with_status(app, "cannot drop into scalar var"@), StepView::Continue)
    } else {
        match app.holding {
            None => (app, StepView::Continue),
            Some(held) => {
                let at = match pointed_part(app) {
                    Some(i) => i,
                    None => parts.len() as int,
                };
                let value = match held {
                    HoldingView::Item(item) => item.value,
                    HoldingView::Part { entry, .. } => entry.value(),
                };
                let part = part_for(app.custom_var_defs, var, value);
                (
                    AppStateView {
                        holding: None,
                        status: match held {
                            HoldingView::Item(_) => "dropped into "@ + var,
                            HoldingView::Part { .. } => "moved part into "@ + var,
                        },
                        ..with_parts(app, var, parts.insert(at, part))
                    },
                    save_active(app),
                )
            },
        }
    }
}

/// Handles `p` in the list of parts.
pub fn drop_into_parts(app: &mut AppState) -> (out: Step)
    requires
        old(app).wf(),
    ensures
        final(app)@ == after_drop_into_parts(old(app)@).0,
        out@ == after_drop_into_parts(old(app)@).1,
        final(app).wf(),
{
    let (var, mut parts, place) = part_under_cursor(app);
    let opt = var_option_for(app, var.as_str());
    match opt.kind {
        VarKind::Scalar => {
            app.status = String::from_str("cannot drop into scalar var");
            return Step::Continue;
        },
        VarKind::List => {},
    }
    let (value, status) = match &app.holding {
        None => {
            return Step::Continue;
        },
        Some(Holding::Item(it)) => (it.value.clone(), concat_str("dropped into ", var.as_str())),
        // A part that moves to another variable is made anew from its value.
        Some(Holding::Part { entry, .. }) => (
            preview_value(entry),
            concat_str("moved part into ", var.as_str()),
        ),
    };
    let insert_at = match place {
        Some(i) => i,
        None => parts.len(),
    };
    match make_part_entry(app, var.as_str(), value) {
        Some(e) => {
            let ghost before = parts.deep_view();
            parts.insert(insert_at, e);
            proof {
                assert(parts.deep_view() =~= before.insert(insert_at as int, e@));
            }
            let action = app.replace_var_parts(var.as_str(), parts);
            app.holding = None;
            app.status = status;
            Step::Store(action)
        },
        None => Step::Continue,
    }
}

/// The state and the step after a key of the list of parts.
///
/// `a` asks for a new part and `e` for changes to the part under the
/// cursor. `d` deletes that part and `y` puts a copy of it behind it. `K`
/// and `J` move it up and down among the parts of its variable, and the
/// cursor follows. `m` picks it up, and `p` drops what is held.
pub open spec fn parts_key(app: AppStateView, c: char) -> (AppStateView, StepView) {
    let var = current_var(app);
    let option = option_for(app.var_options, var);
    let parts = shown_parts(app);
    if c == 'a' {
        (app, StepView::Ask(DialogView::AddPart { var, option }))
    } else if c == 'p' {
        after_drop_into_parts(app)
    } else {
        match pointed_part(app) {
            None => (app, StepView::Continue),
            Some(i) => {
                let sel = app.parts_list_state.selected->0;
                if c == 'e' {
                    (
                        app,
                        StepView::Ask(
                            DialogView::EditPart { var, option, parts, index: i as usize },
                        ),
                    )
                } else if c == 'd' {
                    (
                        with_status(
                            with_parts(app, var, parts.remove(i)),
                            "deleted part from "@ + var,
                        ),
                        save_active(app),
                    )
                } else if c == 'y' {
                    (
                        with_status(
                            with_parts(app, var, parts.insert(i + 1, parts[i])),
                            "duplicated part in "@ + var,
                        ),
                        save_active(app),
                    )
                } else if c == 'K' {
                    if i > 0 {
                        (
                            AppStateView {
                                parts_list_state: ListState {
                                    selected: Some(
                                        if sel > 0 {
                                            (sel - 1) as usize
                                        } else {
                                            0
                                        },
                                    ),
                                },
                                status: "moved part up in "@ + var,
                                ..with_parts(
                                    app,
                                    var,
                                    crate::tui::state::swapped(parts, i - 1, i),
                                )
                            },
                            save_active(app),
                        )
                    } else {
                        (app, StepView::Continue)
                    }
                } else if c == 'J' {
                    if i + 1 < parts.len() {
                        (
                            AppStateView {
                                parts_list_state: ListState { selected: Some((sel + 1) as usize) },
                                status: "moved part down in "@ + var,
                                ..with_parts(
                                    app,
                                    var,
                                    crate::tui::state::swapped(parts, i, i + 1),
                                )
                            },
                            save_active(app),
                        )
                    } else {
                        (app, StepView::Continue)
                    }
                } else if c == 'm' {
                    (
                        AppStateView {
                            holding: Some(
                                HoldingView::Part { var, from: i as usize, entry: parts[i] },
                            ),
                            status: "moving part (navigate, p:drop, Esc:cancel)"@,
                            ..with_parts(app, var, parts.remove(i))
                        },
                        save_active(app),
                    )
                } else {
                    (app, StepView::Continue)
                }
            },
        }
    }
}

/// Handles a key of the list of parts.
pub fn handle_parts_key(app: &mut AppState, c: char) -> (out: Step)
    requires
        old(app).wf(),
    ensures
        final(app)@ == parts_key(old(app)@, c).0,
        out@ == parts_key(old(app)@, c).1,
        final(app).wf(),
{
    if c == 'a' {
        let var = current_var_name(app);
        let option = var_option_for(app, var.as_str());
        return Step::Ask(Dialog::AddPart { var, option });
    }
    if c == 'p' {
        return drop_into_parts(app);
    }
    let (var, mut parts, place) = part_under_cursor(app);
    let part_i = match place {
        Some(i) => i,
        None => {
            return Step::Continue;
        },
    };
    let sel = match app.parts_list_state.selected() {
        Some(sel) => sel,
        None => {
            return Step::Continue;
        },
    };
    let ghost before = parts.deep_view();
    proof {
        assert(before[part_i as int] == parts[part_i as int]@);
        lemma_kept_places_bounds(parts_kept(before, app@.parts_filter));
    }
    if c == 'e' {
        let option = var_option_for(app, var.as_str());
        Step::Ask(Dialog::EditPart { var, option, parts, index: part_i })
    } else if c == 'd' {
        parts.remove(part_i);
        proof {
            assert(parts.deep_view() =~= before.remove(part_i as int));
        }
        let action = app.replace_var_parts(var.as_str(), parts);
        app.status = concat_str("deleted part from ", var.as_str());
        Step::Store(action)
    } else if c == 'y' {
        let dup = parts[part_i].clone();
        parts.insert(part_i + 1, dup);
        proof {
            assert(parts.deep_view() =~= before.insert(part_i + 1, before[part_i as int]));
        }
        let action = app.replace_var_parts(var.as_str(), parts);
        app.status = concat_str("duplicated part in ", var.as_str());
        Step::Store(action)
    } else if c == 'K' {
        if part_i > 0 {
            let upper = parts[part_i - 1].clone();
            let lower = parts[part_i].clone();
            parts.set(part_i - 1, lower);
            parts.set(part_i, upper);
            proof {
                assert(before[part_i - 1] == upper@);
                assert(parts.deep_view() =~= crate::tui::state::swapped(
                    before,
                    part_i - 1,
                    part_i as int,
                ));
            }
            let action = app.replace_var_parts(var.as_str(), parts);
            app.parts_list_state.select(
                Some(
                    if sel > 0 {
                        sel - 1
                    } else {
                        0
                    },
                ),
            );
            app.status = concat_str("moved part up in ", var.as_str());
            Step::Store(action)
        } else {
            Step::Continue
        }
    } else if c == 'J' {
        if part_i + 1 < parts.len() {
            let upper = parts[part_i].clone();
            let lower = parts[part_i + 1].clone();
            parts.set(part_i, lower);
            parts.set(part_i + 1, upper);
            proof {
                assert(before[part_i + 1] == lower@);
                assert(parts.deep_view() =~= crate::tui::state::swapped(
                    before,
                    part_i as int,
                    part_i + 1,
                ));
            }
            let action = app.replace_var_parts(var.as_str(), parts);
            app.parts_list_state.select(Some(sel + 1));
            app.status = concat_str("moved part down in ", var.as_str());
            Step::Store(action)
        } else {
            Step::Continue
        }
    } else if c == 'm' {
        let entry = parts.remove(part_i);
        proof {
            assert(parts.deep_view() =~= before.remove(part_i as int));
        }
        let action = app.replace_var_parts(var.as_str(), parts);
        app.holding = Some(Holding::Part { var, from: part_i, entry });
        app.status = String::from_str("moving part (navigate, p:drop, Esc:cancel)");
        Step::Store(action)
    } else {
        Step::Continue
    }
}

/// The state and the step after the answer to [`Dialog::AddPart`].
///
/// No part changes nothing. A part of a scalar takes the place of whatever
/// parts the variable had; a part of a list goes to the end of the profile.
pub open spec fn after_add_part(
    app: AppStateView,
    var: Seq<char>,
    kind: VarKind,
    entry: Option<EntryView>,
) -> (AppStateView, StepView) {
    match entry {
        Some(e) => (
            with_status(
                if kind == VarKind::Scalar {
                    with_parts(app, var, seq![e])
                } else {
                    app.with_active_entries(app.active_entries().push(e))
                },
                "added part to "@ + var,
            ),
            save_active(app),
        ),
        None => (app, StepView::Continue),
    }
}

/// Takes the answer to [`Dialog::AddPart`].
pub fn finish_add_part(app: &mut AppState, var: &str, kind: VarKind, entry: Option<Entry>) -> (out:
    Step)
    requires
        old(app).wf(),
    ensures
        final(app)@ == after_add_part(old(app)@, var@, kind, entry.deep_view()).0,
        out@ == after_add_part(old(app)@, var@, kind, entry.deep_view()).1,
        final(app).wf(),
{
    match entry {
        Some(new_entry) => {
            let action = match kind {
                VarKind::Scalar => {
                    let mut only: Vec<Entry> = Vec::new();
                    only.push(new_entry);
                    proof {
                        assert(only.deep_view() =~= seq![new_entry@]);
                    }
                    app.replace_var_parts(var, only)
                },
                VarKind::List => app.add_env_var(new_entry),
            };
            app.status = concat_str("added part to ", var);
            Step::Store(action)
        },
        None => Step::Continue,
    }
}

/// The state and the step after the answer to [`Dialog::EditPart`]: the
/// part that comes back takes the place of the part that was edited.
pub open spec fn after_edit_part(
    app: AppStateView,
    var: Seq<char>,
    parts: Seq<EntryView>,
    index: int,
    entry: Option<EntryView>,
) -> (AppStateView, StepView) {
    match entry {
        Some(e) => (
            with_status(with_parts(app, var, parts.update(index, e)), "edited part in "@ + var),
            save_active(app),
        ),
        None => (app, StepView::Continue),
    }
}

/// Takes the answer to [`Dialog::EditPart`].
pub fn finish_edit_part(
    app: &mut AppState,
    var: &str,
    parts: Vec<Entry>,
    index: usize,
    entry: Option<Entry>,
) -> (out: Step)
    requires
        old(app).wf(),
        index < parts.len(),
    ensures
        final(app)@ == after_edit_part(
            old(app)@,
            var@,
            parts.deep_view(),
            index as int,
            entry.deep_view(),
        ).0,
        out@ == after_edit_part(
            old(app)@,
            var@,
            parts.deep_view(),
            index as int,
            entry.deep_view(),
        ).1,
        final(app).wf(),
{
    match entry {
        Some(new_entry) => {
            let mut parts = parts;
            let ghost before = parts.deep_view();
            parts.set(index, new_entry);
            proof {
                assert(parts.deep_view() =~= before.update(index as int, new_entry@));
            }
            let action = app.replace_var_parts(var, parts);
            app.status = concat_str("edited part in ", var);
            Step::Store(action)
        },
        None => Step::Continue,
    }
}

/// The state and the step after a character that belongs to the active
/// view.
pub open spec fn view_key(app: AppStateView, c: char) -> (AppStateView, StepView) {
    match app.active_view {
        view::View::Profiles => (app, profiles_key(app, c)),
        view::View::Defs => if c == 'C' {
            (app, StepView::Ask(DialogView::NewVarDef))
        } else {
            (app, StepView::Continue)
        },
        view::View::Items => items_key(app, c),
        view::View::Vars => if c == 'p' {
            after_drop_held_into_var(app)
        } else {
            (app, StepView::Continue)
        },
        view::View::Parts => parts_key(app, c),
        _ => (app, StepView::Continue),
    }
}

/// The state and the step after a key while the browser takes keys as
/// actions.
///
/// `q` leaves. `j`, `k`, the arrows and the page keys move the cursor, `G`
/// and Home jump to the first row, `g` and End to the last. Esc lets go of
/// what is held, Tab shows the next view and `?` the help. `:` opens the
/// command line and `/` the search. Enter acts on the row under the cursor.
/// Every other character is a key of the active view.
pub open spec fn after_normal_key(app: AppStateView, key: Key, themes: Seq<Seq<char>>) -> (
    AppStateView,
    StepView,
) {
    match key {
        Key::Char(c) => if c == 'q' {
            (app, StepView::Quit)
        } else if c == 'j' {
            (after_move(app, 1), StepView::Continue)
        } else if c == 'k' {
            (after_move(app, -1), StepView::Continue)
        } else if c == 'G' {
            (after_jump_to_top(app), StepView::Continue)
        } else if c == 'g' {
            (after_jump_to_bottom(app), StepView::Continue)
        } else if c == '?' {
            (AppStateView { active_view: view::View::Help, ..app }, StepView::Continue)
        } else if c == ':' {
            (after_open_command_line(app, themes), StepView::Continue)
        } else if c == '/' {
            (after_open_search(app), StepView::Continue)
        } else {
            view_key(app, c)
        },
        Key::Down => (after_move(app, 1), StepView::Continue),
        Key::Up => (after_move(app, -1), StepView::Continue),
        Key::PageUp => (after_move(app, -10), StepView::Continue),
        Key::PageDown => (after_move(app, 10), StepView::Continue),
        Key::Home => (after_jump_to_top(app), StepView::Continue),
        Key::End => (after_jump_to_bottom(app), StepView::Continue),
        Key::Esc => after_escape(app),
        Key::Tab => (after_cycle_view(app), StepView::Continue),
        Key::Enter => (after_activate(app), StepView::Continue),
        _ => (app, StepView::Continue),
    }
}

/// Handles a character that belongs to the active view.
fn handle_view_key(app: &mut AppState, c: char) -> (out: Step)
    requires
        old(app).wf(),
    ensures
        final(app)@ == view_key(old(app)@, c).0,
        out@ == view_key(old(app)@, c).1,
        final(app).wf(),
{
    match app.active_view {
        view::View::Profiles => handle_profiles_key(app, c),
        view::View::Defs => if c == 'C' {
            Step::Ask(Dialog::NewVarDef)
        } else {
            Step::Continue
        },
        view::View::Items => handle_items_key(app, c),
        view::View::Vars => if c == 'p' {
            drop_held_into_var(app)
        } else {
            Step::Continue
        },
        view::View::Parts => handle_parts_key(app, c),
        view::View::Preview | view::View::Export | view::View::Help => Step::Continue,
    }
}

/// Handles a key while the browser takes keys as actions.
pub fn handle_normal_key(app: &mut AppState, key: Key, theme_names: &Vec<String>) -> (out: Step)
    requires
        old(app).wf(),
    ensures
        final(app)@ == after_normal_key(old(app)@, key, theme_names.deep_view()).0,
        out@ == after_normal_key(old(app)@, key, theme_names.deep_view()).1,
        final(app).wf(),
{
    match key {
        Key::Char(c) => {
            if c == 'q' {
                return Step::Quit;
            }
            if c == 'j' {
                move_selection(app, 1);
            } else if c == 'k' {
                move_selection(app, -1);
            } else if c == 'G' {
                jump_to_top(app);
            } else if c == 'g' {
                jump_to_bottom(app);
            } else if c == '?' {
                app.active_view = view::View::Help;
            } else if c == ':' {
                open_command_line(app, theme_names);
            } else if c == '/' {
                open_search(app);
            } else {
                return handle_view_key(app, c);
            }
            Step::Continue
        },
        Key::Down => {
            move_selection(app, 1);
            Step::Continue
        },
        Key::Up => {
            move_selection(app, -1);
            Step::Continue
        },
        Key::PageUp => {
            move_selection(app, -10);
            Step::Continue
        },
        Key::PageDown => {
            move_selection(app, 10);
            Step::Continue
        },
        Key::Home => {
            jump_to_top(app);
            Step::Continue
        },
        Key::End => {
            jump_to_bottom(app);
            Step::Continue
        },
        Key::Esc => escape(app),
        Key::Tab => {
            cycle_view(app);
            Step::Continue
        },
        Key::Enter => {
            activate_selection(app);
            Step::Continue
        },
        _ => Step::Continue,
    }
}

/// The state and the step after a key, by what the keys are taken for.
pub open spec fn after_key(app: AppStateView, key: Key, themes: Seq<Seq<char>>) -> (
    AppStateView,
    StepView,
) {
    match app.input_mode {
        InputMode::Normal => after_normal_key(app, key, themes),
        InputMode::Command => after_command_key(app, key, themes),
        InputMode::Search => (after_search_key(app, key), StepView::Continue),
    }
}

/// Handles a key: changes the state and tells the caller what to do next.
/// `theme_names` are the names of the themes there are.
pub fn handle_key_event(app: &mut AppState, key: Key, theme_names: &Vec<String>) -> (out: Step)
    requires
        old(app).wf(),
    ensures
        final(app)@ == after_key(old(app)@, key, theme_names.deep_view()).0,
        out@ == after_key(old(app)@, key, theme_names.deep_view()).1,
        final(app).wf(),
{
    match app.input_mode {
        InputMode::Normal => handle_normal_key(app, key, theme_names),
        InputMode::Command => handle_command_key(app, key, theme_names),
        InputMode::Search => handle_search_key(app, key),
    }
}

} // verus!

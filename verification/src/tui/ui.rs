//! The texts that the browser shows, and how high its areas are.
//!
//! Nothing here draws. The functions compute the lines and the numbers that
//! the caller hands to the terminal.

use crate::config::{CatalogItem, CatalogItemView, Entry, EntryView, ItemKind, VarKind};
use crate::export::{generate_full_export, statements_spec, OperationMode};
use crate::text::{
    as_places, concat_str, decimal, decimal_spec, find_with_prefix, first_few, first_with_prefix,
    join, join_spec, kept_places, lines, lines_spec, name_order, order_by_name, pad_left, pad_right,
    padded_left, padded_right, take_first,
};
use crate::tui::commands::in_order;
use crate::tui::input::{
    current_var, current_var_name, pointed_item, pointed_part, pointed_profile, shown_parts,
};
use crate::tui::select::{
    compute_def_rows, compute_var_rows, current_var_parts, def_rows, items_kept, option_for,
    parts_kept, profiles_kept, selected_item_index, selected_profile_index, var_option_for,
    var_rows, visible_item_indices, visible_part_indices, visible_profile_indices, VarRow,
    VarRowView,
};
use crate::tui::state::{AppState, AppStateView, EditorStyle, VarTypeOption, VarTypeOptionView};
use crate::tui::view;
use vstd::prelude::*;

verus! {

/// The filter of the list of the active view; nothing for a view without a
/// list.
pub open spec fn active_filter_spec(app: AppStateView) -> Seq<char> {
    match app.active_view {
        view::View::Profiles => app.profiles_filter,
        view::View::Vars => app.vars_filter,
        view::View::Parts => app.parts_filter,
        view::View::Items => app.items_filter,
        view::View::Defs => app.defs_filter,
        _ => Seq::empty(),
    }
}

/// Returns the filter of the list of the active view.
pub fn active_filter(app: &AppState) -> (out: &str)
    ensures
        out@ == active_filter_spec(app@),
{
    match app.active_view {
        view::View::Profiles => app.profiles_filter.as_str(),
        view::View::Vars => app.vars_filter.as_str(),
        view::View::Parts => app.parts_filter.as_str(),
        view::View::Items => app.items_filter.as_str(),
        view::View::Defs => app.defs_filter.as_str(),
        view::View::Preview | view::View::Export | view::View::Help => {
            proof {
                reveal_strlit("");
                assert(""@ =~= Seq::<char>::empty());
            }
            ""
        },
    }
}

/// The keys of a view, as the header lists them.
pub open spec fn view_hints_spec(v: view::View) -> Seq<char> {
    match v {
        view::View::Profiles => "A:add E:rename D:del Enter:use  j/k:move  G:top g:bot  /:filter  ::cmd  q:quit"@,
        view::View::Vars => "Enter:parts p:drop-held  j/k:move  G:top g:bot  /:filter  ::cmd  q:quit"@,
        view::View::Parts => "a:add e:edit d:del y:dup J/K:move m:pick p:drop  j/k:move  G:top g:bot  /:filter  ::cmd  q:quit"@,
        view::View::Items => "a:add e:edit d:del y:dup m:pick p:drop  j/k:move  G:top g:bot  /:filter  ::cmd  q:quit"@,
        view::View::Defs => "C:new-var-def  j/k:move  G:top g:bot  /:filter  ::cmd  q:quit"@,
        view::View::Preview => "Shows preview for selected var  ::cmd  q:quit"@,
        view::View::Export => "Shows export line for selected var  ::cmd  q:quit"@,
        view::View::Help => "?:toggle-help  ::cmd  q:quit"@,
    }
}

/// Returns the keys of a view, as the header lists them.
pub fn view_hints(v: view::View) -> (out: String)
    ensures
        out@ == view_hints_spec(v),
{
    match v {
        view::View::Profiles => String::from_str(
            "A:add E:rename D:del Enter:use  j/k:move  G:top g:bot  /:filter  ::cmd  q:quit",
        ),
        view::View::Vars => String::from_str(
            "Enter:parts p:drop-held  j/k:move  G:top g:bot  /:filter  ::cmd  q:quit",
        ),
        view::View::Parts => String::from_str(
            "a:add e:edit d:del y:dup J/K:move m:pick p:drop  j/k:move  G:top g:bot  /:filter  ::cmd  q:quit",
        ),
        view::View::Items => String::from_str(
            "a:add e:edit d:del y:dup m:pick p:drop  j/k:move  G:top g:bot  /:filter  ::cmd  q:quit",
        ),
        view::View::Defs => String::from_str(
            "C:new-var-def  j/k:move  G:top g:bot  /:filter  ::cmd  q:quit",
        ),
        view::View::Preview => String::from_str(
            "Shows preview for selected var  ::cmd  q:quit",
        ),
        view::View::Export => String::from_str(
            "Shows export line for selected var  ::cmd  q:quit",
        ),
        view::View::Help => String::from_str(
            "?:toggle-help  ::cmd  q:quit",
        ),
    }
}

/// Returns the commands, as the header lists them.
pub fn command_hints() -> (out: String)
    ensures
        out@ == "Commands: :profiles :vars :parts :items :defs :preview :export :themes :theme <name> :use <profile> :new-var :new-item :quit"@,
{
    // Keep this short-ish so it fits most terminals.
    String::from_str(
        "Commands: :profiles :vars :parts :items :defs :preview :export :themes :theme <name> :use <profile> :new-var :new-item :quit",
    )
}

/// The first line of the header: profile, view, variable and filter.
pub open spec fn header_context_spec(app: AppStateView) -> Seq<char> {
    "Profile: "@ + (if app.active_profile_index < app.profiles.len() {
        app.profiles[app.active_profile_index as int].name
    } else {
        "<none>"@
    }) + " | View: "@ + app.active_view.title_spec() + " | Var: "@ + (match app.selected_var_name {
        Some(name) => name,
        None => "<none>"@,
    }) + (if active_filter_spec(app).len() == 0 {
        Seq::empty()
    } else {
        " | Filter: "@ + active_filter_spec(app)
    })
}

/// Returns the first line of the header.
pub fn header_context(app: &AppState) -> (out: String)
    ensures
        out@ == header_context_spec(app@),
{
    let mut out = String::from_str("Profile: ");
    if app.active_profile_index < app.profiles.len() {
        proof {
            assert(app@.profiles[app.active_profile_index as int]
                == app.profiles[app.active_profile_index as int]@);
        }
        out.append(app.profiles[app.active_profile_index].name.as_str());
    } else {
        out.append("<none>");
    }
    out.append(" | View: ");
    out.append(app.active_view.title());
    out.append(" | Var: ");
    match &app.selected_var_name {
        Some(name) => out.append(name.as_str()),
        None => out.append("<none>"),
    }
    let filter = active_filter(app);
    if filter.unicode_len() > 0 {
        out.append(" | Filter: ");
        out.append(filter);
    }
    proof {
        assert(out@ =~= header_context_spec(app@));
    }
    out
}

/// The second line of the header: the keys of the view and the status.
pub open spec fn header_status_spec(app: AppStateView) -> Seq<char> {
    view_hints_spec(app.active_view) + (if app.status.len() == 0 {
        Seq::empty()
    } else {
        " | "@ + app.status
    })
}

/// Returns the second line of the header.
pub fn header_status(app: &AppState) -> (out: String)
    ensures
        out@ == header_status_spec(app@),
{
    let mut out = view_hints(app.active_view);
    if app.status.as_str().unicode_len() > 0 {
        out.append(" | ");
        out.append(app.status.as_str());
    }
    proof {
        assert(out@ =~= header_status_spec(app@));
    }
    out
}

/// The heights of the header and of the details in a terminal of `height`
/// rows; the list gets what is left between them.
///
/// The header has three rows, fewer in a lower terminal. The details have a
/// third of the terminal and at least seven rows, but no more than the
/// header leaves.
pub open spec fn main_layout_spec(height: u16) -> (u16, u16) {
    let header: u16 = if height < 3 {
        height
    } else {
        3
    };
    let third: u16 = if height / 3 < 7 {
        7
    } else {
        height / 3
    };
    let detail: u16 = if third < height - header {
        third
    } else {
        (height - header) as u16
    };
    (header, detail)
}

/// Returns the heights of the header and of the details.
pub fn main_layout(height: u16) -> (out: (u16, u16))
    ensures
        out == main_layout_spec(height),
        out.0 + out.1 <= height,
{
    let header: u16 = if height < 3 {
        height
    } else {
        3
    };
    let third: u16 = if height / 3 < 7 {
        7
    } else {
        height / 3
    };
    let left: u16 = height - header;
    let detail: u16 = if third < left {
        third
    } else {
        left
    };
    (header, detail)
}

/// How many suggestions the command line shows: at most eight.
pub open spec fn shown_suggestion_count(app: AppStateView) -> nat {
    if app.command_suggestions.len() < 8 {
        app.command_suggestions.len()
    } else {
        8
    }
}

/// The height of the command line with its suggestions in a terminal of
/// `height` rows: two rows and one per suggestion shown, as far as the
/// terminal has them.
pub open spec fn command_overlay_height_spec(app: AppStateView, height: u16) -> u16 {
    if shown_suggestion_count(app) + 2 < height {
        (shown_suggestion_count(app) + 2) as u16
    } else {
        height
    }
}

/// Returns the height of the command line with its suggestions.
pub fn command_overlay_height(app: &AppState, height: u16) -> (out: u16)
    ensures
        out == command_overlay_height_spec(app@, height),
        out <= height,
{
    let shown: u16 = if app.command_suggestions.len() < 8 {
        app.command_suggestions.len() as u16
    } else {
        8
    };
    if shown + 2 < height {
        shown + 2
    } else {
        height
    }
}

/// The height of the search line in a terminal of `height` rows: three
/// rows, as far as the terminal has them.
pub fn search_overlay_height(height: u16) -> (out: u16)
    ensures
        out == if height < 3 {
            height
        } else {
            3u16
        },
{
    if height < 3 {
        height
    } else {
        3
    }
}

/// Returns the suggestions that the command line shows.
pub fn shown_suggestions(app: &AppState) -> (out: Vec<String>)
    ensures
        out.deep_view() == first_few(app@.command_suggestions, 8),
{
    take_first(&app.command_suggestions, 8)
}

/// Where the cursor stands among `count` suggestions shown: on the
/// suggestion selected, or on the last one shown if that one is not shown;
/// nowhere when none is shown.
pub fn suggestion_cursor(app: &AppState, count: usize) -> (out: Option<usize>)
    ensures
        out == if count == 0 {
            None
        } else if app.command_selected < count {
            Some(app.command_selected)
        } else {
            Some((count - 1) as usize)
        },
{
    if count == 0 {
        None
    } else if app.command_selected < count {
        Some(app.command_selected)
    } else {
        Some(count - 1)
    }
}

/// Returns what the command line shows of what has been typed.
pub fn command_prompt(app: &AppState) -> (out: String)
    ensures
        out@ == ":"@ + app@.command_input,
{
    concat_str(":", app.command_input.as_str())
}

/// Returns what the search line shows of what has been typed.
pub fn search_prompt(app: &AppState) -> (out: String)
    ensures
        out@ == "/"@ + app@.command_input,
{
    concat_str("/", app.command_input.as_str())
}

/// The line of a profile in the list of profiles: a star before the active
/// profile.
pub open spec fn profile_line_spec(app: AppStateView, place: int) -> Seq<char> {
    (if place == app.active_profile_index {
        "* "@
    } else {
        "  "@
    }) + app.profiles[place].name
}

/// The lines of the list of profiles.
pub open spec fn profile_lines_spec(app: AppStateView) -> Seq<Seq<char>> {
    Seq::new(
        kept_places(profiles_kept(app)).len(),
        |j: int| profile_line_spec(app, kept_places(profiles_kept(app))[j]),
    )
}

/// Returns the lines of the list of profiles.
pub fn profile_lines(app: &AppState) -> (out: Vec<String>)
    ensures
        out.deep_view() == profile_lines_spec(app@),
{
    let indices = visible_profile_indices(app);
    let mut out: Vec<String> = Vec::new();
    let mut j: usize = 0;
    while j < indices.len()
        invariant
            j <= indices.len(),
            as_places(indices@) == kept_places(profiles_kept(app@)),
            forall|k: int| 0 <= k < indices.len() ==> (#[trigger] indices[k]) < app.profiles.len(),
            out.len() == j,
            forall|m: int| 0 <= m < j ==> (#[trigger] out[m])@ == profile_lines_spec(app@)[m],
        decreases indices.len() - j,
    {
        let i = indices[j];
        proof {
            assert(as_places(indices@)[j as int] == i);
            assert(app@.profiles[i as int] == app.profiles[i as int]@);
        }
        let mark = if i == app.active_profile_index {
            "* "
        } else {
            "  "
        };
        out.push(concat_str(mark, app.profiles[i].name.as_str()));
        j += 1;
    }
    proof {
        assert(as_places(indices@).len() == indices.len());
        assert forall|m: int| 0 <= m < out.len() implies out.deep_view()[m] == profile_lines_spec(
            app@,
        )[m] by {
            assert(out.deep_view()[m] == out[m]@);
        }
        assert(out.deep_view() =~= profile_lines_spec(app@));
    }
    out
}

/// The line of a row of the list of variables: a letter for the kind, the
/// name filled up to eighteen characters, the number of parts filled up to
/// three, and the separator in quotes.
pub open spec fn var_line_spec(row: VarRowView) -> Seq<char> {
    (match row.kind {
        VarKind::Scalar => "S"@,
        VarKind::List => "L"@,
    }) + "  "@ + padded_right(row.name, 18) + "  "@ + padded_left(decimal_spec(row.count), 3)
        + "  sep='"@ + row.separator + "'"@
}

/// Returns the line of a row of the list of variables.
pub fn var_line(row: &VarRow) -> (out: String)
    ensures
        out@ == var_line_spec(row@),
{
    let mut out = match row.kind {
        VarKind::Scalar => String::from_str("S"),
        VarKind::List => String::from_str("L"),
    };
    out.append("  ");
    out.append(pad_right(row.name.as_str(), 18).as_str());
    out.append("  ");
    out.append(pad_left(decimal(row.count).as_str(), 3).as_str());
    out.append("  sep='");
    out.append(row.separator.as_str());
    out.append("'");
    proof {
        assert(out@ =~= var_line_spec(row@));
    }
    out
}

/// Returns the lines of the list of variables.
pub fn var_lines(app: &AppState) -> (out: Vec<String>)
    requires
        app.wf(),
    ensures
        out.len() == var_rows(app@).len(),
        forall|j: int| 0 <= j < out.len() ==> (#[trigger] out[j])@ == var_line_spec(var_rows(app@)[j]),
{
    let rows = compute_var_rows(app);
    let mut out: Vec<String> = Vec::new();
    let mut j: usize = 0;
    while j < rows.len()
        invariant
            j <= rows.len(),
            rows.deep_view() == var_rows(app@),
            out.len() == j,
            forall|m: int| 0 <= m < j ==> (#[trigger] out[m])@ == var_line_spec(var_rows(app@)[m]),
        decreases rows.len() - j,
    {
        proof {
            assert(rows.deep_view()[j as int] == rows[j as int]@);
        }
        out.push(var_line(&rows[j]));
        j += 1;
    }
    out
}

/// The lines of the list of parts: the lines of the parts shown that pass
/// the filter.
pub open spec fn part_lines_spec(app: AppStateView) -> Seq<Seq<char>> {
    Seq::new(
        kept_places(parts_kept(shown_parts(app), app.parts_filter)).len(),
        |j: int|
            shown_parts(app)[kept_places(parts_kept(shown_parts(app), app.parts_filter))[j]].text(),
    )
}

/// Returns the lines of the list of parts.
pub fn part_lines(app: &AppState) -> (out: Vec<String>)
    requires
        app.wf(),
    ensures
        out.deep_view() == part_lines_spec(app@),
{
    let var = current_var_name(app);
    let parts = current_var_parts(app, var.as_str());
    let indices = visible_part_indices(app, parts.as_slice());
    let ghost kept = kept_places(parts_kept(shown_parts(app@), app@.parts_filter));
    let mut out: Vec<String> = Vec::new();
    let mut j: usize = 0;
    while j < indices.len()
        invariant
            j <= indices.len(),
            parts.deep_view() == shown_parts(app@),
            kept == kept_places(parts_kept(shown_parts(app@), app@.parts_filter)),
            as_places(indices@) == kept,
            forall|k: int| 0 <= k < indices.len() ==> (#[trigger] indices[k]) < parts.len(),
            out.len() == j,
            forall|m: int| 0 <= m < j ==> (#[trigger] out[m])@ == part_lines_spec(app@)[m],
        decreases indices.len() - j,
    {
        let i = indices[j];
        proof {
            assert(as_places(indices@)[j as int] == i);
            assert(parts.deep_view()[i as int] == parts[i as int]@);
        }
        out.push(parts[i].to_text());
        j += 1;
    }
    proof {
        assert(as_places(indices@).len() == indices.len());
        assert forall|m: int| 0 <= m < out.len() implies out.deep_view()[m] == part_lines_spec(
            app@,
        )[m] by {
            assert(out.deep_view()[m] == out[m]@);
        }
        assert(out.deep_view() =~= part_lines_spec(app@));
    }
    out
}

/// Returns the title of the list of parts.
pub fn parts_title(app: &AppState) -> (out: String)
    ensures
        out@ == "Parts for "@ + current_var(app@),
{
    concat_str("Parts for ", current_var_name(app).as_str())
}

/// The line of an item in the list of items: its kind in four characters,
/// its value, and its tags in brackets if it has any.
pub open spec fn item_line_spec(item: CatalogItemView) -> Seq<char> {
    padded_right(
        match item.kind {
            ItemKind::Text => "TXT"@,
            ItemKind::Path => "PATH"@,
        },
        4,
    ) + " "@ + item.value + (if item.tags.len() == 0 {
        Seq::empty()
    } else {
        "  ["@ + join_spec(item.tags, ","@) + "]"@
    })
}

/// Returns the line of an item in the list of items.
pub fn item_line(item: &CatalogItem) -> (out: String)
    ensures
        out@ == item_line_spec(item@),
{
    let kind = match item.kind {
        ItemKind::Text => "TXT",
        ItemKind::Path => "PATH",
    };
    let mut out = pad_right(kind, 4);
    out.append(" ");
    out.append(item.value.as_str());
    if item.tags.len() > 0 {
        out.append("  [");
        out.append(join(&item.tags, ",").as_str());
        out.append("]");
    }
    proof {
        assert(item@.tags.len() == item.tags.len());
        assert(out@ =~= item_line_spec(item@));
    }
    out
}

/// The lines of the list of items.
pub open spec fn item_lines_spec(app: AppStateView) -> Seq<Seq<char>> {
    Seq::new(
        kept_places(items_kept(app)).len(),
        |j: int| item_line_spec(app.items[kept_places(items_kept(app))[j]]),
    )
}

/// Returns the lines of the list of items.
pub fn item_lines(app: &AppState) -> (out: Vec<String>)
    ensures
        out.deep_view() == item_lines_spec(app@),
{
    let indices = visible_item_indices(app);
    let mut out: Vec<String> = Vec::new();
    let mut j: usize = 0;
    while j < indices.len()
        invariant
            j <= indices.len(),
            as_places(indices@) == kept_places(items_kept(app@)),
            forall|k: int| 0 <= k < indices.len() ==> (#[trigger] indices[k]) < app.items.len(),
            out.len() == j,
            forall|m: int| 0 <= m < j ==> (#[trigger] out[m])@ == item_lines_spec(app@)[m],
        decreases indices.len() - j,
    {
        let i = indices[j];
        proof {
            assert(as_places(indices@)[j as int] == i);
            assert(app@.items[i as int] == app.items[i as int]@);
        }
        out.push(item_line(&app.items[i]));
        j += 1;
    }
    proof {
        assert(as_places(indices@).len() == indices.len());
        assert forall|m: int| 0 <= m < out.len() implies out.deep_view()[m] == item_lines_spec(
            app@,
        )[m] by {
            assert(out.deep_view()[m] == out[m]@);
        }
        assert(out.deep_view() =~= item_lines_spec(app@));
    }
    out
}

/// The word for a kind of variable.
pub open spec fn var_kind_name(kind: VarKind) -> Seq<char> {
    match kind {
        VarKind::Scalar => "Scalar"@,
        VarKind::List => "List"@,
    }
}

/// Returns the word for a kind of variable.
pub fn var_kind_label(kind: VarKind) -> (out: &'static str)
    ensures
        out@ == var_kind_name(kind),
{
    match kind {
        VarKind::Scalar => "Scalar",
        VarKind::List => "List",
    }
}

/// The line of a catalog entry in the list of definitions: the name filled
/// up to eighteen characters, the kind filled up to six, and the separator
/// in quotes.
pub open spec fn def_line_spec(option: VarTypeOptionView) -> Seq<char> {
    padded_right(option.name, 18) + "  "@ + padded_right(var_kind_name(option.kind), 6)
        + "  sep='"@ + option.separator + "'"@
}

/// Returns the line of a catalog entry in the list of definitions.
pub fn def_line(option: &VarTypeOption) -> (out: String)
    ensures
        out@ == def_line_spec(option@),
{
    let mut out = pad_right(option.name.as_str(), 18);
    out.append("  ");
    out.append(pad_right(var_kind_label(option.kind), 6).as_str());
    out.append("  sep='");
    out.append(option.separator.as_str());
    out.append("'");
    proof {
        assert(out@ =~= def_line_spec(option@));
    }
    out
}

/// Returns the lines of the list of definitions.
pub fn def_lines(app: &AppState) -> (out: Vec<String>)
    ensures
        out.len() == def_rows(app@).len(),
        forall|j: int| 0 <= j < out.len() ==> (#[trigger] out[j])@ == def_line_spec(def_rows(app@)[j]),
{
    let rows = compute_def_rows(app);
    let mut out: Vec<String> = Vec::new();
    let mut j: usize = 0;
    while j < rows.len()
        invariant
            j <= rows.len(),
            rows.deep_view() == def_rows(app@),
            out.len() == j,
            forall|m: int| 0 <= m < j ==> (#[trigger] out[m])@ == def_line_spec(def_rows(app@)[m]),
        decreases rows.len() - j,
    {
        proof {
            assert(rows.deep_view()[j as int] == rows[j as int]@);
        }
        out.push(def_line(&rows[j]));
        j += 1;
    }
    out
}

/// The values of parts.
pub open spec fn values_of(parts: Seq<EntryView>) -> Seq<Seq<char>> {
    Seq::new(parts.len(), |i: int| parts[i].value())
}

/// The parts of the variable shown, joined with the separator that the
/// catalog has for it.
pub open spec fn joined_preview(app: AppStateView) -> Seq<char> {
    join_spec(
        values_of(shown_parts(app)),
        option_for(app.var_options, current_var(app)).separator,
    )
}

/// Joins the values of `parts` with `sep`.
fn join_values(parts: &Vec<Entry>, sep: &str) -> (out: String)
    ensures
        out@ == join_spec(values_of(parts.deep_view()), sep@),
{
    let mut values: Vec<String> = Vec::new();
    let mut i: usize = 0;
    while i < parts.len()
        invariant
            i <= parts.len(),
            values.len() == i,
            forall|j: int| 0 <= j < i ==> values[j]@ == parts[j]@.value(),
        decreases parts.len() - i,
    {
        values.push(parts[i].display_value());
        i += 1;
    }
    proof {
        assert forall|j: int| 0 <= j < parts.len() implies values.deep_view()[j] == values_of(
            parts.deep_view(),
        )[j] by {
            assert(values.deep_view()[j] == values[j]@);
            assert(parts.deep_view()[j] == parts[j]@);
        }
        assert(values.deep_view() =~= values_of(parts.deep_view()));
    }
    join(&values, sep)
}

/// The text of the preview: the variable, its joined value and the number
/// of its parts.
pub open spec fn preview_text_spec(app: AppStateView) -> Seq<char> {
    current_var(app) + " = "@ + joined_preview(app) + "\n\n(parts: "@ + decimal_spec(
        shown_parts(app).len(),
    ) + ")"@
}

/// Returns the text of the preview.
pub fn preview_text(app: &AppState) -> (out: String)
    requires
        app.wf(),
    ensures
        out@ == preview_text_spec(app@),
{
    let var = current_var_name(app);
    let parts = current_var_parts(app, var.as_str());
    let option = var_option_for(app, var.as_str());
    let mut out = var.clone();
    out.append(" = ");
    out.append(join_values(&parts, option.separator.as_str()).as_str());
    out.append("\n\n(parts: ");
    out.append(decimal(parts.len()).as_str());
    out.append(")");
    proof {
        assert(parts.deep_view().len() == parts.len());
        assert(out@ =~= preview_text_spec(app@));
    }
    out
}

/// The full export of the active profile, new values put first.
pub open spec fn active_export(app: AppStateView) -> Seq<char> {
    join_spec(statements_spec(app.active_entries(), OperationMode::Prepend), "\n"@)
}

/// The line of the export of the active profile that assigns the variable
/// shown; nothing when no line does.
pub open spec fn export_line_spec(app: AppStateView) -> Seq<char> {
    first_with_prefix(lines_spec(active_export(app)), "export "@ + current_var(app) + "="@)
}

/// Returns the line of the export of the active profile that assigns the
/// variable shown.
pub fn export_line(app: &AppState) -> (out: String)
    requires
        app.wf(),
    ensures
        out@ == export_line_spec(app@),
{
    let var = current_var_name(app);
    proof {
        assert(app@.profiles[app.active_profile_index as int]
            == app.profiles[app.active_profile_index as int]@);
    }
    let full = generate_full_export(&app.profiles[app.active_profile_index], OperationMode::Prepend);
    let all = lines(full.as_str());
    let mut prefix = String::from_str("export ");
    prefix.append(var.as_str());
    prefix.append("=");
    find_with_prefix(&all, prefix.as_str())
}

/// The themes as the help lists them: in the order of their names, six to a
/// line with two spaces between them.
pub open spec fn themes_block_spec(names: Seq<Seq<char>>) -> Seq<char> {
    join_spec(rows_of_six(in_order(names)), "\n"@)
}

/// `names` six by six, each six joined with two spaces; the last line may
/// hold fewer.
pub open spec fn rows_of_six(names: Seq<Seq<char>>) -> Seq<Seq<char>>
    decreases names.len(),
{
    if names.len() == 0 {
        Seq::empty()
    } else if names.len() <= 6 {
        seq![join_spec(names, "  "@)]
    } else {
        seq![join_spec(names.take(6), "  "@)] + rows_of_six(names.skip(6))
    }
}

/// Copies `texts[from..to]`.
fn copy_range(texts: &Vec<String>, from: usize, to: usize) -> (out: Vec<String>)
    requires
        from <= to <= texts.len(),
    ensures
        out.deep_view() == texts.deep_view().subrange(from as int, to as int),
{
    let mut out: Vec<String> = Vec::new();
    let mut i: usize = from;
    while i < to
        invariant
            from <= i <= to <= texts.len(),
            out.len() == i - from,
            forall|j: int| 0 <= j < i - from ==> out[j]@ == texts[from + j]@,
        decreases to - i,
    {
        out.push(texts[i].clone());
        i += 1;
    }
    proof {
        assert(out.deep_view() =~= texts.deep_view().subrange(from as int, to as int));
    }
    out
}

/// Puts `names` in order.
fn sorted_names(names: &Vec<String>) -> (out: Vec<String>)
    ensures
        out.deep_view() == in_order(names.deep_view()),
{
    let order = order_by_name(names);
    let mut out: Vec<String> = Vec::new();
    let mut k: usize = 0;
    while k < order.len()
        invariant
            k <= order.len(),
            order.len() == names.len(),
            as_places(order@) == name_order(names.deep_view()),
            forall|j: int| 0 <= j < order.len() ==> (#[trigger] order[j]) < names.len(),
            out.len() == k,
            forall|m: int| 0 <= m < k ==> (#[trigger] out[m])@ == in_order(names.deep_view())[m],
        decreases order.len() - k,
    {
        proof {
            assert(as_places(order@)[k as int] == order[k as int]);
            assert(names.deep_view()[order[k as int] as int] == names[order[k as int] as int]@);
        }
        out.push(names[order[k]].clone());
        k += 1;
    }
    proof {
        assert forall|m: int| 0 <= m < out.len() implies out.deep_view()[m] == in_order(
            names.deep_view(),
        )[m] by {
            assert(out.deep_view()[m] == out[m]@);
        }
        assert(out.deep_view() =~= in_order(names.deep_view()));
    }
    out
}

/// Returns the themes as the help lists them.
pub fn themes_block(theme_names: &Vec<String>) -> (out: String)
    ensures
        out@ == themes_block_spec(theme_names.deep_view()),
{
    let sorted = sorted_names(theme_names);
    let ghost all = sorted.deep_view();
    let mut rows: Vec<String> = Vec::new();
    let mut at: usize = 0;
    proof {
        assert(all.skip(0) =~= all);
        assert(rows.deep_view() + rows_of_six(all.skip(0)) =~= rows_of_six(all));
    }
    while at < sorted.len()
        invariant
            at <= sorted.len(),
            all == sorted.deep_view(),
            rows.deep_view() + rows_of_six(all.skip(at as int)) == rows_of_six(all),
        decreases sorted.len() - at,
    {
        let ghost before = rows.deep_view();
        let ghost rest = all.skip(at as int);
        let end = if sorted.len() - at <= 6 {
            sorted.len()
        } else {
            at + 6
        };
        let chunk = copy_range(&sorted, at, end);
        rows.push(join(&chunk, "  "));
        proof {
            assert(rows.deep_view() =~= before.push(join_spec(chunk.deep_view(), "  "@)));
            if sorted.len() - at <= 6 {
                assert(chunk.deep_view() =~= rest);
                assert(all.skip(end as int) =~= Seq::<Seq<char>>::empty());
                assert(rows.deep_view() + rows_of_six(all.skip(end as int)) =~= before
                    + rows_of_six(rest));
            } else {
                assert(chunk.deep_view() =~= rest.take(6));
                assert(all.skip(end as int) =~= rest.skip(6));
                assert(rows.deep_view() + rows_of_six(all.skip(end as int)) =~= before
                    + rows_of_six(rest));
            }
        }
        at = end;
    }
    proof {
        assert(rows_of_six(all.skip(all.len() as int)) =~= Seq::<Seq<char>>::empty());
        assert(rows.deep_view() =~= rows_of_six(all));
    }
    join(&rows, "\n")
}

/// The text of the help: the keys, the views, the theme in use and the
/// themes there are.
pub open spec fn help_text_spec(app: AppStateView, theme_names: Seq<Seq<char>>) -> Seq<char> {
    "Navigation\n  :  command palette (jump to views, actions)\n  /  filter current view\n  Tab  cycle views\n  q  quit\n\nViews\n  profiles  vars  parts  items  defs  preview  export  help\n\nTheme\n  current: "@ + app.theme_name + "\n  preset:  "@ + app.theme_preset + "\n  :themes (count: "@
        + decimal_spec(theme_names.len()) + ")\n  :theme <name>\n\nAvailable DaisyUI themes:\n"@
        + themes_block_spec(theme_names) + "\n\nNotes\n  Items can be picked with m and dropped with p (in Items/Vars/Parts depending on context).\n"@
}

/// Returns the text of the help.
pub fn help_text(app: &AppState, theme_names: &Vec<String>) -> (out: String)
    ensures
        out@ == help_text_spec(app@, theme_names.deep_view()),
{
    let mut out = String::from_str(
        "Navigation\n  :  command palette (jump to views, actions)\n  /  filter current view\n  Tab  cycle views\n  q  quit\n\nViews\n  profiles  vars  parts  items  defs  preview  export  help\n\nTheme\n  current: ",
    );
    out.append(app.theme_name.as_str());
    out.append("\n  preset:  ");
    out.append(app.theme_preset.as_str());
    out.append("\n  :themes (count: ");
    out.append(decimal(theme_names.len()).as_str());
    out.append(")\n  :theme <name>\n\nAvailable DaisyUI themes:\n");
    out.append(themes_block(theme_names).as_str());
    out.append(
        "\n\nNotes\n  Items can be picked with m and dropped with p (in Items/Vars/Parts depending on context).\n",
    );
    proof {
        assert(theme_names.deep_view().len() == theme_names.len());
        assert(out@ =~= help_text_spec(app@, theme_names.deep_view()));
    }
    out
}

/// The profile that the details are about: the one under the cursor of the
/// list of profiles, or the active one when the cursor points at none.
pub open spec fn detailed_profile(app: AppStateView) -> int {
    match pointed_profile(app) {
        Some(place) => place,
        None => app.active_profile_index as int,
    }
}

/// The details of a profile: its name, the number of its entries and the
/// first twelve lines of its export.
pub open spec fn details_profiles_spec(app: AppStateView) -> Seq<char> {
    let place = detailed_profile(app);
    if 0 <= place < app.profiles.len() {
        "Profile: "@ + app.profiles[place].name + "\nEntries: "@ + decimal_spec(
            app.profiles[place].entries.len(),
        ) + "\n\nExport (first lines):\n"@ + join_spec(
            first_few(
                lines_spec(
                    join_spec(
                        statements_spec(app.profiles[place].entries, OperationMode::Prepend),
                        "\n"@,
                    ),
                ),
                12,
            ),
            "\n"@,
        )
    } else {
        "No profiles."@
    }
}

/// Returns the details of a profile.
pub fn details_profiles(app: &AppState) -> (out: String)
    ensures
        out@ == details_profiles_spec(app@),
{
    let selected = match selected_profile_index(app) {
        Some(place) => place,
        None => app.active_profile_index,
    };
    if selected >= app.profiles.len() {
        return String::from_str("No profiles.");
    }
    let p = &app.profiles[selected];
    proof {
        assert(app@.profiles[selected as int] == p@);
        assert(p@.entries.len() == p.entries.len());
    }
    let full = generate_full_export(p, OperationMode::Prepend);
    let all = lines(full.as_str());
    let first = take_first(&all, 12);
    let mut out = String::from_str("Profile: ");
    out.append(p.name.as_str());
    out.append("\nEntries: ");
    out.append(decimal(p.entries.len()).as_str());
    out.append("\n\nExport (first lines):\n");
    out.append(join(&first, "\n").as_str());
    proof {
        assert(out@ =~= details_profiles_spec(app@));
    }
    out
}

/// The details of the variable shown: its parts, its separator, its joined
/// value and its line of the export.
pub open spec fn details_vars_spec(app: AppStateView) -> Seq<char> {
    "Var: "@ + current_var(app) + "\nParts: "@ + decimal_spec(shown_parts(app).len())
        + "\nSeparator: '"@ + option_for(app.var_options, current_var(app)).separator
        + "'\n\nPreview:\n"@ + joined_preview(app) + "\n\nExport:\n"@ + export_line_spec(app)
        + "\n"@
}

/// Returns the details of the variable shown.
pub fn details_vars(app: &AppState) -> (out: String)
    requires
        app.wf(),
    ensures
        out@ == details_vars_spec(app@),
{
    let var = current_var_name(app);
    let parts = current_var_parts(app, var.as_str());
    let option = var_option_for(app, var.as_str());
    let mut out = String::from_str("Var: ");
    out.append(var.as_str());
    out.append("\nParts: ");
    out.append(decimal(parts.len()).as_str());
    out.append("\nSeparator: '");
    out.append(option.separator.as_str());
    out.append("'\n\nPreview:\n");
    out.append(join_values(&parts, option.separator.as_str()).as_str());
    out.append("\n\nExport:\n");
    out.append(export_line(app).as_str());
    out.append("\n");
    proof {
        assert(parts.deep_view().len() == parts.len());
        assert(out@ =~= details_vars_spec(app@));
    }
    out
}

/// The details of the part under the cursor: its place, its line and its
/// value.
pub open spec fn details_parts_spec(app: AppStateView) -> Seq<char> {
    match pointed_part(app) {
        Some(place) => "Var: "@ + current_var(app) + "\nIndex: "@ + decimal_spec(place as nat)
            + "\nEntry:\n"@ + shown_parts(app)[place].text() + "\n\nValue:\n"@ + shown_parts(
            app,
        )[place].value() + "\n"@,
        None => "Var: "@ + current_var(app) + "\n(no selected part)\n"@,
    }
}

/// Returns the details of the part under the cursor.
pub fn details_parts(app: &AppState) -> (out: String)
    requires
        app.wf(),
    ensures
        out@ == details_parts_spec(app@),
{
    let var = current_var_name(app);
    let parts = current_var_parts(app, var.as_str());
    let visible = visible_part_indices(app, parts.as_slice());
    let place = match app.parts_list_state.selected() {
        Some(sel) => if sel < visible.len() {
            proof {
                assert(as_places(visible@)[sel as int] == visible[sel as int]);
            }
            Some(visible[sel])
        } else {
            None
        },
        None => None,
    };
    let mut out = String::from_str("Var: ");
    out.append(var.as_str());
    match place {
        Some(idx) => {
            proof {
                assert(parts.deep_view()[idx as int] == parts[idx as int]@);
            }
            out.append("\nIndex: ");
            out.append(decimal(idx).as_str());
            out.append("\nEntry:\n");
            out.append(parts[idx].to_text().as_str());
            out.append("\n\nValue:\n");
            out.append(parts[idx].display_value().as_str());
            out.append("\n");
        },
        None => {
            out.append("\n(no selected part)\n");
        },
    }
    proof {
        assert(out@ =~= details_parts_spec(app@));
    }
    out
}

/// The details of the item under the cursor.
pub open spec fn details_items_spec(app: AppStateView) -> Seq<char> {
    match pointed_item(app) {
        Some(place) => {
            let item = app.items[place];
            "Kind: "@ + (match item.kind {
                ItemKind::Text => "Text"@,
                ItemKind::Path => "Path"@,
            }) + "\nValue: "@ + item.value + "\nProgram: "@ + (match item.program {
                Some(text) => text,
                None => Seq::empty(),
            }) + "\nVersion: "@ + (match item.version {
                Some(text) => text,
                None => Seq::empty(),
            }) + "\nTags: "@ + join_spec(item.tags, ", "@) + "\n"@
        },
        None => "No item selected."@,
    }
}

/// Returns the details of the item under the cursor.
pub fn details_items(app: &AppState) -> (out: String)
    ensures
        out@ == details_items_spec(app@),
{
    let place = match selected_item_index(app) {
        Some(place) => place,
        None => {
            return String::from_str("No item selected.");
        },
    };
    let it = &app.items[place];
    proof {
        assert(app@.items[place as int] == it@);
    }
    let mut out = String::from_str("Kind: ");
    out.append(
        match it.kind {
            ItemKind::Text => "Text",
            ItemKind::Path => "Path",
        },
    );
    out.append("\nValue: ");
    out.append(it.value.as_str());
    out.append("\nProgram: ");
    match &it.program {
        Some(text) => out.append(text.as_str()),
        None => {},
    }
    out.append("\nVersion: ");
    match &it.version {
        Some(text) => out.append(text.as_str()),
        None => {},
    }
    out.append("\nTags: ");
    out.append(join(&it.tags, ", ").as_str());
    out.append("\n");
    proof {
        assert(out@ =~= details_items_spec(app@));
    }
    out
}

/// The word for a way of editing.
pub open spec fn editor_style_name(editor: EditorStyle) -> Seq<char> {
    match editor {
        EditorStyle::Single => "Single"@,
        EditorStyle::PathPart => "PathPart"@,
        EditorStyle::PartsList => "PartsList"@,
    }
}

/// The details of the catalog entry under the cursor of the list of
/// definitions; a cursor that stands nowhere counts as on the first row.
pub open spec fn details_defs_spec(app: AppStateView) -> Seq<char> {
    let sel = match app.defs_list_state.selected {
        Some(sel) => sel as int,
        None => 0,
    };
    if sel < def_rows(app).len() {
        let def = def_rows(app)[sel];
        "Name: "@ + def.name + "\nKind: "@ + var_kind_name(def.kind) + "\nSeparator: '"@
            + def.separator + "'\nEditor: "@ + editor_style_name(def.editor) + "\n"@
    } else {
        "No var definition selected."@
    }
}

/// Returns the details of the catalog entry under the cursor.
pub fn details_defs(app: &AppState) -> (out: String)
    ensures
        out@ == details_defs_spec(app@),
{
    let defs = compute_def_rows(app);
    let sel = match app.defs_list_state.selected() {
        Some(sel) => sel,
        None => 0,
    };
    if sel >= defs.len() {
        return String::from_str("No var definition selected.");
    }
    let def = &defs[sel];
    proof {
        assert(defs.deep_view()[sel as int] == def@);
    }
    let mut out = String::from_str("Name: ");
    out.append(def.name.as_str());
    out.append("\nKind: ");
    out.append(var_kind_label(def.kind));
    out.append("\nSeparator: '");
    out.append(def.separator.as_str());
    out.append("'\nEditor: ");
    out.append(
        match def.editor {
            EditorStyle::Single => "Single",
            EditorStyle::PathPart => "PathPart",
            EditorStyle::PartsList => "PartsList",
        },
    );
    out.append("\n");
    proof {
        assert(out@ =~= details_defs_spec(app@));
    }
    out
}

/// The details that go with the active view. The preview and the export
/// show the details of the variable.
pub open spec fn details_spec(app: AppStateView) -> Seq<char> {
    match app.active_view {
        view::View::Profiles => details_profiles_spec(app),
        view::View::Vars => details_vars_spec(app),
        view::View::Parts => details_parts_spec(app),
        view::View::Items => details_items_spec(app),
        view::View::Defs => details_defs_spec(app),
        view::View::Preview => details_vars_spec(app),
        view::View::Export => details_vars_spec(app),
        view::View::Help => "Use :profiles, :vars, :parts, :items, :defs\nUse / to filter the current view.\n"@,
    }
}

/// Returns the details that go with the active view.
pub fn details(app: &AppState) -> (out: String)
    requires
        app.wf(),
    ensures
        out@ == details_spec(app@),
{
    match app.active_view {
        view::View::Profiles => details_profiles(app),
        view::View::Vars => details_vars(app),
        view::View::Parts => details_parts(app),
        view::View::Items => details_items(app),
        view::View::Defs => details_defs(app),
        view::View::Preview => details_vars(app),
        view::View::Export => details_vars(app),
        view::View::Help => String::from_str(
            "Use :profiles, :vars, :parts, :items, :defs\nUse / to filter the current view.\n",
        ),
    }
}

} // verus!

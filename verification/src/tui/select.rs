//! What the lists of the browser show and what their cursors point at.

use crate::config::{
    cow_into_string, cow_str, CustomVarDef, CustomVarDefView, Entry, EntryView, PathEntry,
    PathEntryView, VarKind,
};
use crate::export::parts_of;
use crate::text::{
    as_places, filter_accepts, kept_places, name_order, order_by_name, passes_filter, str_eq,
};
use crate::tui::state::{
    entries_of, AppState, AppStateView, EditorStyle, ListState, VarTypeOption, VarTypeOptionView,
};
use vstd::prelude::*;

verus! {

/// One row of the list of variables.
#[derive(Debug)]
pub struct VarRow {
    pub name: String,
    pub kind: VarKind,
    pub separator: String,
    /// How many parts the active profile holds for the variable.
    pub count: usize,
}

/// Mathematical model of a [`VarRow`].
pub ghost struct VarRowView {
    pub name: Seq<char>,
    pub kind: VarKind,
    pub separator: Seq<char>,
    pub count: nat,
}

impl View for VarRow {
    type V = VarRowView;

    open spec fn view(&self) -> VarRowView {
        VarRowView {
            name: self.name@,
            kind: self.kind,
            separator: self.separator@,
            count: self.count as nat,
        }
    }
}

impl DeepView for VarRow {
    type V = VarRowView;

    open spec fn deep_view(&self) -> VarRowView {
        self@
    }
}

impl Clone for VarRow {
    fn clone(&self) -> (out: Self)
        ensures
            out == *self,
    {
        VarRow {
            name: self.name.clone(),
            kind: self.kind,
            separator: self.separator.clone(),
            count: self.count,
        }
    }
}

/// Where a cursor stands once the list has `len` rows: nowhere in an empty
/// list, otherwise where it stood, pulled back to the last row if it stood
/// past the end, and on the first row if it stood nowhere.
pub open spec fn clamped(selected: Option<usize>, len: usize) -> Option<usize> {
    if len == 0 {
        None
    } else {
        let at = match selected {
            Some(i) => i,
            None => 0,
        };
        if at < len {
            Some(at)
        } else {
            Some((len - 1) as usize)
        }
    }
}

/// Pulls a cursor back into a list of `len` rows.
pub fn clamp_list_state(state: &mut ListState, len: usize)
    ensures
        final(state).selected == clamped(old(state).selected, len),
{
    if len == 0 {
        state.select(None);
        return ;
    }
    let selected = match state.selected() {
        Some(i) => i,
        None => 0,
    };
    let next = if selected < len {
        selected
    } else {
        len - 1
    };
    state.select(Some(next));
}

/// Returns the parts that the active profile holds for `var_name`.
pub fn current_var_parts(app: &AppState, var_name: &str) -> (out: Vec<Entry>)
    requires
        app.wf(),
    ensures
        out.deep_view() == entries_of(app@.active_entries(), var_name@),
{
    let entries = &app.profiles[app.active_profile_index].entries;
    let ghost all = entries.deep_view();
    let mut out: Vec<Entry> = Vec::new();
    let mut i: usize = 0;
    while i < entries.len()
        invariant
            i <= entries.len(),
            all == entries.deep_view(),
            out.deep_view() == entries_of(all.take(i as int), var_name@),
        decreases entries.len() - i,
    {
        let ghost before = out.deep_view();
        proof {
            assert(all[i as int] == entries[i as int]@);
            assert(all.take(i + 1).drop_last() =~= all.take(i as int));
        }
        if str_eq(cow_str(&entries[i].var_name()), var_name) {
            out.push(entries[i].clone());
            proof {
                assert(out.deep_view() =~= before.push(all[i as int]));
            }
        }
        i += 1;
    }
    proof {
        assert(all.take(all.len() as int) =~= all);
    }
    out
}

/// Counts the parts that `entries` hold for `name`.
fn count_parts(entries: &Vec<Entry>, name: &str) -> (out: usize)
    ensures
        out == parts_of(entries.deep_view(), name@).len(),
{
    let ghost all = entries.deep_view();
    let mut count: usize = 0;
    let mut i: usize = 0;
    while i < entries.len()
        invariant
            i <= entries.len(),
            all == entries.deep_view(),
            count <= i,
            count == parts_of(all.take(i as int), name@).len(),
        decreases entries.len() - i,
    {
        proof {
            assert(all[i as int] == entries[i as int]@);
            assert(all.take(i + 1).drop_last() =~= all.take(i as int));
        }
        if str_eq(cow_str(&entries[i].var_name()), name) {
            count += 1;
        }
        i += 1;
    }
    proof {
        assert(all.take(all.len() as int) =~= all);
    }
    count
}

/// The row of a catalog variable.
pub open spec fn row_of_option(option: VarTypeOptionView, entries: Seq<EntryView>) -> VarRowView {
    VarRowView {
        name: option.name,
        kind: option.kind,
        separator: option.separator,
        count: parts_of(entries, option.name).len(),
    }
}

/// The row of a variable that the catalog does not know: a list with the
/// separator of the entry that brought it up.
pub open spec fn row_of_entry(entry: EntryView, entries: Seq<EntryView>) -> VarRowView {
    VarRowView {
        name: entry.var_name(),
        kind: VarKind::List,
        separator: entry.separator(),
        count: parts_of(entries, entry.var_name()).len(),
    }
}

/// Whether one of `rows` is called `name`.
pub open spec fn has_row(rows: Seq<VarRowView>, name: Seq<char>) -> bool {
    exists|i: int| 0 <= i < rows.len() && (#[trigger] rows[i]).name == name
}

/// `rows`, and behind them a row for each variable that the first `upto`
/// entries bring up and that has no row yet.
pub open spec fn rows_with_unknown(
    rows: Seq<VarRowView>,
    entries: Seq<EntryView>,
    upto: int,
) -> Seq<
    VarRowView,
>
    decreases upto,
{
    if upto <= 0 {
        rows
    } else {
        let before = rows_with_unknown(rows, entries, upto - 1);
        if has_row(before, entries[upto - 1].var_name()) {
            before
        } else {
            before.push(row_of_entry(entries[upto - 1], entries))
        }
    }
}

/// The rows of the list of variables before they are put in order: one per
/// catalog variable, then one per variable that only the profile knows.
pub open spec fn unordered_rows(app: AppStateView) -> Seq<VarRowView> {
    rows_with_unknown(
        Seq::new(
            app.var_options.len(),
            |i: int| row_of_option(app.var_options[i], app.active_entries()),
        ),
        app.active_entries(),
        app.active_entries().len() as int,
    )
}

/// The names of rows.
pub open spec fn row_names(rows: Seq<VarRowView>) -> Seq<Seq<char>> {
    Seq::new(rows.len(), |i: int| rows[i].name)
}

/// `rows` in the order of their names; rows of the same name keep their
/// order.
pub open spec fn ordered_rows(rows: Seq<VarRowView>) -> Seq<VarRowView> {
    Seq::new(rows.len(), |k: int| rows[name_order(row_names(rows))[k]])
}

/// Which of `rows` pass the filter `query`.
pub open spec fn rows_kept(rows: Seq<VarRowView>, query: Seq<char>) -> Seq<bool> {
    Seq::new(rows.len(), |k: int| passes_filter(rows[k].name, query))
}

/// The rows among `rows` that pass the filter `query`, in their order.
pub open spec fn filtered_rows(rows: Seq<VarRowView>, query: Seq<char>) -> Seq<VarRowView> {
    Seq::new(
        kept_places(rows_kept(rows, query)).len(),
        |j: int| rows[kept_places(rows_kept(rows, query))[j]],
    )
}

/// The list of variables: a row per catalog variable and per variable that
/// only the active profile knows, in the order of the names, narrowed by the
/// filter of the list.
pub open spec fn var_rows(app: AppStateView) -> Seq<VarRowView> {
    filtered_rows(ordered_rows(unordered_rows(app)), app.vars_filter)
}

/// Tells whether one of `rows` is called `name`.
fn find_row(rows: &Vec<VarRow>, name: &str) -> (out: bool)
    ensures
        out == has_row(rows.deep_view(), name@),
{
    let mut i: usize = 0;
    while i < rows.len()
        invariant
            i <= rows.len(),
            forall|j: int| 0 <= j < i ==> rows[j]@.name != name@,
        decreases rows.len() - i,
    {
        if str_eq(rows[i].name.as_str(), name) {
            proof {
                assert(rows.deep_view()[i as int].name == name@);
            }
            return true;
        }
        i += 1;
    }
    proof {
        assert forall|j: int| 0 <= j < rows.deep_view().len() implies (#[trigger] rows.deep_view()[j]).name
            != name@ by {
            assert(rows.deep_view()[j] == rows[j]@);
        }
    }
    false
}

/// Computes the rows of the list of variables.
pub fn compute_var_rows(app: &AppState) -> (out: Vec<VarRow>)
    requires
        app.wf(),
    ensures
        out.deep_view() == var_rows(app@),
{
    let entries = &app.profiles[app.active_profile_index].entries;
    let ghost all = entries.deep_view();
    let ghost options = app.var_options.deep_view();
    let ghost base = Seq::new(options.len(), |i: int| row_of_option(options[i], all));
    let mut rows: Vec<VarRow> = Vec::new();
    let mut i: usize = 0;
    while i < app.var_options.len()
        invariant
            i <= app.var_options.len(),
            options == app.var_options.deep_view(),
            all == entries.deep_view(),
            base == Seq::new(options.len(), |i: int| row_of_option(options[i], all)),
            rows.deep_view() == base.take(i as int),
        decreases app.var_options.len() - i,
    {
        let o = &app.var_options[i];
        let ghost before = rows.deep_view();
        let count = count_parts(entries, o.name.as_str());
        rows.push(
            VarRow { name: o.name.clone(), kind: o.kind, separator: o.separator.clone(), count },
        );
        proof {
            assert(options[i as int] == o@);
            assert(rows.deep_view() =~= before.push(base[i as int]));
            assert(rows.deep_view() =~= base.take(i + 1));
        }
        i += 1;
    }
    proof {
        assert(base.take(base.len() as int) =~= base);
    }
    // Add any unknown vars that exist in the profile but have no definition row.
    let mut j: usize = 0;
    while j < entries.len()
        invariant
            j <= entries.len(),
            all == entries.deep_view(),
            rows.deep_view() == rows_with_unknown(base, all, j as int),
        decreases entries.len() - j,
    {
        let e = &entries[j];
        let name = e.var_name();
        let ghost before = rows.deep_view();
        proof {
            assert(all[j as int] == e@);
        }
        if !find_row(&rows, cow_str(&name)) {
            let count = count_parts(entries, cow_str(&name));
            rows.push(
                VarRow {
                    name: cow_into_string(name),
                    kind: VarKind::List,
                    separator: cow_into_string(e.separator()),
                    count,
                },
            );
            proof {
                assert(rows.deep_view() =~= before.push(row_of_entry(e@, all)));
            }
        }
        j += 1;
    }
    let ghost unordered = rows.deep_view();
    let mut names: Vec<String> = Vec::new();
    let mut k: usize = 0;
    while k < rows.len()
        invariant
            k <= rows.len(),
            unordered == rows.deep_view(),
            names.deep_view() == row_names(unordered).take(k as int),
        decreases rows.len() - k,
    {
        let ghost before = names.deep_view();
        names.push(rows[k].name.clone());
        proof {
            assert(unordered[k as int] == rows[k as int]@);
            assert(names.deep_view() =~= before.push(unordered[k as int].name));
            assert(names.deep_view() =~= row_names(unordered).take(k + 1));
        }
        k += 1;
    }
    proof {
        assert(row_names(unordered).take(unordered.len() as int) =~= row_names(unordered));
    }
    let order = order_by_name(&names);
    let ghost ordered = ordered_rows(unordered);
    let ghost keep = rows_kept(ordered, app@.vars_filter);
    let mut out: Vec<VarRow> = Vec::new();
    let mut n: usize = 0;
    while n < order.len()
        invariant
            n <= order.len(),
            order.len() == rows.len(),
            unordered == rows.deep_view(),
            ordered == ordered_rows(unordered),
            keep == rows_kept(ordered, app@.vars_filter),
            as_places(order@) == name_order(row_names(unordered)),
            forall|k: int| 0 <= k < order.len() ==> (#[trigger] order[k]) < rows.len(),
            out.len() == kept_places(keep.take(n as int)).len(),
            forall|m: int|
                0 <= m < out.len() ==> (#[trigger] out[m])@ == ordered[kept_places(
                    keep.take(n as int),
                )[m]],
        decreases order.len() - n,
    {
        let row = &rows[order[n]];
        proof {
            assert(as_places(order@)[n as int] == order[n as int]);
            assert(unordered[order[n as int] as int] == row@);
            assert(ordered[n as int] == row@);
            assert(keep.take(n + 1).drop_last() =~= keep.take(n as int));
            assert(keep.take(n + 1).last() == keep[n as int]);
        }
        if filter_accepts(row.name.as_str(), app.vars_filter.as_str()) {
            out.push(row.clone());
        }
        n += 1;
    }
    proof {
        assert(keep.take(keep.len() as int) =~= keep);
        assert forall|m: int| 0 <= m < out.len() implies
            out.deep_view()[m] == var_rows(app@)[m] by {
            assert(out.deep_view()[m] == out[m]@);
        }
        assert(out.deep_view() =~= var_rows(app@));
    }
    out
}

/// Which of `parts` pass the filter of the list of parts: those whose line
/// holds it.
pub open spec fn parts_kept(parts: Seq<EntryView>, query: Seq<char>) -> Seq<bool> {
    Seq::new(parts.len(), |i: int| passes_filter(parts[i].text(), query))
}

/// Returns the places of the parts that the list of parts shows.
pub fn visible_part_indices(app: &AppState, parts: &[Entry]) -> (out: Vec<usize>)
    ensures
        as_places(out@) == kept_places(parts_kept(parts.deep_view(), app@.parts_filter)),
        forall|k: int| 0 <= k < out.len() ==> (#[trigger] out[k]) < parts.len(),
{
    let ghost keep = parts_kept(parts.deep_view(), app@.parts_filter);
    let mut out: Vec<usize> = Vec::new();
    let mut i: usize = 0;
    while i < parts.len()
        invariant
            i <= parts.len(),
            keep == parts_kept(parts.deep_view(), app@.parts_filter),
            as_places(out@) == kept_places(keep.take(i as int)),
            forall|k: int| 0 <= k < out.len() ==> (#[trigger] out[k]) < i,
        decreases parts.len() - i,
    {
        let ghost before = as_places(out@);
        let line = parts[i].to_text();
        proof {
            assert(parts.deep_view()[i as int] == parts[i as int]@);
            assert(keep.take(i + 1).drop_last() =~= keep.take(i as int));
            assert(keep.take(i + 1).last() == keep[i as int]);
        }
        if filter_accepts(line.as_str(), app.parts_filter.as_str()) {
            out.push(i);
            proof {
                assert(as_places(out@) =~= before.push(i as int));
            }
        }
        i += 1;
    }
    proof {
        assert(keep.take(keep.len() as int) =~= keep);
    }
    out
}

/// Whether one of `tags` holds `query`, letter case ignored.
pub open spec fn some_tag_holds(tags: Seq<Seq<char>>, query: Seq<char>) -> bool {
    exists|t: int| 0 <= t < tags.len() && crate::text::is_infix_ignoring_case(#[trigger] tags[t], query)
}

/// Which items pass the filter of the list of items: those whose value or
/// one of whose tags holds it.
pub open spec fn items_kept(app: AppStateView) -> Seq<bool> {
    Seq::new(
        app.items.len(),
        |i: int|
            app.items_filter.len() == 0 || crate::text::is_infix_ignoring_case(
                app.items[i].value,
                app.items_filter,
            ) || some_tag_holds(app.items[i].tags, app.items_filter),
    )
}

/// Tells whether one of `tags` holds `query`, letter case ignored.
fn any_tag_holds(tags: &Vec<String>, query: &str) -> (out: bool)
    ensures
        out == some_tag_holds(tags.deep_view(), query@),
{
    let mut t: usize = 0;
    while t < tags.len()
        invariant
            t <= tags.len(),
            forall|k: int| 0 <= k < t ==> !crate::text::is_infix_ignoring_case(tags[k]@, query@),
        decreases tags.len() - t,
    {
        if crate::text::contains_ignoring_case(tags[t].as_str(), query) {
            proof {
                assert(tags.deep_view()[t as int] == tags[t as int]@);
            }
            return true;
        }
        t += 1;
    }
    proof {
        assert forall|k: int| 0 <= k < tags.deep_view().len() implies !crate::text::is_infix_ignoring_case(
            #[trigger] tags.deep_view()[k],
            query@,
        ) by {
            assert(tags.deep_view()[k] == tags[k]@);
        }
    }
    false
}

/// Returns the places of the items that the list of items shows.
pub fn visible_item_indices(app: &AppState) -> (out: Vec<usize>)
    ensures
        as_places(out@) == kept_places(items_kept(app@)),
        forall|k: int| 0 <= k < out.len() ==> (#[trigger] out[k]) < app.items.len(),
{
    let ghost keep = items_kept(app@);
    let mut out: Vec<usize> = Vec::new();
    let mut i: usize = 0;
    while i < app.items.len()
        invariant
            i <= app.items.len(),
            keep == items_kept(app@),
            as_places(out@) == kept_places(keep.take(i as int)),
            forall|k: int| 0 <= k < out.len() ==> (#[trigger] out[k]) < i,
        decreases app.items.len() - i,
    {
        let ghost before = as_places(out@);
        let it = &app.items[i];
        proof {
            assert(app@.items[i as int] == it@);
            assert(keep.take(i + 1).drop_last() =~= keep.take(i as int));
            assert(keep.take(i + 1).last() == keep[i as int]);
        }
        let shown = app.items_filter.as_str().unicode_len() == 0
            || crate::text::contains_ignoring_case(it.value.as_str(), app.items_filter.as_str())
            || any_tag_holds(&it.tags, app.items_filter.as_str());
        if shown {
            out.push(i);
            proof {
                assert(as_places(out@) =~= before.push(i as int));
            }
        }
        i += 1;
    }
    proof {
        assert(keep.take(keep.len() as int) =~= keep);
    }
    out
}

/// Which profiles pass the filter of the list of profiles: those whose name
/// holds it.
pub open spec fn profiles_kept(app: AppStateView) -> Seq<bool> {
    Seq::new(
        app.profiles.len(),
        |i: int| passes_filter(app.profiles[i].name, app.profiles_filter),
    )
}

/// Returns the places of the profiles that the list of profiles shows.
pub fn visible_profile_indices(app: &AppState) -> (out: Vec<usize>)
    ensures
        as_places(out@) == kept_places(profiles_kept(app@)),
        forall|k: int| 0 <= k < out.len() ==> (#[trigger] out[k]) < app.profiles.len(),
{
    let ghost keep = profiles_kept(app@);
    let mut out: Vec<usize> = Vec::new();
    let mut i: usize = 0;
    while i < app.profiles.len()
        invariant
            i <= app.profiles.len(),
            keep == profiles_kept(app@),
            as_places(out@) == kept_places(keep.take(i as int)),
            forall|k: int| 0 <= k < out.len() ==> (#[trigger] out[k]) < i,
        decreases app.profiles.len() - i,
    {
        let ghost before = as_places(out@);
        proof {
            assert(app@.profiles[i as int] == app.profiles[i as int]@);
            assert(keep.take(i + 1).drop_last() =~= keep.take(i as int));
            assert(keep.take(i + 1).last() == keep[i as int]);
        }
        if filter_accepts(app.profiles[i].name.as_str(), app.profiles_filter.as_str()) {
            out.push(i);
            proof {
                assert(as_places(out@) =~= before.push(i as int));
            }
        }
        i += 1;
    }
    proof {
        assert(keep.take(keep.len() as int) =~= keep);
    }
    out
}

/// The place that a cursor points at in a list that shows the places
/// `shown`: none when the cursor stands nowhere or past the end.
pub open spec fn pointed_at(selected: Option<usize>, shown: Seq<int>) -> Option<int> {
    match selected {
        Some(i) => if i < shown.len() {
            Some(shown[i as int])
        } else {
            None
        },
        None => None,
    }
}

/// Picks the place that a cursor points at.
fn pick(selected: Option<usize>, shown: &Vec<usize>) -> (out: Option<usize>)
    ensures
        match out {
            Some(place) => pointed_at(selected, as_places(shown@)) == Some(place as int),
            None => pointed_at(selected, as_places(shown@)) is None,
        },
{
    match selected {
        Some(i) => if i < shown.len() {
            Some(shown[i])
        } else {
            None
        },
        None => None,
    }
}

/// Returns the place of the profile that the cursor of the list of profiles
/// points at.
pub fn selected_profile_index(app: &AppState) -> (out: Option<usize>)
    ensures
        match out {
            Some(place) => place < app.profiles.len() && pointed_at(
                app.profile_list_state.selected,
                kept_places(profiles_kept(app@)),
            ) == Some(place as int),
            None => pointed_at(app.profile_list_state.selected, kept_places(profiles_kept(app@)))
                is None,
        },
{
    let indices = visible_profile_indices(app);
    pick(app.profile_list_state.selected(), &indices)
}

/// Returns the place of the item that the cursor of the list of items points
/// at.
pub fn selected_item_index(app: &AppState) -> (out: Option<usize>)
    ensures
        match out {
            Some(place) => place < app.items.len() && pointed_at(
                app.items_list_state.selected,
                kept_places(items_kept(app@)),
            ) == Some(place as int),
            None => pointed_at(app.items_list_state.selected, kept_places(items_kept(app@)))
                is None,
        },
{
    let indices = visible_item_indices(app);
    pick(app.items_list_state.selected(), &indices)
}

/// Returns the text an entry contributes to its variable, for previews.
pub fn preview_value(e: &Entry) -> (out: String)
    ensures
        out@ == e@.value(),
{
    e.display_value()
}

/// The definition of the custom variable `name`: the first of `defs` that
/// has the name.
pub open spec fn custom_def(defs: Seq<CustomVarDefView>, name: Seq<char>) -> Option<
    CustomVarDefView,
>
    decreases defs.len(),
{
    if defs.len() == 0 {
        None
    } else if defs.first().name == name {
        Some(defs.first())
    } else {
        custom_def(defs.drop_first(), name)
    }
}

/// The part that holds `value` for the variable `name`.
///
/// A built-in name gives the built-in's own kind of entry. Another name that
/// a custom definition has gives a custom scalar or a custom part with the
/// definition's separator, by the definition's kind. A name that nothing
/// defines gives a custom part joined by a colon.
pub open spec fn part_for(
    defs: Seq<CustomVarDefView>,
    name: Seq<char>,
    value: Seq<char>,
) -> EntryView {
    if name == "PATH"@ {
        EntryView::Path(
            PathEntryView { path: value, program: Seq::empty(), version: Seq::empty() },
        )
    } else if name == "CPATH"@ {
        EntryView::CPath(value)
    } else if name == "C_INCLUDE_PATH"@ {
        EntryView::CInclude(value)
    } else if name == "CPLUS_INCLUDE_PATH"@ {
        EntryView::CPlusInclude(value)
    } else if name == "OBJC_INCLUDE_PATH"@ {
        EntryView::OBJCInclude(value)
    } else if name == "CPPFLAGS"@ {
        EntryView::CPPFlag(value)
    } else if name == "CFLAGS"@ {
        EntryView::CFlag(value)
    } else if name == "CXXFLAGS"@ {
        EntryView::CXXFlag(value)
    } else if name == "LDFLAGS"@ {
        EntryView::LDFlag(value)
    } else if name == "LIBRARY_PATH"@ {
        EntryView::LibraryPath(value)
    } else if name == "LD_LIBRARY_PATH"@ {
        EntryView::LDLibraryPath(value)
    } else if name == "LD_RUN_PATH"@ {
        EntryView::LDRunPath(value)
    } else if name == "RANLIB"@ {
        EntryView::RanLib(value)
    } else if name == "CC"@ {
        EntryView::CC(value)
    } else if name == "CXX"@ {
        EntryView::CXX(value)
    } else if name == "AR"@ {
        EntryView::AR(value)
    } else if name == "STRIP"@ {
        EntryView::Strip(value)
    } else if name == "GCC_EXEC_PREFIX"@ {
        EntryView::GCCExecPrefix(value)
    } else if name == "COLLECT_GCC_OPTIONS"@ {
        EntryView::CollectGCCOptions(value)
    } else if name == "LANG"@ {
        EntryView::Lang(value)
    } else {
        match custom_def(defs, name) {
            Some(def) => match def.kind {
                VarKind::Scalar => EntryView::CustomScalar { name: def.name, value },
                VarKind::List => EntryView::CustomPart {
                    name: def.name,
                    value,
                    separator: def.separator,
                },
            },
            None => EntryView::CustomPart { name, value, separator: ":"@ },
        }
    }
}

/// Finds the custom definition of `name`.
fn find_custom_def<'a>(defs: &'a Vec<CustomVarDef>, name: &str) -> (out: Option<&'a CustomVarDef>)
    ensures
        match out {
            Some(def) => custom_def(defs.deep_view(), name@) == Some(def@),
            None => custom_def(defs.deep_view(), name@) is None,
        },
{
    let ghost all = defs.deep_view();
    let mut i: usize = 0;
    proof {
        assert(all.skip(0) =~= all);
    }
    while i < defs.len()
        invariant
            i <= defs.len(),
            all == defs.deep_view(),
            custom_def(all, name@) == custom_def(all.skip(i as int), name@),
        decreases defs.len() - i,
    {
        proof {
            assert(all.skip(i as int).first() == defs[i as int]@);
            assert(all.skip(i as int).drop_first() =~= all.skip(i + 1));
        }
        if str_eq(defs[i].name.as_str(), name) {
            return Some(&defs[i]);
        }
        i += 1;
    }
    None
}

/// Makes the part that holds `value` for the variable `var_name`.
pub fn make_part_entry(app: &AppState, var_name: &str, value: String) -> (out: Option<Entry>)
    ensures
        out matches Some(entry) && entry@ == part_for(app@.custom_var_defs, var_name@, value@),
{
    // Builtins
    if str_eq(var_name, "PATH") {
        return Some(
            Entry::Path(PathEntry { path: value, program: String::new(), version: String::new() }),
        );
    }
    if str_eq(var_name, "CPATH") {
        return Some(Entry::CPath(value));
    }
    if str_eq(var_name, "C_INCLUDE_PATH") {
        return Some(Entry::CInclude(value));
    }
    if str_eq(var_name, "CPLUS_INCLUDE_PATH") {
        return Some(Entry::CPlusInclude(value));
    }
    if str_eq(var_name, "OBJC_INCLUDE_PATH") {
        return Some(Entry::OBJCInclude(value));
    }
    if str_eq(var_name, "CPPFLAGS") {
        return Some(Entry::CPPFlag(value));
    }
    if str_eq(var_name, "CFLAGS") {
        return Some(Entry::CFlag(value));
    }
    if str_eq(var_name, "CXXFLAGS") {
        return Some(Entry::CXXFlag(value));
    }
    if str_eq(var_name, "LDFLAGS") {
        return Some(Entry::LDFlag(value));
    }
    if str_eq(var_name, "LIBRARY_PATH") {
        return Some(Entry::LibraryPath(value));
    }
    if str_eq(var_name, "LD_LIBRARY_PATH") {
        return Some(Entry::LDLibraryPath(value));
    }
    if str_eq(var_name, "LD_RUN_PATH") {
        return Some(Entry::LDRunPath(value));
    }
    if str_eq(var_name, "RANLIB") {
        return Some(Entry::RanLib(value));
    }
    if str_eq(var_name, "CC") {
        return Some(Entry::CC(value));
    }
    if str_eq(var_name, "CXX") {
        return Some(Entry::CXX(value));
    }
    if str_eq(var_name, "AR") {
        return Some(Entry::AR(value));
    }
    if str_eq(var_name, "STRIP") {
        return Some(Entry::Strip(value));
    }
    if str_eq(var_name, "GCC_EXEC_PREFIX") {
        return Some(Entry::GCCExecPrefix(value));
    }
    if str_eq(var_name, "COLLECT_GCC_OPTIONS") {
        return Some(Entry::CollectGCCOptions(value));
    }
    if str_eq(var_name, "LANG") {
        return Some(Entry::Lang(value));
    }
    // Custom vars: look up definition; only List accepts parts.
    match find_custom_def(&app.custom_var_defs, var_name) {
        Some(def) => match def.kind {
            VarKind::Scalar => Some(Entry::CustomScalar { name: def.name.clone(), value }),
            VarKind::List => Some(
                Entry::CustomPart {
                    name: def.name.clone(),
                    value,
                    separator: def.separator.clone(),
                },
            ),
        },
        // Unknown: treat as list-part with ':' separator.
        None => Some(
            Entry::CustomPart {
                name: String::from_str(var_name),
                value,
                separator: String::from_str(":"),
            },
        ),
    }
}

/// The catalog entry of the variable `name`: the first of `options` that has
/// the name, so a built-in before a custom definition of the same name. A
/// name that the catalog does not know counts as a list joined by a colon.
pub open spec fn option_for(options: Seq<VarTypeOptionView>, name: Seq<char>) -> VarTypeOptionView
    decreases options.len(),
{
    if options.len() == 0 {
        VarTypeOptionView {
            name,
            kind: VarKind::List,
            separator: ":"@,
            editor: EditorStyle::PartsList,
        }
    } else if options.first().name == name {
        options.first()
    } else {
        option_for(options.drop_first(), name)
    }
}

/// Looks the variable `var_name` up in the catalog.
pub fn var_option_for(app: &AppState, var_name: &str) -> (out: VarTypeOption)
    ensures
        out@ == option_for(app@.var_options, var_name@),
{
    let ghost all = app.var_options.deep_view();
    let mut i: usize = 0;
    proof {
        assert(all.skip(0) =~= all);
    }
    while i < app.var_options.len()
        invariant
            i <= app.var_options.len(),
            all == app.var_options.deep_view(),
            option_for(all, var_name@) == option_for(all.skip(i as int), var_name@),
        decreases app.var_options.len() - i,
    {
        proof {
            assert(all.skip(i as int).first() == app.var_options[i as int]@);
            assert(all.skip(i as int).drop_first() =~= all.skip(i + 1));
        }
        if str_eq(app.var_options[i].name.as_str(), var_name) {
            return app.var_options[i].clone();
        }
        i += 1;
    }
    // Unknown: default to list/':' so it can accept items/parts.
    VarTypeOption {
        name: String::from_str(var_name),
        kind: VarKind::List,
        separator: String::from_str(":"),
        editor: EditorStyle::PartsList,
    }
}

/// The names of catalog entries.
pub open spec fn option_names(options: Seq<VarTypeOptionView>) -> Seq<Seq<char>> {
    Seq::new(options.len(), |i: int| options[i].name)
}

/// `options` in the order of their names; entries of the same name keep
/// their order.
pub open spec fn ordered_options(options: Seq<VarTypeOptionView>) -> Seq<VarTypeOptionView> {
    Seq::new(options.len(), |k: int| options[name_order(option_names(options))[k]])
}

/// Which of `options` pass the filter `query`.
pub open spec fn options_kept(options: Seq<VarTypeOptionView>, query: Seq<char>) -> Seq<bool> {
    Seq::new(options.len(), |k: int| passes_filter(options[k].name, query))
}

/// The list of definitions: the catalog in the order of the names, narrowed
/// by the filter of the list.
pub open spec fn def_rows(app: AppStateView) -> Seq<VarTypeOptionView> {
    let ordered = ordered_options(app.var_options);
    Seq::new(
        kept_places(options_kept(ordered, app.defs_filter)).len(),
        |j: int| ordered[kept_places(options_kept(ordered, app.defs_filter))[j]],
    )
}

/// Computes the rows of the list of definitions.
pub fn compute_def_rows(app: &AppState) -> (out: Vec<VarTypeOption>)
    ensures
        out.deep_view() == def_rows(app@),
{
    let ghost options = app.var_options.deep_view();
    let mut names: Vec<String> = Vec::new();
    let mut k: usize = 0;
    while k < app.var_options.len()
        invariant
            k <= app.var_options.len(),
            options == app.var_options.deep_view(),
            names.deep_view() == option_names(options).take(k as int),
        decreases app.var_options.len() - k,
    {
        let ghost before = names.deep_view();
        names.push(app.var_options[k].name.clone());
        proof {
            assert(options[k as int] == app.var_options[k as int]@);
            assert(names.deep_view() =~= before.push(options[k as int].name));
            assert(names.deep_view() =~= option_names(options).take(k + 1));
        }
        k += 1;
    }
    proof {
        assert(option_names(options).take(options.len() as int) =~= option_names(options));
    }
    let order = order_by_name(&names);
    let ghost ordered = ordered_options(options);
    let ghost keep = options_kept(ordered, app@.defs_filter);
    let mut out: Vec<VarTypeOption> = Vec::new();
    let mut n: usize = 0;
    while n < order.len()
        invariant
            n <= order.len(),
            order.len() == app.var_options.len(),
            options == app.var_options.deep_view(),
            ordered == ordered_options(options),
            keep == options_kept(ordered, app@.defs_filter),
            as_places(order@) == name_order(option_names(options)),
            forall|k: int| 0 <= k < order.len() ==> (#[trigger] order[k]) < app.var_options.len(),
            out.len() == kept_places(keep.take(n as int)).len(),
            forall|m: int|
                0 <= m < out.len() ==> (#[trigger] out[m])@ == ordered[kept_places(
                    keep.take(n as int),
                )[m]],
        decreases order.len() - n,
    {
        let option = &app.var_options[order[n]];
        proof {
            assert(as_places(order@)[n as int] == order[n as int]);
            assert(options[order[n as int] as int] == option@);
            assert(ordered[n as int] == option@);
            assert(keep.take(n + 1).drop_last() =~= keep.take(n as int));
            assert(keep.take(n + 1).last() == keep[n as int]);
        }
        if filter_accepts(option.name.as_str(), app.defs_filter.as_str()) {
            out.push(option.clone());
        }
        n += 1;
    }
    proof {
        assert(keep.take(keep.len() as int) =~= keep);
        assert forall|m: int| 0 <= m < out.len() implies
            out.deep_view()[m] == def_rows(app@)[m] by {
            assert(out.deep_view()[m] == out[m]@);
        }
        assert(out.deep_view() =~= def_rows(app@));
    }
    out
}

} // verus!

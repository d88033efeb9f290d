//! The variable catalog and the state of the browser.

use crate::config::{
    cow_str, CatalogItem, CatalogItemView, CustomVarDef, CustomVarDefView, Entry, EntryView,
    EnvProfile, EnvProfileView, VarKind,
};
use crate::text::{concat_str, str_eq, trim, trim_spec};
use crate::tui::theme::{BathConfig, BathConfigView, ThemeSection, ThemeSectionView};
use crate::tui::view;
use vstd::prelude::*;

verus! {

/// What the keys typed are taken for.
#[derive(Debug, Clone, Copy, PartialEq, Eq, Structural)]
pub enum InputMode {
    Normal,
    Command,
    Search,
}

/// What has been picked up and waits to be dropped.
#[derive(Debug)]
pub enum Holding {
    Item(CatalogItem),
    Part { var: String, from: usize, entry: Entry },
}

/// Mathematical model of a [`Holding`].
pub ghost enum HoldingView {
    Item(CatalogItemView),
    Part { var: Seq<char>, from: usize, entry: EntryView },
}

impl View for Holding {
    type V = HoldingView;

    open spec fn view(&self) -> HoldingView {
        match self {
            Holding::Item(item) => HoldingView::Item(item@),
            Holding::Part { var, from, entry } => HoldingView::Part {
                var: var@,
                from: *from,
                entry: entry@,
            },
        }
    }
}

impl DeepView for Holding {
    type V = HoldingView;

    open spec fn deep_view(&self) -> HoldingView {
        self@
    }
}

impl Clone for Holding {
    fn clone(&self) -> (out: Self)
        ensures
            out@ == self@,
    {
        match self {
            Holding::Item(item) => Holding::Item(item.clone()),
            Holding::Part { var, from, entry } => Holding::Part {
                var: var.clone(),
                from: *from,
                entry: entry.clone(),
            },
        }
    }
}

/// How the parts of a variable are edited.
#[derive(Debug, Clone, Copy, PartialEq, Eq, Structural)]
pub enum EditorStyle {
    Single,
    PathPart,
    PartsList,
}

/// One variable of the catalog: its name, whether it is a scalar or a list,
/// the separator of its parts and the way it is edited.
#[derive(Debug)]
pub struct VarTypeOption {
    pub name: String,
    pub kind: VarKind,
    pub separator: String,
    pub editor: EditorStyle,
}

/// Mathematical model of a [`VarTypeOption`].
pub ghost struct VarTypeOptionView {
    pub name: Seq<char>,
    pub kind: VarKind,
    pub separator: Seq<char>,
    pub editor: EditorStyle,
}

impl View for VarTypeOption {
    type V = VarTypeOptionView;

    open spec fn view(&self) -> VarTypeOptionView {
        VarTypeOptionView {
            name: self.name@,
            kind: self.kind,
            separator: self.separator@,
            editor: self.editor,
        }
    }
}

impl DeepView for VarTypeOption {
    type V = VarTypeOptionView;

    open spec fn deep_view(&self) -> VarTypeOptionView {
        self@
    }
}

impl Clone for VarTypeOption {
    fn clone(&self) -> (out: Self)
        ensures
            out == *self,
    {
        VarTypeOption {
            name: self.name.clone(),
            kind: self.kind,
            separator: self.separator.clone(),
            editor: self.editor,
        }
    }
}

/// The built-in variables: the path-like lists joined by a colon, the flag
/// lists joined by a space, and the scalars.
pub open spec fn builtin_catalog() -> Seq<VarTypeOptionView> {
    seq![
        VarTypeOptionView {
            name: "PATH"@,
            kind: VarKind::List,
            separator: ":"@,
            editor: EditorStyle::PathPart,
        },
        VarTypeOptionView {
            name: "CPATH"@,
            kind: VarKind::List,
            separator: ":"@,
            editor: EditorStyle::PartsList,
        },
        VarTypeOptionView {
            name: "C_INCLUDE_PATH"@,
            kind: VarKind::List,
            separator: ":"@,
            editor: EditorStyle::PartsList,
        },
        VarTypeOptionView {
            name: "CPLUS_INCLUDE_PATH"@,
            kind: VarKind::List,
            separator: ":"@,
            editor: EditorStyle::PartsList,
        },
        VarTypeOptionView {
            name: "OBJC_INCLUDE_PATH"@,
            kind: VarKind::List,
            separator: ":"@,
            editor: EditorStyle::PartsList,
        },
        VarTypeOptionView {
            name: "LIBRARY_PATH"@,
            kind: VarKind::List,
            separator: ":"@,
            editor: EditorStyle::PartsList,
        },
        VarTypeOptionView {
            name: "LD_LIBRARY_PATH"@,
            kind: VarKind::List,
            separator: ":"@,
            editor: EditorStyle::PartsList,
        },
        VarTypeOptionView {
            name: "LD_RUN_PATH"@,
            kind: VarKind::List,
            separator: ":"@,
            editor: EditorStyle::PartsList,
        },
        VarTypeOptionView {
            name: "CPPFLAGS"@,
            kind: VarKind::List,
            separator: " "@,
            editor: EditorStyle::PartsList,
        },
        VarTypeOptionView {
            name: "CFLAGS"@,
            kind: VarKind::List,
            separator: " "@,
            editor: EditorStyle::PartsList,
        },
        VarTypeOptionView {
            name: "CXXFLAGS"@,
            kind: VarKind::List,
            separator: " "@,
            editor: EditorStyle::PartsList,
        },
        VarTypeOptionView {
            name: "LDFLAGS"@,
            kind: VarKind::List,
            separator: " "@,
            editor: EditorStyle::PartsList,
        },
        VarTypeOptionView {
            name: "RANLIB"@,
            kind: VarKind::Scalar,
            separator: ""@,
            editor: EditorStyle::Single,
        },
        VarTypeOptionView {
            name: "CC"@,
            kind: VarKind::Scalar,
            separator: ""@,
            editor: EditorStyle::Single,
        },
        VarTypeOptionView {
            name: "CXX"@,
            kind: VarKind::Scalar,
            separator: ""@,
            editor: EditorStyle::Single,
        },
        VarTypeOptionView {
            name: "AR"@,
            kind: VarKind::Scalar,
            separator: ""@,
            editor: EditorStyle::Single,
        },
        VarTypeOptionView {
            name: "STRIP"@,
            kind: VarKind::Scalar,
            separator: ""@,
            editor: EditorStyle::Single,
        },
        VarTypeOptionView {
            name: "GCC_EXEC_PREFIX"@,
            kind: VarKind::Scalar,
            separator: ""@,
            editor: EditorStyle::Single,
        },
        VarTypeOptionView {
            name: "COLLECT_GCC_OPTIONS"@,
            kind: VarKind::Scalar,
            separator: ""@,
            editor: EditorStyle::Single,
        },
        VarTypeOptionView {
            name: "LANG"@,
            kind: VarKind::Scalar,
            separator: ""@,
            editor: EditorStyle::Single,
        },
    ]
}

/// Builds one catalog entry.
fn var_option(name: &str, kind: VarKind, separator: &str, editor: EditorStyle) -> (out:
    VarTypeOption)
    ensures
        out@ == (VarTypeOptionView { name: name@, kind, separator: separator@, editor }),
{
    VarTypeOption {
        name: String::from_str(name),
        kind,
        separator: String::from_str(separator),
        editor,
    }
}

/// Returns the built-in variables, in catalog order.
pub fn builtin_var_options() -> (out: Vec<VarTypeOption>)
    ensures
        out.deep_view() == builtin_catalog(),
{
    let mut out: Vec<VarTypeOption> = Vec::new();
    out.push(var_option("PATH", VarKind::List, ":", EditorStyle::PathPart));
    // colon-separated lists
    out.push(var_option("CPATH", VarKind::List, ":", EditorStyle::PartsList));
    out.push(var_option("C_INCLUDE_PATH", VarKind::List, ":", EditorStyle::PartsList));
    out.push(var_option("CPLUS_INCLUDE_PATH", VarKind::List, ":", EditorStyle::PartsList));
    out.push(var_option("OBJC_INCLUDE_PATH", VarKind::List, ":", EditorStyle::PartsList));
    out.push(var_option("LIBRARY_PATH", VarKind::List, ":", EditorStyle::PartsList));
    out.push(var_option("LD_LIBRARY_PATH", VarKind::List, ":", EditorStyle::PartsList));
    out.push(var_option("LD_RUN_PATH", VarKind::List, ":", EditorStyle::PartsList));
    // space-separated lists
    out.push(var_option("CPPFLAGS", VarKind::List, " ", EditorStyle::PartsList));
    out.push(var_option("CFLAGS", VarKind::List, " ", EditorStyle::PartsList));
    out.push(var_option("CXXFLAGS", VarKind::List, " ", EditorStyle::PartsList));
    out.push(var_option("LDFLAGS", VarKind::List, " ", EditorStyle::PartsList));
    // scalars
    out.push(var_option("RANLIB", VarKind::Scalar, "", EditorStyle::Single));
    out.push(var_option("CC", VarKind::Scalar, "", EditorStyle::Single));
    out.push(var_option("CXX", VarKind::Scalar, "", EditorStyle::Single));
    out.push(var_option("AR", VarKind::Scalar, "", EditorStyle::Single));
    out.push(var_option("STRIP", VarKind::Scalar, "", EditorStyle::Single));
    out.push(var_option("GCC_EXEC_PREFIX", VarKind::Scalar, "", EditorStyle::Single));
    out.push(var_option("COLLECT_GCC_OPTIONS", VarKind::Scalar, "", EditorStyle::Single));
    out.push(var_option("LANG", VarKind::Scalar, "", EditorStyle::Single));
    proof {
        assert(out.deep_view().len() == builtin_catalog().len());
        assert forall|i: int| 0 <= i < out.len() implies
            out.deep_view()[i] == builtin_catalog()[i] by {
            assert(out.deep_view()[i] == out[i]@);
        }
        assert(out.deep_view() =~= builtin_catalog());
    }
    out
}

/// The cursor of a list: the selected row, if any.
#[derive(Debug, Clone, Copy)]
pub struct ListState {
    pub selected: Option<usize>,
}

impl ListState {
    /// Moves the cursor.
    pub fn select(&mut self, index: Option<usize>)
        ensures
            final(self).selected == index,
    {
        self.selected = index;
    }

    /// Returns the selected row.
    pub fn selected(&self) -> (out: Option<usize>)
        ensures
            out == self.selected,
    {
        self.selected
    }

    /// A cursor on `index`.
    pub fn at(index: Option<usize>) -> (out: Self)
        ensures
            out.selected == index,
    {
        ListState { selected: index }
    }
}

impl Default for ListState {
    fn default() -> (out: Self)
        ensures
            out.selected is None,
    {
        ListState { selected: None }
    }
}

/// What the caller has to do with the store after the state has changed.
#[derive(Debug)]
pub enum StoreAction {
    /// The store is up to date.
    Nothing,
    /// Save the profile at this place of the list.
    SaveProfile(usize),
    /// Delete the stored profile of this name.
    DeleteProfile(String),
    /// Give the stored profile `old_name` the name `new_name`.
    RenameProfile { old_name: String, new_name: String },
    /// Save this custom variable, then read the custom variables again.
    SaveCustomVarDef(CustomVarDef),
    /// Save this catalog item, then read the catalog again.
    SaveItem(CatalogItem),
    /// Delete the stored item of this number, then read the catalog again.
    DeleteItem(i64),
}

/// Mathematical model of a [`StoreAction`].
pub ghost enum StoreActionView {
    Nothing,
    SaveProfile(usize),
    DeleteProfile(Seq<char>),
    RenameProfile { old_name: Seq<char>, new_name: Seq<char> },
    SaveCustomVarDef(CustomVarDefView),
    SaveItem(CatalogItemView),
    DeleteItem(i64),
}

impl View for StoreAction {
    type V = StoreActionView;

    open spec fn view(&self) -> StoreActionView {
        match self {
            StoreAction::Nothing => StoreActionView::Nothing,
            StoreAction::SaveProfile(i) => StoreActionView::SaveProfile(*i),
            StoreAction::DeleteProfile(name) => StoreActionView::DeleteProfile(name@),
            StoreAction::RenameProfile { old_name, new_name } => StoreActionView::RenameProfile {
                old_name: old_name@,
                new_name: new_name@,
            },
            StoreAction::SaveCustomVarDef(def) => StoreActionView::SaveCustomVarDef(def@),
            StoreAction::SaveItem(item) => StoreActionView::SaveItem(item@),
            StoreAction::DeleteItem(id) => StoreActionView::DeleteItem(*id),
        }
    }
}

/// Why a request on the profiles was refused.
#[derive(Debug, Clone, Copy, PartialEq, Eq, Structural)]
pub enum StoreError {
    /// No profile has the name that was asked for.
    ProfileNotFound,
    /// The new name of a profile is the name of another profile.
    RenameConflict,
}

/// The state of the browser.
pub struct AppState {
    /// The profiles, in the order in which they are listed.
    pub profiles: Vec<EnvProfile>,
    /// The profile that is edited and previewed.
    pub active_profile_index: usize,
    pub profile_list_state: ListState,
    pub custom_var_defs: Vec<CustomVarDef>,
    pub var_options: Vec<VarTypeOption>,

    // UI state
    pub active_view: view::View,
    pub input_mode: InputMode,
    pub theme_preset: String,
    /// Name of the theme in use, as the theme itself gives it.
    pub theme_name: String,
    pub config: BathConfig,

    pub vars_list_state: ListState,
    pub defs_list_state: ListState,
    pub parts_list_state: ListState,
    pub items_list_state: ListState,

    pub selected_var_name: Option<String>,

    pub profiles_filter: String,
    pub vars_filter: String,
    pub defs_filter: String,
    pub parts_filter: String,
    pub items_filter: String,

    pub command_input: String,
    pub command_suggestions: Vec<String>,
    pub command_selected: usize,
    pub search_target: view::View,

    pub status: String,
    pub holding: Option<Holding>,

    pub items: Vec<CatalogItem>,
}

/// Mathematical model of an [`AppState`].
pub ghost struct AppStateView {
    pub profiles: Seq<EnvProfileView>,
    pub active_profile_index: usize,
    pub profile_list_state: ListState,
    pub custom_var_defs: Seq<CustomVarDefView>,
    pub var_options: Seq<VarTypeOptionView>,
    pub active_view: view::View,
    pub input_mode: InputMode,
    pub theme_preset: Seq<char>,
    pub theme_name: Seq<char>,
    pub config: BathConfigView,
    pub vars_list_state: ListState,
    pub defs_list_state: ListState,
    pub parts_list_state: ListState,
    pub items_list_state: ListState,
    pub selected_var_name: Option<Seq<char>>,
    pub profiles_filter: Seq<char>,
    pub vars_filter: Seq<char>,
    pub defs_filter: Seq<char>,
    pub parts_filter: Seq<char>,
    pub items_filter: Seq<char>,
    pub command_input: Seq<char>,
    pub command_suggestions: Seq<Seq<char>>,
    pub command_selected: usize,
    pub search_target: view::View,
    pub status: Seq<char>,
    pub holding: Option<HoldingView>,
    pub items: Seq<CatalogItemView>,
}

impl View for AppState {
    type V = AppStateView;

    open spec fn view(&self) -> AppStateView {
        AppStateView {
            profiles: self.profiles.deep_view(),
            active_profile_index: self.active_profile_index,
            profile_list_state: self.profile_list_state,
            custom_var_defs: self.custom_var_defs.deep_view(),
            var_options: self.var_options.deep_view(),
            active_view: self.active_view,
            input_mode: self.input_mode,
            theme_preset: self.theme_preset@,
            theme_name: self.theme_name@,
            config: self.config@,
            vars_list_state: self.vars_list_state,
            defs_list_state: self.defs_list_state,
            parts_list_state: self.parts_list_state,
            items_list_state: self.items_list_state,
            selected_var_name: self.selected_var_name.deep_view(),
            profiles_filter: self.profiles_filter@,
            vars_filter: self.vars_filter@,
            defs_filter: self.defs_filter@,
            parts_filter: self.parts_filter@,
            items_filter: self.items_filter@,
            command_input: self.command_input@,
            command_suggestions: self.command_suggestions.deep_view(),
            command_selected: self.command_selected,
            search_target: self.search_target,
            status: self.status@,
            holding: self.holding.deep_view(),
            items: self.items.deep_view(),
        }
    }
}

impl AppStateView {
    /// The state is well formed when the active profile exists.
    pub open spec fn wf(self) -> bool {
        self.active_profile_index < self.profiles.len()
    }

    /// The entries of the active profile.
    pub open spec fn active_entries(self) -> Seq<EntryView> {
        self.profiles[self.active_profile_index as int].entries
    }

    /// The state in which the active profile holds `entries` and all else is
    /// as before.
    pub open spec fn with_active_entries(self, entries: Seq<EntryView>) -> AppStateView {
        AppStateView {
            profiles: self.profiles.update(
                self.active_profile_index as int,
                EnvProfileView { name: self.profiles[self.active_profile_index as int].name, entries },
            ),
            ..self
        }
    }
}

/// The sequence `s` with the elements at `i` and `j` exchanged.
pub open spec fn swapped<T>(s: Seq<T>, i: int, j: int) -> Seq<T> {
    s.update(i, s[j]).update(j, s[i])
}

/// Whether a profile other than the one at `index` is called `name`.
pub open spec fn name_taken_by_other(
    profiles: Seq<EnvProfileView>,
    index: int,
    name: Seq<char>,
) -> bool {
    exists|j: int| 0 <= j < profiles.len() && j != index && (#[trigger] profiles[j]).name == name
}

impl AppState {
    /// The state is well formed when the active profile exists.
    pub open spec fn wf(&self) -> bool {
        self@.wf()
    }

    /// Replaces the entries of the active profile.
    fn set_active_entries(&mut self, entries: Vec<Entry>)
        requires
            old(self).wf(),
        ensures
            final(self)@ == old(self)@.with_active_entries(entries.deep_view()),
            final(self).wf(),
    {
        let index = self.active_profile_index;
        let ghost before = self.profiles.deep_view();
        let name = self.profiles[index].name.clone();
        self.profiles.set(index, EnvProfile { name, entries });
        proof {
            assert(self.profiles.deep_view() =~= before.update(
                index as int,
                EnvProfileView { name: before[index as int].name, entries: entries.deep_view() },
            ));
        }
    }

    /// Copies the entries of the active profile.
    pub fn active_entries(&self) -> (out: Vec<Entry>)
        requires
            self.wf(),
        ensures
            out.deep_view() == self@.active_entries(),
    {
        let entries = self.profiles[self.active_profile_index].entries.clone();
        proof {
            let source = self.profiles[self.active_profile_index as int].entries;
            assert forall|i: int| 0 <= i < entries.len() implies entries[i] == source[i] by {
                assert(cloned::<Entry>(source[i], entries[i]));
            }
            assert(entries.deep_view() =~= source.deep_view());
        }
        entries
    }

    /// Adds `entry` at the end of the active profile.
    pub fn add_env_var(&mut self, entry: Entry) -> (out: StoreAction)
        requires
            old(self).wf(),
        ensures
            final(self)@ == old(self)@.with_active_entries(old(self)@.active_entries().push(entry@)),
            final(self).wf(),
            out@ == StoreActionView::SaveProfile(old(self).active_profile_index),
    {
        let mut entries = self.active_entries();
        let ghost before = entries.deep_view();
        entries.push(entry);
        proof {
            assert(entries.deep_view() =~= before.push(entry@));
        }
        self.set_active_entries(entries);
        StoreAction::SaveProfile(self.active_profile_index)
    }

    /// Removes the entry at `index` from the active profile. Nothing changes
    /// when there is no such entry.
    pub fn delete_env_var(&mut self, index: usize) -> (out: StoreAction)
        requires
            old(self).wf(),
        ensures
            final(self).wf(),
            index < old(self)@.active_entries().len() ==> final(self)@ == old(
                self,
            )@.with_active_entries(old(self)@.active_entries().remove(index as int)) && out@
                == StoreActionView::SaveProfile(old(self).active_profile_index),
            index >= old(self)@.active_entries().len() ==> final(self)@ == old(self)@ && out@
                == StoreActionView::Nothing,
    {
        let mut entries = self.active_entries();
        if index < entries.len() {
            let ghost before = entries.deep_view();
            entries.remove(index);
            proof {
                assert(entries.deep_view() =~= before.remove(index as int));
            }
            self.set_active_entries(entries);
            StoreAction::SaveProfile(self.active_profile_index)
        } else {
            StoreAction::Nothing
        }
    }

    /// Puts `entry` in the place of the entry at `index` of the active
    /// profile. Nothing changes when there is no such entry.
    pub fn update_env_var(&mut self, index: usize, entry: Entry) -> (out: StoreAction)
        requires
            old(self).wf(),
        ensures
            final(self).wf(),
            index < old(self)@.active_entries().len() ==> final(self)@ == old(
                self,
            )@.with_active_entries(old(self)@.active_entries().update(index as int, entry@))
                && out@ == StoreActionView::SaveProfile(old(self).active_profile_index),
            index >= old(self)@.active_entries().len() ==> final(self)@ == old(self)@ && out@
                == StoreActionView::Nothing,
    {
        let mut entries = self.active_entries();
        if index < entries.len() {
            let ghost before = entries.deep_view();
            entries.set(index, entry);
            proof {
                assert(entries.deep_view() =~= before.update(index as int, entry@));
            }
            self.set_active_entries(entries);
            StoreAction::SaveProfile(self.active_profile_index)
        } else {
            StoreAction::Nothing
        }
    }

    /// Exchanges the entry at `index` of the active profile with the one
    /// before it. Nothing changes for the first entry and past the end.
    pub fn move_env_var_up(&mut self, index: usize) -> (out: StoreAction)
        requires
            old(self).wf(),
        ensures
            final(self).wf(),
            0 < index < old(self)@.active_entries().len() ==> final(self)@ == old(
                self,
            )@.with_active_entries(swapped(old(self)@.active_entries(), index - 1, index as int))
                && out@ == StoreActionView::SaveProfile(old(self).active_profile_index),
            !(0 < index < old(self)@.active_entries().len()) ==> final(self)@ == old(self)@ && out@
                == StoreActionView::Nothing,
    {
        let mut entries = self.active_entries();
        if index == 0 || index >= entries.len() {
            return StoreAction::Nothing;
        }
        let ghost before = entries.deep_view();
        let upper = entries[index - 1].clone();
        let lower = entries[index].clone();
        entries.set(index - 1, lower);
        entries.set(index, upper);
        proof {
            assert(entries.deep_view() =~= swapped(before, index - 1, index as int));
        }
        self.set_active_entries(entries);
        StoreAction::SaveProfile(self.active_profile_index)
    }

    /// Exchanges the entry at `index` of the active profile with the one
    /// after it. Nothing changes for the last entry and past the end.
    pub fn move_env_var_down(&mut self, index: usize) -> (out: StoreAction)
        requires
            old(self).wf(),
        ensures
            final(self).wf(),
            index + 1 < old(self)@.active_entries().len() ==> final(self)@ == old(
                self,
            )@.with_active_entries(swapped(old(self)@.active_entries(), index as int, index + 1))
                && out@ == StoreActionView::SaveProfile(old(self).active_profile_index),
            index + 1 >= old(self)@.active_entries().len() ==> final(self)@ == old(self)@ && out@
                == StoreActionView::Nothing,
    {
        let mut entries = self.active_entries();
        if entries.len() == 0 || index >= entries.len() - 1 {
            return StoreAction::Nothing;
        }
        let ghost before = entries.deep_view();
        let upper = entries[index].clone();
        let lower = entries[index + 1].clone();
        entries.set(index, lower);
        entries.set(index + 1, upper);
        proof {
            assert(entries.deep_view() =~= swapped(before, index as int, index + 1));
        }
        self.set_active_entries(entries);
        StoreAction::SaveProfile(self.active_profile_index)
    }

    /// Puts `new_parts` in the place of the parts of `var_name` in the active
    /// profile.
    ///
    /// The new parts stand together where the first old part stood; the
    /// entries of other variables keep their order around them. When the
    /// variable had no part, the new parts go to the end.
    pub fn replace_var_parts(&mut self, var_name: &str, new_parts: Vec<Entry>) -> (out: StoreAction)
        requires
            old(self).wf(),
        ensures
            final(self)@ == old(self)@.with_active_entries(
                replaced_parts(old(self)@.active_entries(), var_name@, new_parts.deep_view()),
            ),
            final(self).wf(),
            out@ == StoreActionView::SaveProfile(old(self).active_profile_index),
    {
        let old_entries = &self.profiles[self.active_profile_index].entries;
        let ghost before = old_entries.deep_view();
        let ghost fresh = new_parts.deep_view();
        let mut entries: Vec<Entry> = Vec::new();
        // Everything up to the first part of the variable stays as it is.
        let mut i: usize = 0;
        while i < old_entries.len() && !str_eq(cow_str(&old_entries[i].var_name()), var_name)
            invariant
                i <= old_entries.len(),
                before == old_entries.deep_view(),
                entries.deep_view() == before.take(i as int),
                first_part(before.take(i as int), var_name@) == i,
            decreases old_entries.len() - i,
        {
            proof {
                assert(before[i as int] == old_entries[i as int]@);
                assert(before.take(i + 1) =~= before.take(i as int).push(before[i as int]));
                lemma_first_part_push(before.take(i as int), before[i as int], var_name@);
            }
            entries.push(old_entries[i].clone());
            proof {
                assert(entries.deep_view() =~= before.take(i + 1));
            }
            i += 1;
        }
        let first = i;
        proof {
            assert(before =~= before.take(first as int) + before.skip(first as int));
            lemma_first_part_concat(before.take(first as int), before.skip(first as int), var_name@);
            if first < before.len() {
                assert(before[first as int] == old_entries[first as int]@);
                assert(before.skip(first as int)[0] == before[first as int]);
            }
            assert(first_part(before, var_name@) == first);
        }
        // The new parts take the place of the first old part.
        let mut j: usize = 0;
        while j < new_parts.len()
            invariant
                j <= new_parts.len(),
                fresh == new_parts.deep_view(),
                entries.deep_view() == before.take(first as int) + fresh.take(j as int),
            decreases new_parts.len() - j,
        {
            let ghost so_far = entries.deep_view();
            entries.push(new_parts[j].clone());
            proof {
                assert(fresh[j as int] == new_parts[j as int]@);
                assert(entries.deep_view() =~= so_far.push(fresh[j as int]));
                assert(entries.deep_view() =~= before.take(first as int) + fresh.take(j + 1));
            }
            j += 1;
        }
        proof {
            assert(fresh.take(fresh.len() as int) =~= fresh);
        }
        // What follows keeps its order, without the old parts.
        let ghost head = before.take(first as int) + fresh;
        let ghost tail = before.skip(first as int);
        while i < old_entries.len()
            invariant
                first <= i <= old_entries.len(),
                before == old_entries.deep_view(),
                tail == before.skip(first as int),
                entries.deep_view() == head + without(tail.take(i - first), var_name@),
            decreases old_entries.len() - i,
        {
            let ghost so_far = entries.deep_view();
            proof {
                assert(before[i as int] == old_entries[i as int]@);
                assert(tail[i - first] == before[i as int]);
                assert(tail.take(i - first + 1).drop_last() =~= tail.take(i - first));
                assert(tail.take(i - first + 1).last() == before[i as int]);
            }
            if !str_eq(cow_str(&old_entries[i].var_name()), var_name) {
                entries.push(old_entries[i].clone());
                proof {
                    assert(entries.deep_view() =~= so_far.push(before[i as int]));
                    assert(entries.deep_view() =~= head + without(
                        tail.take(i - first + 1),
                        var_name@,
                    ));
                }
            }
            i += 1;
        }
        proof {
            assert(tail.take(tail.len() as int) =~= tail);
        }
        self.set_active_entries(entries);
        StoreAction::SaveProfile(self.active_profile_index)
    }

    /// Adds `profile` at the end of the list.
    pub fn add_profile(&mut self, profile: EnvProfile) -> (out: StoreAction)
        requires
            old(self).profiles.len() < usize::MAX,
        ensures
            final(self)@ == (AppStateView {
                profiles: old(self)@.profiles.push(profile@),
                ..old(self)@
            }),
            old(self).wf() ==> final(self).wf(),
            out@ == StoreActionView::SaveProfile(old(self).profiles.len()),
    {
        let ghost before = self.profiles.deep_view();
        let index = self.profiles.len();
        self.profiles.push(profile);
        proof {
            assert(self.profiles.deep_view() =~= before.push(profile@));
        }
        StoreAction::SaveProfile(index)
    }

    /// Removes the profile at `index`, unless it is the only one.
    ///
    /// The last profile is never removed, and nothing changes when there is
    /// no profile at `index`. After a removal the active index is pulled
    /// back to the last profile if it pointed past the end.
    pub fn delete_profile(&mut self, index: usize) -> (out: StoreAction)
        ensures
            old(self).wf() ==> final(self).wf(),
            old(self).profiles.len() > 1 && index < old(self).profiles.len() ==> final(self)@ == (
            AppStateView {
                profiles: old(self)@.profiles.remove(index as int),
                active_profile_index: if old(self).active_profile_index >= old(
                    self,
                ).profiles.len() - 1 {
                    (old(self).profiles.len() - 2) as usize
                } else {
                    old(self).active_profile_index
                },
                ..old(self)@
            }) && out@ == StoreActionView::DeleteProfile(old(self)@.profiles[index as int].name),
            !(old(self).profiles.len() > 1 && index < old(self).profiles.len()) ==> final(self)@
                == old(self)@ && out@ == StoreActionView::Nothing,
    {
        if self.profiles.len() <= 1 {
            // Keep at least one profile: the active one must exist.
            return StoreAction::Nothing;
        }
        if index < self.profiles.len() {
            let ghost before = self.profiles.deep_view();
            let profile = self.profiles.remove(index);
            proof {
                assert(self.profiles.deep_view() =~= before.remove(index as int));
            }
            if self.active_profile_index >= self.profiles.len() {
                self.active_profile_index = self.profiles.len() - 1;
            }
            StoreAction::DeleteProfile(profile.name)
        } else {
            StoreAction::Nothing
        }
    }

    /// Gives the profile at `index` the name `new_name`.
    ///
    /// Renaming a profile to the name it has changes nothing and succeeds.
    /// A name that another profile has is refused with `RenameConflict`, and
    /// every profile stays as it was. Nothing changes either when there is
    /// no profile at `index`.
    pub fn update_profile(&mut self, index: usize, new_name: String) -> (out: Result<
        StoreAction,
        StoreError,
    >)
        ensures
            old(self).wf() ==> final(self).wf(),
            match rename_outcome(old(self)@.profiles, index as int, new_name@) {
                RenameOutcome::Unchanged => out matches Ok(action) && action@
                    == StoreActionView::Nothing && final(self)@ == old(self)@,
                RenameOutcome::Conflict => out == Err::<StoreAction, StoreError>(
                    StoreError::RenameConflict,
                ) && final(self)@ == old(self)@,
                RenameOutcome::Renamed => out matches Ok(action) && action@
                    == (StoreActionView::RenameProfile {
                    old_name: old(self)@.profiles[index as int].name,
                    new_name: new_name@,
                }) && final(self)@ == (AppStateView {
                    profiles: renamed(old(self)@.profiles, index as int, new_name@),
                    ..old(self)@
                }),
            },
    {
        if index >= self.profiles.len() {
            return Ok(StoreAction::Nothing);
        }
        let ghost before = self.profiles.deep_view();
        proof {
            assert(before[index as int] == self.profiles[index as int]@);
        }
        if str_eq(self.profiles[index].name.as_str(), new_name.as_str()) {
            return Ok(StoreAction::Nothing);
        }
        let mut j: usize = 0;
        while j < self.profiles.len()
            invariant
                j <= self.profiles.len(),
                index < self.profiles.len(),
                before == self.profiles.deep_view(),
                *self == *old(self),
                before[index as int].name != new_name@,
                forall|k: int| 0 <= k < j && k != index ==> (#[trigger] before[k]).name != new_name@,
            decreases self.profiles.len() - j,
        {
            proof {
                assert(before[j as int] == self.profiles[j as int]@);
            }
            if j != index && str_eq(self.profiles[j].name.as_str(), new_name.as_str()) {
                proof {
                    assert(before[j as int].name == new_name@);
                    assert(name_taken_by_other(before, index as int, new_name@));
                }
                return Err(StoreError::RenameConflict);
            }
            j += 1;
        }
        let old_name = self.profiles[index].name.clone();
        let entries = self.profiles[index].entries.clone();
        proof {
            let source = self.profiles[index as int].entries;
            assert forall|i: int| 0 <= i < entries.len() implies entries[i] == source[i] by {
                assert(cloned::<Entry>(source[i], entries[i]));
            }
            assert(entries.deep_view() =~= source.deep_view());
        }
        self.profiles.set(index, EnvProfile { name: new_name.clone(), entries });
        proof {
            assert(self.profiles.deep_view() =~= renamed(before, index as int, new_name@));
        }
        Ok(StoreAction::RenameProfile { old_name, new_name })
    }

    /// Builds the state the browser starts in from what the store and the
    /// configuration hold.
    ///
    /// A store without profiles gets the empty profile `default`, which the
    /// caller is told to save. The browser opens on the variables of the
    /// first profile, every cursor on the first row, no filter set, and the
    /// first variable of the catalog selected.
    pub fn new(
        profiles: Vec<EnvProfile>,
        custom_var_defs: Vec<CustomVarDef>,
        items: Vec<CatalogItem>,
        config: BathConfig,
        theme_preset: String,
        theme_name: String,
    ) -> (out: (AppState, StoreAction))
        ensures
            out.0@ == initial_state(
                profiles.deep_view(),
                custom_var_defs.deep_view(),
                items.deep_view(),
                config@,
                theme_preset@,
                theme_name@,
            ),
            out.0.wf(),
            out.1@ == if profiles.len() == 0 {
                StoreActionView::SaveProfile(0)
            } else {
                StoreActionView::Nothing
            },
    {
        let mut profiles = profiles;
        let ghost loaded = profiles.deep_view();
        let mut action = StoreAction::Nothing;
        if profiles.len() == 0 {
            profiles.push(EnvProfile::new("default"));
            action = StoreAction::SaveProfile(0);
            proof {
                assert(profiles.deep_view() =~= seq![
                    EnvProfileView { name: "default"@, entries: Seq::empty() },
                ]);
            }
        }
        let ghost defs = custom_var_defs.deep_view();
        let mut app = AppState {
            profiles,
            active_profile_index: 0,
            profile_list_state: ListState::at(Some(0)),
            custom_var_defs: Vec::new(),
            var_options: Vec::new(),
            active_view: view::View::Vars,
            input_mode: InputMode::Normal,
            theme_preset,
            theme_name,
            config,
            vars_list_state: ListState::at(Some(0)),
            defs_list_state: ListState::at(Some(0)),
            parts_list_state: ListState::at(Some(0)),
            items_list_state: ListState::at(Some(0)),
            selected_var_name: None,
            profiles_filter: String::new(),
            vars_filter: String::new(),
            defs_filter: String::new(),
            parts_filter: String::new(),
            items_filter: String::new(),
            command_input: String::new(),
            command_suggestions: Vec::new(),
            command_selected: 0,
            search_target: view::View::Vars,
            status: String::new(),
            holding: None,
            items: Vec::new(),
        };
        proof {
            assert(app.command_suggestions.deep_view() =~= Seq::<Seq<char>>::empty());
        }
        app.refresh_var_options(custom_var_defs);
        app.refresh_items(items);
        app.ensure_selected_var();
        proof {
            assert(catalog_of(defs)[0] == builtin_catalog()[0]);
            assert(catalog_of(defs)[0].name == "PATH"@);
        }
        (app, action)
    }

    /// Takes over the catalog items that the store holds.
    pub fn refresh_items(&mut self, items: Vec<CatalogItem>)
        ensures
            final(self)@ == (AppStateView { items: items.deep_view(), ..old(self)@ }),
    {
        self.items = items;
    }

    /// Selects the first variable of the catalog when none is selected.
    pub fn ensure_selected_var(&mut self)
        ensures
            final(self)@ == (AppStateView {
                selected_var_name: if old(self)@.selected_var_name is None && old(
                    self,
                )@.var_options.len() > 0 {
                    Some(old(self)@.var_options[0].name)
                } else {
                    old(self)@.selected_var_name
                },
                ..old(self)@
            }),
    {
        if self.selected_var_name.is_some() {
            return ;
        }
        if self.var_options.len() > 0 {
            proof {
                assert(self.var_options.deep_view()[0] == self.var_options[0]@);
            }
            self.selected_var_name = Some(self.var_options[0].name.clone());
        }
    }

    /// Rebuilds the catalog from the built-in variables and the custom
    /// definitions that the store holds: the built-ins first, then the
    /// custom ones in the order given.
    pub fn refresh_var_options(&mut self, custom_var_defs: Vec<CustomVarDef>)
        ensures
            final(self)@ == (AppStateView {
                custom_var_defs: custom_var_defs.deep_view(),
                var_options: catalog_of(custom_var_defs.deep_view()),
                ..old(self)@
            }),
    {
        let mut opts = builtin_var_options();
        let ghost defs = custom_var_defs.deep_view();
        let mut i: usize = 0;
        while i < custom_var_defs.len()
            invariant
                i <= custom_var_defs.len(),
                defs == custom_var_defs.deep_view(),
                opts.deep_view() == catalog_of(defs.take(i as int)),
            decreases custom_var_defs.len() - i,
        {
            let d = &custom_var_defs[i];
            let ghost before = opts.deep_view();
            opts.push(
                VarTypeOption {
                    name: d.name.clone(),
                    kind: d.kind,
                    separator: d.separator.clone(),
                    editor: match d.kind {
                        VarKind::Scalar => EditorStyle::Single,
                        VarKind::List => EditorStyle::PartsList,
                    },
                },
            );
            proof {
                assert(defs[i as int] == d@);
                assert(opts.deep_view() =~= before.push(option_of_def(d@)));
                assert(opts.deep_view() =~= catalog_of(defs.take(i + 1)));
            }
            i += 1;
        }
        proof {
            assert(defs.take(defs.len() as int) =~= defs);
        }
        self.custom_var_defs = custom_var_defs;
        self.var_options = opts;
    }
}

/// The catalog entry of a custom definition: a scalar is edited as a single
/// value, a list as a list of parts.
pub open spec fn option_of_def(def: CustomVarDefView) -> VarTypeOptionView {
    VarTypeOptionView {
        name: def.name,
        kind: def.kind,
        separator: def.separator,
        editor: match def.kind {
            VarKind::Scalar => EditorStyle::Single,
            VarKind::List => EditorStyle::PartsList,
        },
    }
}

/// The catalog: the built-in variables, then the custom ones. A custom
/// definition that has the name of a built-in stands behind it, and a lookup
/// by name finds the built-in.
pub open spec fn catalog_of(defs: Seq<CustomVarDefView>) -> Seq<VarTypeOptionView> {
    builtin_catalog() + Seq::new(defs.len(), |i: int| option_of_def(defs[i]))
}

/// The state the browser starts in.
pub open spec fn initial_state(
    profiles: Seq<EnvProfileView>,
    defs: Seq<CustomVarDefView>,
    items: Seq<CatalogItemView>,
    config: BathConfigView,
    theme_preset: Seq<char>,
    theme_name: Seq<char>,
) -> AppStateView {
    AppStateView {
        profiles: if profiles.len() == 0 {
            seq![EnvProfileView { name: "default"@, entries: Seq::empty() }]
        } else {
            profiles
        },
        active_profile_index: 0,
        profile_list_state: ListState { selected: Some(0) },
        custom_var_defs: defs,
        var_options: catalog_of(defs),
        active_view: view::View::Vars,
        input_mode: InputMode::Normal,
        theme_preset,
        theme_name,
        config,
        vars_list_state: ListState { selected: Some(0) },
        defs_list_state: ListState { selected: Some(0) },
        parts_list_state: ListState { selected: Some(0) },
        items_list_state: ListState { selected: Some(0) },
        selected_var_name: Some("PATH"@),
        profiles_filter: Seq::empty(),
        vars_filter: Seq::empty(),
        defs_filter: Seq::empty(),
        parts_filter: Seq::empty(),
        items_filter: Seq::empty(),
        command_input: Seq::empty(),
        command_suggestions: Seq::empty(),
        command_selected: 0,
        search_target: view::View::Vars,
        status: Seq::empty(),
        holding: None,
        items,
    }
}

/// Renaming a profile to the name it has is no change.
pub proof fn lemma_rename_to_own_name(profiles: Seq<EnvProfileView>, index: int)
    requires
        0 <= index < profiles.len(),
    ensures
        rename_outcome(profiles, index, profiles[index].name) is Unchanged,
{
}

/// Renaming a profile to the name of another profile is a conflict.
pub proof fn lemma_rename_to_taken_name(profiles: Seq<EnvProfileView>, index: int, other: int)
    requires
        0 <= index < profiles.len(),
        0 <= other < profiles.len(),
        profiles[index].name != profiles[other].name,
    ensures
        rename_outcome(profiles, index, profiles[other].name) is Conflict,
{
    assert(profiles[other].name == profiles[other].name);
}

/// A rename that goes through changes the name of one profile and nothing
/// else, and the new name is then the name of that profile alone.
pub proof fn lemma_rename_keeps_others(profiles: Seq<EnvProfileView>, index: int, name: Seq<char>)
    requires
        rename_outcome(profiles, index, name) is Renamed,
    ensures
        renamed(profiles, index, name).len() == profiles.len(),
        renamed(profiles, index, name)[index].name == name,
        renamed(profiles, index, name)[index].entries == profiles[index].entries,
        forall|j: int|
            0 <= j < profiles.len() && j != index ==> #[trigger] renamed(profiles, index, name)[j]
                == profiles[j] && profiles[j].name != name,
{
}

/// The configuration that asks for the preset `preset` and is otherwise as
/// `config`.
pub open spec fn with_preset(config: BathConfigView, preset: Seq<char>) -> BathConfigView {
    BathConfigView {
        theme: Some(
            match config.theme {
                Some(section) => ThemeSectionView { preset: Some(preset), ..section },
                None => ThemeSectionView { preset: Some(preset), ..ThemeSectionView::empty() },
            },
        ),
    }
}

impl AppState {
    /// Chooses the preset `preset`, of which surrounding white space does
    /// not count.
    ///
    /// An empty name changes nothing and gives `false`. Any other name
    /// becomes the preset of the state and of its configuration and gives
    /// `true`: the caller then resolves the theme and reports its name with
    /// [`AppState::theme_applied`].
    pub fn set_theme_preset(&mut self, preset: &str) -> (out: bool)
        ensures
            out == (trim_spec(preset@).len() > 0),
            !out ==> final(self)@ == old(self)@,
            out ==> final(self)@ == (AppStateView {
                theme_preset: trim_spec(preset@),
                config: with_preset(old(self)@.config, trim_spec(preset@)),
                ..old(self)@
            }),
    {
        let preset = trim(preset);
        if preset.as_str().unicode_len() == 0 {
            return false;
        }
        let section = match &self.config.theme {
            Some(section) => {
                let mut section = section.clone();
                section.preset = Some(preset.clone());
                section
            },
            None => {
                let mut section = ThemeSection::default();
                section.preset = Some(preset.clone());
                section
            },
        };
        self.config = BathConfig { theme: Some(section) };
        self.theme_preset = preset;
        true
    }

    /// Records the name of the theme that is now in use and says so in the
    /// status line.
    pub fn theme_applied(&mut self, theme_name: String)
        ensures
            final(self)@ == (AppStateView {
                theme_name: theme_name@,
                status: "theme: "@ + theme_name@,
                ..old(self)@
            }),
    {
        self.status = concat_str("theme: ", theme_name.as_str());
        self.theme_name = theme_name;
    }

    /// Finds the first profile called `name`; `ProfileNotFound` when no
    /// profile has the name.
    pub fn find_profile(&self, name: &str) -> (out: Result<usize, StoreError>)
        ensures
            match out {
                Ok(place) => place < self.profiles.len() && profile_place(self@.profiles, name@)
                    == Some(place as int),
                Err(e) => e == StoreError::ProfileNotFound && profile_place(self@.profiles, name@)
                    is None,
            },
    {
        let ghost all = self.profiles.deep_view();
        let mut i: usize = 0;
        proof {
            assert(all.skip(0) =~= all);
        }
        while i < self.profiles.len()
            invariant
                i <= self.profiles.len(),
                all == self.profiles.deep_view(),
                profile_place(all, name@) == match profile_place(all.skip(i as int), name@) {
                    Some(k) => Some(k + i),
                    None => None,
                },
            decreases self.profiles.len() - i,
        {
            proof {
                assert(all.skip(i as int).first() == self.profiles[i as int]@);
                assert(all.skip(i as int).drop_first() =~= all.skip(i + 1));
            }
            if str_eq(self.profiles[i].name.as_str(), name) {
                return Ok(i);
            }
            i += 1;
        }
        Err(StoreError::ProfileNotFound)
    }
}

/// The place of the first of `profiles` called `name`, if there is one.
pub open spec fn profile_place(profiles: Seq<EnvProfileView>, name: Seq<char>) -> Option<int>
    decreases profiles.len(),
{
    if profiles.len() == 0 {
        None
    } else if profiles.first().name == name {
        Some(0)
    } else {
        match profile_place(profiles.drop_first(), name) {
            Some(k) => Some(k + 1),
            None => None,
        }
    }
}

/// The place of the first entry that belongs to `name`; the length of
/// `entries` when none does.
pub open spec fn first_part(entries: Seq<EntryView>, name: Seq<char>) -> int
    decreases entries.len(),
{
    if entries.len() == 0 {
        0
    } else if entries.first().var_name() == name {
        0
    } else {
        1 + first_part(entries.drop_first(), name)
    }
}

/// The entries that do not belong to `name`, in their order.
pub open spec fn without(entries: Seq<EntryView>, name: Seq<char>) -> Seq<EntryView>
    decreases entries.len(),
{
    if entries.len() == 0 {
        Seq::empty()
    } else {
        let before = without(entries.drop_last(), name);
        if entries.last().var_name() == name {
            before
        } else {
            before.push(entries.last())
        }
    }
}

/// The entries after the parts of `name` have been replaced by `new_parts`:
/// what stood before the first old part, then the new parts, then what
/// followed without the old parts.
pub open spec fn replaced_parts(
    entries: Seq<EntryView>,
    name: Seq<char>,
    new_parts: Seq<EntryView>,
) -> Seq<EntryView> {
    let first = first_part(entries, name);
    entries.take(first) + new_parts + without(entries.skip(first), name)
}

/// The entries that belong to `name`, in their order.
pub open spec fn entries_of(entries: Seq<EntryView>, name: Seq<char>) -> Seq<EntryView>
    decreases entries.len(),
{
    if entries.len() == 0 {
        Seq::empty()
    } else {
        let before = entries_of(entries.drop_last(), name);
        if entries.last().var_name() == name {
            before.push(entries.last())
        } else {
            before
        }
    }
}

/// Whether every one of `entries` belongs to `name`.
pub open spec fn all_belong(entries: Seq<EntryView>, name: Seq<char>) -> bool {
    forall|i: int| 0 <= i < entries.len() ==> (#[trigger] entries[i]).var_name() == name
}

/// Whether none of `entries` belongs to `name`.
pub open spec fn none_belongs(entries: Seq<EntryView>, name: Seq<char>) -> bool {
    forall|i: int| 0 <= i < entries.len() ==> (#[trigger] entries[i]).var_name() != name
}

/// Leaving out and picking out the entries of a variable both work piece
/// by piece.
pub proof fn lemma_split_by_name_concat(a: Seq<EntryView>, b: Seq<EntryView>, name: Seq<char>)
    ensures
        without(a + b, name) == without(a, name) + without(b, name),
        entries_of(a + b, name) == entries_of(a, name) + entries_of(b, name),
    decreases b.len(),
{
    if b.len() == 0 {
        assert(a + b =~= a);
        assert(without(a, name) + without(b, name) =~= without(a, name));
        assert(entries_of(a, name) + entries_of(b, name) =~= entries_of(a, name));
    } else {
        lemma_split_by_name_concat(a, b.drop_last(), name);
        assert((a + b).drop_last() =~= a + b.drop_last());
        assert((a + b).last() == b.last());
        assert(without(a + b, name) =~= without(a, name) + without(b, name));
        assert(entries_of(a + b, name) =~= entries_of(a, name) + entries_of(b, name));
    }
}

/// Entries that all belong to a variable are picked out whole and left out
/// whole.
pub proof fn lemma_split_when_all_belong(entries: Seq<EntryView>, name: Seq<char>)
    requires
        all_belong(entries, name),
    ensures
        entries_of(entries, name) == entries,
        without(entries, name) == Seq::<EntryView>::empty(),
    decreases entries.len(),
{
    if entries.len() > 0 {
        let rest = entries.drop_last();
        assert forall|i: int| 0 <= i < rest.len() implies (#[trigger] rest[i]).var_name()
            == name by {
            assert(rest[i] == entries[i]);
        }
        lemma_split_when_all_belong(rest, name);
        assert(entries.last() == entries[entries.len() - 1]);
        assert(entries_of(entries, name) =~= entries);
    }
}

/// Entries of which none belongs to a variable are left as they are when
/// the variable is left out, and none is picked out.
pub proof fn lemma_split_when_none_belongs(entries: Seq<EntryView>, name: Seq<char>)
    requires
        none_belongs(entries, name),
    ensures
        without(entries, name) == entries,
        entries_of(entries, name) == Seq::<EntryView>::empty(),
    decreases entries.len(),
{
    if entries.len() > 0 {
        let rest = entries.drop_last();
        assert forall|i: int| 0 <= i < rest.len() implies (#[trigger] rest[i]).var_name()
            != name by {
            assert(rest[i] == entries[i]);
        }
        lemma_split_when_none_belongs(rest, name);
        assert(entries.last() == entries[entries.len() - 1]);
        assert(without(entries, name) =~= entries);
    }
}

/// What is left after a variable has been left out holds no entry of it.
pub proof fn lemma_without_holds_none(entries: Seq<EntryView>, name: Seq<char>)
    ensures
        none_belongs(without(entries, name), name),
    decreases entries.len(),
{
    if entries.len() > 0 {
        lemma_without_holds_none(entries.drop_last(), name);
        let before = without(entries.drop_last(), name);
        if entries.last().var_name() != name {
            assert forall|i: int| 0 <= i < before.push(entries.last()).len() implies (
            #[trigger] before.push(entries.last())[i]).var_name() != name by {
                if i < before.len() {
                    assert(before.push(entries.last())[i] == before[i]);
                }
            }
        }
    }
}

/// No entry before the first part of a variable belongs to the variable.
pub proof fn lemma_none_before_first_part(entries: Seq<EntryView>, name: Seq<char>)
    ensures
        0 <= first_part(entries, name) <= entries.len(),
        none_belongs(entries.take(first_part(entries, name)), name),
    decreases entries.len(),
{
    lemma_first_part_bounds(entries, name);
    if entries.len() > 0 && entries.first().var_name() != name {
        let tail = entries.drop_first();
        lemma_none_before_first_part(tail, name);
        let first = first_part(entries, name);
        assert forall|i: int| 0 <= i < entries.take(first).len() implies (#[trigger] entries.take(
            first,
        )[i]).var_name() != name by {
            if i > 0 {
                assert(entries.take(first)[i] == tail.take(first - 1)[i - 1]);
            }
        }
    }
}

/// After the parts of a variable have been replaced by parts of that
/// variable, the variable has exactly the new parts, in their order, and
/// the entries of the other variables are the same as before, in the same
/// order.
pub proof fn lemma_replaced_parts(entries: Seq<EntryView>, name: Seq<char>, new_parts: Seq<EntryView>)
    requires
        all_belong(new_parts, name),
    ensures
        entries_of(replaced_parts(entries, name, new_parts), name) == new_parts,
        without(replaced_parts(entries, name, new_parts), name) == without(entries, name),
{
    let first = first_part(entries, name);
    lemma_none_before_first_part(entries, name);
    let head = entries.take(first);
    let tail = entries.skip(first);
    let rest = without(tail, name);
    assert(entries =~= head + tail);
    lemma_split_when_none_belongs(head, name);
    lemma_split_when_all_belong(new_parts, name);
    lemma_without_holds_none(tail, name);
    lemma_split_when_none_belongs(rest, name);
    lemma_split_by_name_concat(head, tail, name);
    lemma_split_by_name_concat(head + new_parts, rest, name);
    lemma_split_by_name_concat(head, new_parts, name);
    assert(entries_of(replaced_parts(entries, name, new_parts), name) =~= new_parts);
    assert(without(replaced_parts(entries, name, new_parts), name) =~= without(entries, name));
}

/// The place of the first part lies within the list.
pub proof fn lemma_first_part_bounds(entries: Seq<EntryView>, name: Seq<char>)
    ensures
        0 <= first_part(entries, name) <= entries.len(),
    decreases entries.len(),
{
    if entries.len() > 0 && entries.first().var_name() != name {
        lemma_first_part_bounds(entries.drop_first(), name);
    }
}

/// While no part of `name` has been met, its first part is looked for in
/// what follows.
pub proof fn lemma_first_part_concat(a: Seq<EntryView>, b: Seq<EntryView>, name: Seq<char>)
    requires
        first_part(a, name) == a.len(),
    ensures
        first_part(a + b, name) == a.len() + first_part(b, name),
    decreases a.len(),
{
    if a.len() == 0 {
        assert(a + b =~= b);
    } else {
        lemma_first_part_bounds(a.drop_first(), name);
        assert((a + b).first() == a.first());
        assert((a + b).drop_first() =~= a.drop_first() + b);
        lemma_first_part_concat(a.drop_first(), b, name);
    }
}

/// Adding an entry of another variable to a list without parts of `name`
/// gives a list without parts of `name`.
pub proof fn lemma_first_part_push(a: Seq<EntryView>, e: EntryView, name: Seq<char>)
    requires
        first_part(a, name) == a.len(),
        e.var_name() != name,
    ensures
        first_part(a.push(e), name) == a.len() + 1,
{
    let one = seq![e];
    assert(one.first() == e);
    assert(one.drop_first() =~= Seq::<EntryView>::empty());
    assert(first_part(one.drop_first(), name) == 0);
    assert(first_part(one, name) == 1);
    lemma_first_part_concat(a, one, name);
    assert(a.push(e) =~= a + one);
}

/// What a request to rename a profile comes to.
pub enum RenameOutcome {
    /// Nothing is to be done: no such profile, or it has the name already.
    Unchanged,
    /// Another profile has the name.
    Conflict,
    /// The profile gets the name.
    Renamed,
}

/// Decides a request to give the profile at `index` the name `name`.
pub open spec fn rename_outcome(
    profiles: Seq<EnvProfileView>,
    index: int,
    name: Seq<char>,
) -> RenameOutcome {
    if !(0 <= index < profiles.len()) {
        RenameOutcome::Unchanged
    } else if profiles[index].name == name {
        RenameOutcome::Unchanged
    } else if name_taken_by_other(profiles, index, name) {
        RenameOutcome::Conflict
    } else {
        RenameOutcome::Renamed
    }
}

/// The profiles after the one at `index` has been given the name `name`.
pub open spec fn renamed(profiles: Seq<EnvProfileView>, index: int, name: Seq<char>) -> Seq<
    EnvProfileView,
> {
    profiles.update(index, EnvProfileView { name, entries: profiles[index].entries })
}

} // verus!

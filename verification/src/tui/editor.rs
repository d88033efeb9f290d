//! The editor of one part: a searchable list of variables beside the input
//! fields of the part.

use crate::config::{cow_str, Entry, EntryView, PathEntry, PathEntryView, VarKind};
use crate::export::{generate_export_line, render_spec, OperationMode};
use crate::profile_editor::Outcome;
use crate::text::{
    contains_ignoring_case, is_infix_ignoring_case, pop_char, push_char, str_eq, without_last,
};
use crate::tui::input::Key;
use crate::tui::state::{EditorStyle, VarTypeOption, VarTypeOptionView};
use vstd::prelude::*;

verus! {

/// Tells whether parts of the variable are edited as a path with its
/// program and version.
pub fn is_path_part(opt: &VarTypeOption) -> (out: bool)
    ensures
        out == (opt.editor == EditorStyle::PathPart),
{
    match opt.editor {
        EditorStyle::PathPart => true,
        _ => false,
    }
}

/// The area of the editor that takes the keys.
#[derive(Debug, Clone, Copy, PartialEq, Eq, Structural)]
pub enum FocusArea {
    Search,
    Options,
    Input,
}

impl Default for FocusArea {
    fn default() -> (out: Self)
        ensures
            out == FocusArea::Search,
    {
        FocusArea::Search
    }
}

/// The state of the editor.
pub struct EnvVarEditorState {
    /// Every variable that can be chosen.
    pub all_options: Vec<VarTypeOption>,
    /// The search text.
    pub search: String,
    /// The variables that the list shows.
    pub filtered: Vec<VarTypeOption>,
    /// The cursor of the list.
    pub selected: usize,
    /// The value, for a variable edited as a single field.
    pub input: String,
    /// The three fields of a path part.
    pub path: String,
    pub version: String,
    pub tool: String,
    /// Which of the three fields takes the keys.
    pub active_input_field: usize,
    pub focus: FocusArea,
    /// The search text for which `filtered` was last computed.
    pub last_search: String,
}

/// Mathematical model of an [`EnvVarEditorState`].
pub ghost struct EnvVarEditorStateView {
    pub all_options: Seq<VarTypeOptionView>,
    pub search: Seq<char>,
    pub filtered: Seq<VarTypeOptionView>,
    pub selected: usize,
    pub input: Seq<char>,
    pub path: Seq<char>,
    pub version: Seq<char>,
    pub tool: Seq<char>,
    pub active_input_field: usize,
    pub focus: FocusArea,
    pub last_search: Seq<char>,
}

impl View for EnvVarEditorState {
    type V = EnvVarEditorStateView;

    open spec fn view(&self) -> EnvVarEditorStateView {
        EnvVarEditorStateView {
            all_options: self.all_options.deep_view(),
            search: self.search@,
            filtered: self.filtered.deep_view(),
            selected: self.selected,
            input: self.input@,
            path: self.path@,
            version: self.version@,
            tool: self.tool@,
            active_input_field: self.active_input_field,
            focus: self.focus,
            last_search: self.last_search@,
        }
    }
}

/// The place of the first of `options` called `name`, if there is one.
pub open spec fn option_place(options: Seq<VarTypeOptionView>, name: Seq<char>) -> Option<int>
    decreases options.len(),
{
    if options.len() == 0 {
        None
    } else if options.first().name == name {
        Some(0)
    } else {
        match option_place(options.drop_first(), name) {
            Some(k) => Some(k + 1),
            None => None,
        }
    }
}

/// The options whose name holds `search`, letter case ignored, in their
/// order.
pub open spec fn options_matching(options: Seq<VarTypeOptionView>, search: Seq<char>) -> Seq<
    VarTypeOptionView,
>
    decreases options.len(),
{
    if options.len() == 0 {
        Seq::empty()
    } else {
        let before = options_matching(options.drop_last(), search);
        if is_infix_ignoring_case(options.last().name, search) {
            before.push(options.last())
        } else {
            before
        }
    }
}

/// What the list shows for `search`: the options that match it, and every
/// option when none matches.
pub open spec fn options_shown(options: Seq<VarTypeOptionView>, search: Seq<char>) -> Seq<
    VarTypeOptionView,
> {
    if options_matching(options, search).len() == 0 {
        options
    } else {
        options_matching(options, search)
    }
}

/// The editor as it opens on `options`, empty or filled from the part
/// `initial`.
///
/// An empty editor has the cursor on the first option and the keys go to
/// the search. An editor opened on a part has the cursor on the part's
/// variable, if the options hold it, the fields filled from the part, and
/// the keys go to the input.
pub open spec fn editor_opened(
    options: Seq<VarTypeOptionView>,
    initial: Option<EntryView>,
) -> EnvVarEditorStateView {
    let empty = EnvVarEditorStateView {
        all_options: options,
        search: Seq::empty(),
        filtered: options,
        selected: 0,
        input: Seq::empty(),
        path: Seq::empty(),
        version: Seq::empty(),
        tool: Seq::empty(),
        active_input_field: 0,
        focus: FocusArea::Search,
        last_search: Seq::empty(),
    };
    match initial {
        None => empty,
        Some(e) => {
            let selected = match option_place(options, e.var_name()) {
                Some(k) => k as usize,
                None => 0,
            };
            match e {
                EntryView::Path(p) => EnvVarEditorStateView {
                    selected,
                    path: p.path,
                    version: p.version,
                    tool: p.program,
                    focus: FocusArea::Input,
                    ..empty
                },
                _ => EnvVarEditorStateView {
                    selected,
                    input: e.value(),
                    focus: FocusArea::Input,
                    ..empty
                },
            }
        },
    }
}

/// Copies a list of options.
pub fn clone_options(options: &[VarTypeOption]) -> (out: Vec<VarTypeOption>)
    ensures
        out.deep_view() == options.deep_view(),
{
    let mut out: Vec<VarTypeOption> = Vec::new();
    let mut i: usize = 0;
    while i < options.len()
        invariant
            i <= options.len(),
            out.len() == i,
            forall|j: int| 0 <= j < i ==> out[j]@ == options[j]@,
        decreases options.len() - i,
    {
        out.push(options[i].clone());
        i += 1;
    }
    proof {
        assert(out.deep_view() =~= options.deep_view());
    }
    out
}

/// Finds the place of the first option called `name`.
fn find_option(options: &Vec<VarTypeOption>, name: &str) -> (out: Option<usize>)
    ensures
        match out {
            Some(k) => k < options.len() && option_place(options.deep_view(), name@) == Some(
                k as int,
            ),
            None => option_place(options.deep_view(), name@) is None,
        },
{
    let ghost all = options.deep_view();
    let mut i: usize = 0;
    proof {
        assert(all.skip(0) =~= all);
    }
    while i < options.len()
        invariant
            i <= options.len(),
            all == options.deep_view(),
            option_place(all, name@) == match option_place(all.skip(i as int), name@) {
                Some(k) => Some(k + i),
                None => None,
            },
        decreases options.len() - i,
    {
        proof {
            assert(all.skip(i as int).first() == options[i as int]@);
            assert(all.skip(i as int).drop_first() =~= all.skip(i + 1));
        }
        if str_eq(options[i].name.as_str(), name) {
            return Some(i);
        }
        i += 1;
    }
    None
}

impl EnvVarEditorState {
    /// Opens the editor on `options`, empty or filled from the part
    /// `initial`.
    pub fn new(options: &[VarTypeOption], initial: Option<&Entry>) -> (out: Self)
        ensures
            out@ == editor_opened(
                options.deep_view(),
                match initial {
                    Some(e) => Some(e@),
                    None => None,
                },
            ),
    {
        let mut s = Self {
            all_options: clone_options(options),
            search: String::new(),
            filtered: clone_options(options),
            selected: 0,
            input: String::new(),
            path: String::new(),
            version: String::new(),
            tool: String::new(),
            active_input_field: 0,
            focus: FocusArea::Search,
            last_search: String::new(),
        };
        if let Some(e) = initial {
            let initial_name = e.var_name();
            if let Some(pos) = find_option(&s.all_options, cow_str(&initial_name)) {
                s.selected = pos;
            }
            match e {
                Entry::Path(pe) => {
                    s.path = pe.path.clone();
                    s.version = pe.version.clone();
                    s.tool = pe.program.clone();
                    s.focus = FocusArea::Input;
                },
                _ => {
                    s.input = e.display_value();
                    s.focus = FocusArea::Input;
                },
            }
        }
        s
    }

    /// Brings the list up to date with the search text.
    ///
    /// Nothing changes while the search text is the one the list was last
    /// computed for, so the cursor stays where the user moved it. For a new
    /// search text the list shows the options that match it, or every option
    /// when none matches, and the cursor goes back to the first row.
    pub fn update_filter(&mut self)
        ensures
            old(self)@.search == old(self)@.last_search ==> final(self)@ == old(self)@,
            old(self)@.search != old(self)@.last_search ==> final(self)@ == (
            EnvVarEditorStateView {
                last_search: old(self)@.search,
                filtered: options_shown(old(self)@.all_options, old(self)@.search),
                selected: 0,
                ..old(self)@
            }),
    {
        if str_eq(self.search.as_str(), self.last_search.as_str()) {
            return ;
        }
        self.last_search = self.search.clone();
        let ghost all = self.all_options.deep_view();
        let mut filtered: Vec<VarTypeOption> = Vec::new();
        let mut i: usize = 0;
        while i < self.all_options.len()
            invariant
                i <= self.all_options.len(),
                all == self.all_options.deep_view(),
                self.search == old(self).search,
                filtered.deep_view() == options_matching(all.take(i as int), self.search@),
            decreases self.all_options.len() - i,
        {
            let ghost before = filtered.deep_view();
            proof {
                assert(all[i as int] == self.all_options[i as int]@);
                assert(all.take(i + 1).drop_last() =~= all.take(i as int));
            }
            if contains_ignoring_case(self.all_options[i].name.as_str(), self.search.as_str()) {
                filtered.push(self.all_options[i].clone());
                proof {
                    assert(filtered.deep_view() =~= before.push(all[i as int]));
                }
            }
            i += 1;
        }
        proof {
            assert(all.take(all.len() as int) =~= all);
        }
        if filtered.len() == 0 {
            filtered = clone_options(self.all_options.as_slice());
        }
        self.filtered = filtered;
        self.selected = 0;
    }
}

/// The part that the editor holds for the variable `opt`.
///
/// A variable edited as a path gives a `PATH` part from the three path
/// fields. A built-in name gives the built-in's own kind of entry with the
/// input as its value. Any other name gives a custom scalar or a custom part
/// with the option's separator, by the option's kind.
pub open spec fn entry_of_editor(
    opt: VarTypeOptionView,
    state: EnvVarEditorStateView,
) -> EntryView {
    if opt.editor == EditorStyle::PathPart {
        EntryView::Path(
            PathEntryView { path: state.path, program: state.tool, version: state.version },
        )
    } else if opt.name == "CPATH"@ {
        EntryView::CPath(state.input)
    } else if opt.name == "C_INCLUDE_PATH"@ {
        EntryView::CInclude(state.input)
    } else if opt.name == "CPLUS_INCLUDE_PATH"@ {
        EntryView::CPlusInclude(state.input)
    } else if opt.name == "OBJC_INCLUDE_PATH"@ {
        EntryView::OBJCInclude(state.input)
    } else if opt.name == "CPPFLAGS"@ {
        EntryView::CPPFlag(state.input)
    } else if opt.name == "CFLAGS"@ {
        EntryView::CFlag(state.input)
    } else if opt.name == "CXXFLAGS"@ {
        EntryView::CXXFlag(state.input)
    } else if opt.name == "LDFLAGS"@ {
        EntryView::LDFlag(state.input)
    } else if opt.name == "LIBRARY_PATH"@ {
        EntryView::LibraryPath(state.input)
    } else if opt.name == "LD_LIBRARY_PATH"@ {
        EntryView::LDLibraryPath(state.input)
    } else if opt.name == "LD_RUN_PATH"@ {
        EntryView::LDRunPath(state.input)
    } else if opt.name == "RANLIB"@ {
        EntryView::RanLib(state.input)
    } else if opt.name == "CC"@ {
        EntryView::CC(state.input)
    } else if opt.name == "CXX"@ {
        EntryView::CXX(state.input)
    } else if opt.name == "AR"@ {
        EntryView::AR(state.input)
    } else if opt.name == "STRIP"@ {
        EntryView::Strip(state.input)
    } else if opt.name == "GCC_EXEC_PREFIX"@ {
        EntryView::GCCExecPrefix(state.input)
    } else if opt.name == "COLLECT_GCC_OPTIONS"@ {
        EntryView::CollectGCCOptions(state.input)
    } else if opt.name == "LANG"@ {
        EntryView::Lang(state.input)
    } else {
        match opt.kind {
            VarKind::Scalar => EntryView::CustomScalar { name: opt.name, value: state.input },
            VarKind::List => EntryView::CustomPart {
                name: opt.name,
                value: state.input,
                separator: opt.separator,
            },
        }
    }
}

/// Makes the part that the editor holds for the variable `opt`.
pub fn entry_from_state(opt: &VarTypeOption, state: &EnvVarEditorState) -> (out: Entry)
    ensures
        out@ == entry_of_editor(opt@, state@),
{
    if is_path_part(opt) {
        return Entry::Path(
            PathEntry {
                path: state.path.clone(),
                version: state.version.clone(),
                program: state.tool.clone(),
            },
        );
    }
    // Builtins
    let name = opt.name.as_str();
    if str_eq(name, "CPATH") {
        return Entry::CPath(state.input.clone());
    }
    if str_eq(name, "C_INCLUDE_PATH") {
        return Entry::CInclude(state.input.clone());
    }
    if str_eq(name, "CPLUS_INCLUDE_PATH") {
        return Entry::CPlusInclude(state.input.clone());
    }
    if str_eq(name, "OBJC_INCLUDE_PATH") {
        return Entry::OBJCInclude(state.input.clone());
    }
    if str_eq(name, "CPPFLAGS") {
        return Entry::CPPFlag(state.input.clone());
    }
    if str_eq(name, "CFLAGS") {
        return Entry::CFlag(state.input.clone());
    }
    if str_eq(name, "CXXFLAGS") {
        return Entry::CXXFlag(state.input.clone());
    }
    if str_eq(name, "LDFLAGS") {
        return Entry::LDFlag(state.input.clone());
    }
    if str_eq(name, "LIBRARY_PATH") {
        return Entry::LibraryPath(state.input.clone());
    }
    if str_eq(name, "LD_LIBRARY_PATH") {
        return Entry::LDLibraryPath(state.input.clone());
    }
    if str_eq(name, "LD_RUN_PATH") {
        return Entry::LDRunPath(state.input.clone());
    }
    if str_eq(name, "RANLIB") {
        return Entry::RanLib(state.input.clone());
    }
    if str_eq(name, "CC") {
        return Entry::CC(state.input.clone());
    }
    if str_eq(name, "CXX") {
        return Entry::CXX(state.input.clone());
    }
    if str_eq(name, "AR") {
        return Entry::AR(state.input.clone());
    }
    if str_eq(name, "STRIP") {
        return Entry::Strip(state.input.clone());
    }
    if str_eq(name, "GCC_EXEC_PREFIX") {
        return Entry::GCCExecPrefix(state.input.clone());
    }
    if str_eq(name, "COLLECT_GCC_OPTIONS") {
        return Entry::CollectGCCOptions(state.input.clone());
    }
    if str_eq(name, "LANG") {
        return Entry::Lang(state.input.clone());
    }
    // Custom vars
    match opt.kind {
        VarKind::Scalar => Entry::CustomScalar {
            name: opt.name.clone(),
            value: state.input.clone(),
        },
        VarKind::List => Entry::CustomPart {
            name: opt.name.clone(),
            value: state.input.clone(),
            separator: opt.separator.clone(),
        },
    }
}

impl EnvVarEditorStateView {
    /// Whether the variable under the cursor is edited as a path with its
    /// program and version.
    pub open spec fn on_path(self) -> bool {
        self.selected < self.filtered.len() && self.filtered[self.selected as int].editor
            == EditorStyle::PathPart
    }

    /// The editor with its list brought up to date with the search text.
    pub open spec fn refiltered(self) -> EnvVarEditorStateView {
        if self.search == self.last_search {
            self
        } else {
            EnvVarEditorStateView {
                last_search: self.search,
                filtered: options_shown(self.all_options, self.search),
                selected: 0,
                ..self
            }
        }
    }

    /// The editor after a character has been typed.
    pub open spec fn after_char(self, c: char) -> EnvVarEditorStateView {
        match self.focus {
            FocusArea::Search => (EnvVarEditorStateView {
                search: self.search.push(c),
                ..self
            }).refiltered(),
            FocusArea::Options => self,
            FocusArea::Input => if self.on_path() {
                if self.active_input_field == 0 {
                    EnvVarEditorStateView { path: self.path.push(c), ..self }
                } else if self.active_input_field == 1 {
                    EnvVarEditorStateView { version: self.version.push(c), ..self }
                } else if self.active_input_field == 2 {
                    EnvVarEditorStateView { tool: self.tool.push(c), ..self }
                } else {
                    self
                }
            } else {
                EnvVarEditorStateView { input: self.input.push(c), ..self }
            },
        }
    }

    /// The editor after Backspace.
    pub open spec fn after_backspace(self) -> EnvVarEditorStateView {
        match self.focus {
            FocusArea::Search => (EnvVarEditorStateView {
                search: without_last(self.search),
                ..self
            }).refiltered(),
            FocusArea::Options => self,
            FocusArea::Input => if self.on_path() {
                if self.active_input_field == 0 {
                    EnvVarEditorStateView { path: without_last(self.path), ..self }
                } else if self.active_input_field == 1 {
                    EnvVarEditorStateView { version: without_last(self.version), ..self }
                } else if self.active_input_field == 2 {
                    EnvVarEditorStateView { tool: without_last(self.tool), ..self }
                } else {
                    self
                }
            } else {
                EnvVarEditorStateView { input: without_last(self.input), ..self }
            },
        }
    }

    /// The editor after a key.
    ///
    /// Tab hands the keys to the next area. Characters and Backspace edit
    /// the search text, after which the list follows, or the field that
    /// takes the keys. Up and Down move the cursor of the list or, for a
    /// path, go from field to field.
    pub open spec fn after_key(self, key: Key) -> EnvVarEditorStateView {
        match key {
            Key::Tab => EnvVarEditorStateView {
                focus: match self.focus {
                    FocusArea::Search => FocusArea::Options,
                    FocusArea::Options => FocusArea::Input,
                    FocusArea::Input => FocusArea::Search,
                },
                ..self
            },
            Key::Backspace => self.after_backspace(),
            Key::Char(c) => self.after_char(c),
            Key::Up => match self.focus {
                FocusArea::Options => if self.selected > 0 {
                    EnvVarEditorStateView { selected: (self.selected - 1) as usize, ..self }
                } else {
                    self
                },
                FocusArea::Input => if self.on_path() && self.active_input_field > 0 {
                    EnvVarEditorStateView {
                        active_input_field: (self.active_input_field - 1) as usize,
                        ..self
                    }
                } else {
                    self
                },
                FocusArea::Search => self,
            },
            Key::Down => match self.focus {
                FocusArea::Options => if self.selected + 1 < self.filtered.len() {
                    EnvVarEditorStateView { selected: (self.selected + 1) as usize, ..self }
                } else {
                    self
                },
                FocusArea::Input => if self.on_path() && self.active_input_field < 2 {
                    EnvVarEditorStateView {
                        active_input_field: (self.active_input_field + 1) as usize,
                        ..self
                    }
                } else {
                    self
                },
                FocusArea::Search => self,
            },
            _ => self,
        }
    }

    /// The statement previewed for what the editor holds, with the new
    /// value put before the existing one. While the cursor points at no
    /// variable, the preview is that of `CFLAGS`.
    pub open spec fn preview(self) -> Seq<char> {
        let option = if self.selected < self.filtered.len() {
            self.filtered[self.selected as int]
        } else {
            VarTypeOptionView {
                name: "CFLAGS"@,
                kind: VarKind::List,
                separator: " "@,
                editor: EditorStyle::Single,
            }
        };
        let entry = entry_of_editor(option, self);
        render_spec(entry.var_name(), entry.value(), entry.separator(), OperationMode::Prepend)
    }
}

impl EnvVarEditorState {
    /// Tells whether the variable under the cursor is edited as a path with
    /// its program and version.
    pub fn on_path(&self) -> (out: bool)
        ensures
            out == self@.on_path(),
    {
        if self.selected < self.filtered.len() {
            proof {
                assert(self@.filtered[self.selected as int] == self.filtered[self.selected as int]@);
            }
            is_path_part(&self.filtered[self.selected])
        } else {
            false
        }
    }

    /// Handles a key. Esc gives up, Enter answers with the part that the
    /// editor holds for the variable under the cursor, and every other key
    /// edits.
    pub fn key(&mut self, key: Key) -> (out: Outcome<Entry>)
        requires
            key is Enter ==> old(self).selected < old(self).filtered.len(),
        ensures
            match key {
                Key::Esc => out is Cancelled && final(self)@ == old(self)@,
                Key::Enter => {
                    &&& final(self)@ == old(self)@
                    &&& out matches Outcome::Finished(entry) && entry@ == entry_of_editor(
                        old(self)@.filtered[old(self).selected as int],
                        old(self)@,
                    )
                },
                _ => out is Pending && final(self)@ == old(self)@.after_key(key),
            },
    {
        match key {
            Key::Esc => Outcome::Cancelled,
            Key::Enter => {
                proof {
                    assert(self@.filtered[self.selected as int] == self.filtered[self.selected as int]@);
                }
                Outcome::Finished(entry_from_state(&self.filtered[self.selected], self))
            },
            Key::Tab => {
                // Cycle focus among Search -> Options -> Input.
                self.focus = match self.focus {
                    FocusArea::Search => FocusArea::Options,
                    FocusArea::Options => FocusArea::Input,
                    FocusArea::Input => FocusArea::Search,
                };
                Outcome::Pending
            },
            Key::Backspace => {
                match self.focus {
                    FocusArea::Search => {
                        pop_char(&mut self.search);
                        self.update_filter();
                    },
                    FocusArea::Options => {},
                    FocusArea::Input => {
                        if self.on_path() {
                            if self.active_input_field == 0 {
                                pop_char(&mut self.path);
                            } else if self.active_input_field == 1 {
                                pop_char(&mut self.version);
                            } else if self.active_input_field == 2 {
                                pop_char(&mut self.tool);
                            }
                        } else {
                            pop_char(&mut self.input);
                        }
                    },
                }
                Outcome::Pending
            },
            Key::Char(c) => {
                match self.focus {
                    FocusArea::Search => {
                        push_char(&mut self.search, c);
                        self.update_filter();
                    },
                    FocusArea::Options => {},
                    FocusArea::Input => {
                        if self.on_path() {
                            if self.active_input_field == 0 {
                                push_char(&mut self.path, c);
                            } else if self.active_input_field == 1 {
                                push_char(&mut self.version, c);
                            } else if self.active_input_field == 2 {
                                push_char(&mut self.tool, c);
                            }
                        } else {
                            push_char(&mut self.input, c);
                        }
                    },
                }
                Outcome::Pending
            },
            Key::Up => {
                match self.focus {
                    FocusArea::Options => {
                        if self.selected > 0 {
                            self.selected -= 1;
                        }
                    },
                    FocusArea::Input => {
                        if self.on_path() && self.active_input_field > 0 {
                            self.active_input_field -= 1;
                        }
                    },
                    FocusArea::Search => {},
                }
                Outcome::Pending
            },
            Key::Down => {
                match self.focus {
                    FocusArea::Options => {
                        if self.filtered.len() > 0 && self.selected < self.filtered.len() - 1 {
                            self.selected += 1;
                        }
                    },
                    FocusArea::Input => {
                        if self.on_path() && self.active_input_field < 2 {
                            self.active_input_field += 1;
                        }
                    },
                    FocusArea::Search => {},
                }
                Outcome::Pending
            },
            _ => Outcome::Pending,
        }
    }

    /// Returns the statement previewed for what the editor holds.
    pub fn preview(&self) -> (out: String)
        ensures
            out@ == self@.preview(),
    {
        let entry = if self.selected < self.filtered.len() {
            proof {
                assert(self@.filtered[self.selected as int] == self.filtered[self.selected as int]@);
            }
            entry_from_state(&self.filtered[self.selected], self)
        } else {
            let fallback = VarTypeOption {
                name: String::from_str("CFLAGS"),
                kind: VarKind::List,
                separator: String::from_str(" "),
                editor: EditorStyle::Single,
            };
            entry_from_state(&fallback, self)
        };
        generate_export_line(&entry, OperationMode::Prepend)
    }
}

/// The editor of the parts of one variable: the parts and a cursor.
#[derive(Debug)]
pub struct PartsListEditor {
    pub parts: Vec<Entry>,
    pub selected: usize,
}

/// Mathematical model of a [`PartsListEditor`].
pub ghost struct PartsListEditorView {
    pub parts: Seq<EntryView>,
    pub selected: usize,
}

impl View for PartsListEditor {
    type V = PartsListEditorView;

    open spec fn view(&self) -> PartsListEditorView {
        PartsListEditorView { parts: self.parts.deep_view(), selected: self.selected }
    }
}

/// What the caller has to do after a key of the editor of parts.
#[derive(Debug)]
pub enum PartsListStep {
    /// Nothing: go on with the next key.
    Pending,
    /// The user gave up.
    Cancelled,
    /// The user is done; the editor holds the parts.
    Finished,
    /// Ask for a new part and hand it to [`PartsListEditor::added`].
    AskNew,
    /// Ask for changes to the part at this place and hand the result to
    /// [`PartsListEditor::edited`].
    AskEdit(usize),
}

impl PartsListEditorView {
    /// The editor after a key.
    ///
    /// Up and Down move the cursor. `K` and `J` move the part under the
    /// cursor up and down, and the cursor with it. `d` deletes that part; a
    /// cursor left behind the end steps back.
    pub open spec fn after_key(self, key: Key) -> PartsListEditorView {
        let sel = self.selected as int;
        match key {
            Key::Up => PartsListEditorView {
                selected: if sel > 0 {
                    (sel - 1) as usize
                } else {
                    0
                },
                ..self
            },
            Key::Down => if sel + 1 < self.parts.len() {
                PartsListEditorView { selected: (sel + 1) as usize, ..self }
            } else {
                self
            },
            Key::Char(c) => if c == 'K' && 0 < sel < self.parts.len() {
                PartsListEditorView {
                    parts: self.parts.update(sel - 1, self.parts[sel]).update(
                        sel,
                        self.parts[sel - 1],
                    ),
                    selected: (sel - 1) as usize,
                }
            } else if c == 'J' && sel + 1 < self.parts.len() {
                PartsListEditorView {
                    parts: self.parts.update(sel, self.parts[sel + 1]).update(
                        sel + 1,
                        self.parts[sel],
                    ),
                    selected: (sel + 1) as usize,
                }
            } else if c == 'd' && sel < self.parts.len() {
                PartsListEditorView {
                    parts: self.parts.remove(sel),
                    selected: if sel >= self.parts.len() - 1 && sel > 0 {
                        (sel - 1) as usize
                    } else {
                        self.selected
                    },
                }
            } else {
                self
            },
            _ => self,
        }
    }

    /// What the caller has to do after a key.
    pub open spec fn step(self, key: Key) -> PartsListStep {
        match key {
            Key::Esc => PartsListStep::Cancelled,
            Key::Enter => PartsListStep::Finished,
            Key::Char(c) => if c == 'a' {
                PartsListStep::AskNew
            } else if c == 'e' && self.selected < self.parts.len() {
                PartsListStep::AskEdit(self.selected)
            } else {
                PartsListStep::Pending
            },
            _ => PartsListStep::Pending,
        }
    }
}

impl PartsListEditor {
    /// Opens the editor on a copy of `initial_parts`, the cursor on the
    /// first part.
    pub fn new(initial_parts: &[Entry]) -> (out: Self)
        ensures
            out@ == (PartsListEditorView { parts: initial_parts.deep_view(), selected: 0 }),
    {
        let mut parts: Vec<Entry> = Vec::new();
        let mut i: usize = 0;
        while i < initial_parts.len()
            invariant
                i <= initial_parts.len(),
                parts.len() == i,
                forall|j: int| 0 <= j < i ==> parts[j]@ == initial_parts[j]@,
            decreases initial_parts.len() - i,
        {
            parts.push(initial_parts[i].clone());
            i += 1;
        }
        proof {
            assert(parts.deep_view() =~= initial_parts.deep_view());
        }
        PartsListEditor { parts, selected: 0 }
    }

    /// Handles a key.
    pub fn key(&mut self, key: Key) -> (out: PartsListStep)
        ensures
            final(self)@ == old(self)@.after_key(key),
            out == old(self)@.step(key),
    {
        let ghost before = self.parts.deep_view();
        match key {
            Key::Esc => PartsListStep::Cancelled,
            Key::Enter => PartsListStep::Finished,
            Key::Up => {
                if self.selected > 0 {
                    self.selected -= 1;
                }
                PartsListStep::Pending
            },
            Key::Down => {
                if self.parts.len() > 0 && self.selected < self.parts.len() - 1 {
                    self.selected += 1;
                }
                PartsListStep::Pending
            },
            Key::Char(c) => {
                if c == 'K' {
                    if self.selected > 0 && self.selected < self.parts.len() {
                        let upper = self.parts[self.selected - 1].clone();
                        let lower = self.parts[self.selected].clone();
                        self.parts.set(self.selected - 1, lower);
                        self.parts.set(self.selected, upper);
                        proof {
                            let sel = self.selected as int;
                            assert(before[sel] == lower@);
                            assert(before[sel - 1] == upper@);
                            assert(self.parts.deep_view() =~= before.update(
                                sel - 1,
                                before[sel],
                            ).update(sel, before[sel - 1]));
                        }
                        self.selected -= 1;
                    }
                    PartsListStep::Pending
                } else if c == 'J' {
                    if self.parts.len() > 0 && self.selected < self.parts.len() - 1 {
                        let upper = self.parts[self.selected].clone();
                        let lower = self.parts[self.selected + 1].clone();
                        self.parts.set(self.selected, lower);
                        self.parts.set(self.selected + 1, upper);
                        proof {
                            let sel = self.selected as int;
                            assert(before[sel] == upper@);
                            assert(before[sel + 1] == lower@);
                            assert(self.parts.deep_view() =~= before.update(
                                sel,
                                before[sel + 1],
                            ).update(sel + 1, before[sel]));
                        }
                        self.selected += 1;
                    }
                    PartsListStep::Pending
                } else if c == 'd' {
                    if self.selected < self.parts.len() {
                        self.parts.remove(self.selected);
                        proof {
                            assert(self.parts.deep_view() =~= before.remove(self.selected as int));
                        }
                        if self.selected >= self.parts.len() && self.selected > 0 {
                            self.selected -= 1;
                        }
                    }
                    PartsListStep::Pending
                } else if c == 'a' {
                    PartsListStep::AskNew
                } else if c == 'e' && self.selected < self.parts.len() {
                    PartsListStep::AskEdit(self.selected)
                } else {
                    PartsListStep::Pending
                }
            },
            _ => PartsListStep::Pending,
        }
    }

    /// Takes the answer to [`PartsListStep::AskNew`]: a part goes to the
    /// end and the cursor onto it.
    pub fn added(&mut self, entry: Option<Entry>)
        requires
            old(self).parts.len() < usize::MAX,
        ensures
            final(self)@ == match entry {
                Some(e) => PartsListEditorView {
                    parts: old(self)@.parts.push(e@),
                    selected: old(self).parts.len(),
                },
                None => old(self)@,
            },
    {
        if let Some(new_entry) = entry {
            let ghost before = self.parts.deep_view();
            self.parts.push(new_entry);
            proof {
                assert(self.parts.deep_view() =~= before.push(new_entry@));
            }
            self.selected = self.parts.len() - 1;
        }
    }

    /// Takes the answer to [`PartsListStep::AskEdit`]: a part takes the
    /// place of the part at `index`.
    pub fn edited(&mut self, index: usize, entry: Option<Entry>)
        requires
            index < old(self).parts.len(),
        ensures
            final(self)@ == match entry {
                Some(e) => PartsListEditorView {
                    parts: old(self)@.parts.update(index as int, e@),
                    selected: old(self).selected,
                },
                None => old(self)@,
            },
    {
        if let Some(new_entry) = entry {
            let ghost before = self.parts.deep_view();
            self.parts.set(index, new_entry);
            proof {
                assert(self.parts.deep_view() =~= before.update(index as int, new_entry@));
            }
        }
    }
}

impl EnvVarEditorStateView {
    /// The line of one of the three fields of a path: an arrow before the
    /// field that takes the keys, the title of the field and its value.
    pub open spec fn path_field_line(self, field: int) -> Seq<char> {
        (if self.focus == FocusArea::Input && self.active_input_field == field {
            "> "@
        } else {
            "  "@
        }) + (if field == 0 {
            "Path: "@ + self.path
        } else if field == 1 {
            "Version: "@ + self.version
        } else {
            "Tool Name: "@ + self.tool
        })
    }

    /// The title of the input of a variable edited as a single field.
    pub open spec fn input_title(self) -> Seq<char> {
        "Enter value for "@ + (if self.selected < self.filtered.len() {
            self.filtered[self.selected as int].name
        } else {
            "..."@
        })
    }
}

impl EnvVarEditorState {
    /// Returns the line of one of the three fields of a path; the fields
    /// are counted from zero.
    pub fn path_field_line(&self, field: usize) -> (out: String)
        ensures
            out@ == self@.path_field_line(field as int),
    {
        let active = match self.focus {
            FocusArea::Input => self.active_input_field == field,
            _ => false,
        };
        let mut out = if active {
            String::from_str("> ")
        } else {
            String::from_str("  ")
        };
        if field == 0 {
            out.append("Path: ");
            out.append(self.path.as_str());
        } else if field == 1 {
            out.append("Version: ");
            out.append(self.version.as_str());
        } else {
            out.append("Tool Name: ");
            out.append(self.tool.as_str());
        }
        proof {
            assert(out@ =~= self@.path_field_line(field as int));
        }
        out
    }

    /// Returns the title of the input of a variable edited as a single
    /// field.
    pub fn input_title(&self) -> (out: String)
        ensures
            out@ == self@.input_title(),
    {
        let mut out = String::from_str("Enter value for ");
        if self.selected < self.filtered.len() {
            proof {
                assert(self@.filtered[self.selected as int] == self.filtered[self.selected as int]@);
            }
            out.append(self.filtered[self.selected].name.as_str());
        } else {
            out.append("...");
        }
        out
    }
}

/// Returns the title of the editor of the parts of `var`.
pub fn parts_list_title(var: &VarTypeOption) -> (out: String)
    ensures
        out@ == var@.name + " parts (a:add, e:edit, d:delete, J/K:move, Enter:save, Esc:cancel)"@,
{
    let mut out = var.name.clone();
    out.append(" parts (a:add, e:edit, d:delete, J/K:move, Enter:save, Esc:cancel)");
    out
}

/// Returns the hint of the editor of the parts of `var`.
pub fn parts_list_hint(var: &VarTypeOption) -> (out: String)
    ensures
        out@ == "Export preview uses separator '"@ + var@.separator
            + "' and produces one export line."@,
{
    let mut out = String::from_str("Export preview uses separator '");
    out.append(var.separator.as_str());
    out.append("' and produces one export line.");
    out
}

} // verus!

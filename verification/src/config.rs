//! The entry model: one stored part of one variable, and the profile that
//! holds an ordered list of such parts.

use std::borrow::Cow;
use vstd::prelude::*;

verus! {

/// One directory contributed to `PATH`, with the program and version it
/// belongs to. Only `path` is exported; the other two fields describe it.
#[derive(Debug)]
pub struct PathEntry {
    pub path: String,
    pub program: String,
    pub version: String,
}

/// Mathematical model of a [`PathEntry`].
pub ghost struct PathEntryView {
    pub path: Seq<char>,
    pub program: Seq<char>,
    pub version: Seq<char>,
}

impl View for PathEntry {
    type V = PathEntryView;

    open spec fn view(&self) -> PathEntryView {
        PathEntryView { path: self.path@, program: self.program@, version: self.version@ }
    }
}

impl DeepView for PathEntry {
    type V = PathEntryView;

    open spec fn deep_view(&self) -> PathEntryView {
        self@
    }
}

impl Clone for PathEntry {
    fn clone(&self) -> (out: Self)
        ensures
            out == *self,
    {
        PathEntry {
            path: self.path.clone(),
            program: self.program.clone(),
            version: self.version.clone(),
        }
    }
}

/// Whether a variable holds one value or a separated list of parts.
#[derive(Debug, Clone, Copy, PartialEq, Eq, Structural)]
pub enum VarKind {
    Scalar,
    List,
}

/// A user-defined variable.
#[derive(Debug)]
pub struct CustomVarDef {
    pub name: String,
    pub kind: VarKind,
    /// Separator between parts when `kind` is `List`.
    /// For `Scalar`, this is ignored and may be empty.
    pub separator: String,
}

/// Mathematical model of a [`CustomVarDef`].
pub ghost struct CustomVarDefView {
    pub name: Seq<char>,
    pub kind: VarKind,
    pub separator: Seq<char>,
}

impl View for CustomVarDef {
    type V = CustomVarDefView;

    open spec fn view(&self) -> CustomVarDefView {
        CustomVarDefView { name: self.name@, kind: self.kind, separator: self.separator@ }
    }
}

impl DeepView for CustomVarDef {
    type V = CustomVarDefView;

    open spec fn deep_view(&self) -> CustomVarDefView {
        self@
    }
}

impl Clone for CustomVarDef {
    fn clone(&self) -> (out: Self)
        ensures
            out == *self,
    {
        CustomVarDef {
            name: self.name.clone(),
            kind: self.kind,
            separator: self.separator.clone(),
        }
    }
}

/// Whether a catalog item is plain text or a directory of a program.
#[derive(Debug, Clone, Copy, PartialEq, Eq, Structural)]
pub enum ItemKind {
    Text,
    Path,
}

/// A reusable value kept in the catalog, from which parts are made.
#[derive(Debug)]
pub struct CatalogItem {
    /// The number the store gave the item; `None` until it is stored.
    pub id: Option<i64>,
    pub kind: ItemKind,
    pub value: String,
    pub program: Option<String>,
    pub version: Option<String>,
    pub tags: Vec<String>,
}

/// Mathematical model of a [`CatalogItem`].
pub ghost struct CatalogItemView {
    pub id: Option<i64>,
    pub kind: ItemKind,
    pub value: Seq<char>,
    pub program: Option<Seq<char>>,
    pub version: Option<Seq<char>>,
    pub tags: Seq<Seq<char>>,
}

impl View for CatalogItem {
    type V = CatalogItemView;

    open spec fn view(&self) -> CatalogItemView {
        CatalogItemView {
            id: self.id,
            kind: self.kind,
            value: self.value@,
            program: self.program.deep_view(),
            version: self.version.deep_view(),
            tags: self.tags.deep_view(),
        }
    }
}

impl DeepView for CatalogItem {
    type V = CatalogItemView;

    open spec fn deep_view(&self) -> CatalogItemView {
        self@
    }
}

/// Copies a list of strings.
pub fn clone_texts(texts: &Vec<String>) -> (out: Vec<String>)
    ensures
        out.deep_view() == texts.deep_view(),
{
    let mut out: Vec<String> = Vec::new();
    let mut i: usize = 0;
    while i < texts.len()
        invariant
            i <= texts.len(),
            out.len() == i,
            forall|j: int| 0 <= j < i ==> out[j]@ == texts[j]@,
        decreases texts.len() - i,
    {
        out.push(texts[i].clone());
        i += 1;
    }
    assert(out.deep_view() =~= texts.deep_view());
    out
}

/// Copies an optional string.
pub fn clone_optional_text(text: &Option<String>) -> (out: Option<String>)
    ensures
        out.deep_view() == text.deep_view(),
{
    match text {
        Some(s) => Some(s.clone()),
        None => None,
    }
}

impl Clone for CatalogItem {
    fn clone(&self) -> (out: Self)
        ensures
            out@ == self@,
    {
        CatalogItem {
            id: self.id,
            kind: self.kind,
            value: self.value.clone(),
            program: clone_optional_text(&self.program),
            version: clone_optional_text(&self.version),
            tags: clone_texts(&self.tags),
        }
    }
}

/// One part contributed to one variable.
#[allow(clippy::upper_case_acronyms)]
#[derive(Debug)]
pub enum Entry {
    // Paths & programs
    Path(PathEntry),
    CPath(String),

    // Include paths
    CInclude(String),
    CPlusInclude(String),
    OBJCInclude(String),

    // Compiler flags
    CPPFlag(String),
    CFlag(String),
    CXXFlag(String),

    // Linker flags
    LDFlag(String),

    // Library paths
    LibraryPath(String),
    LDLibraryPath(String),
    LDRunPath(String),

    // Toolchain settings
    RanLib(String),
    CC(String),
    CXX(String),
    AR(String),
    Strip(String),
    GCCExecPrefix(String),
    CollectGCCOptions(String),
    Lang(String),

    // Custom variables
    //
    // - CustomScalar is a single value (no separator semantics)
    // - CustomPart is one part of a list-like variable; it carries the
    //   separator its parts are joined with
    CustomScalar { name: String, value: String },
    CustomPart { name: String, value: String, separator: String },
}

/// Mathematical model of an [`Entry`]: the same variants over sequences of
/// characters.
#[allow(clippy::upper_case_acronyms)]
pub ghost enum EntryView {
    Path(PathEntryView),
    CPath(Seq<char>),
    CInclude(Seq<char>),
    CPlusInclude(Seq<char>),
    OBJCInclude(Seq<char>),
    CPPFlag(Seq<char>),
    CFlag(Seq<char>),
    CXXFlag(Seq<char>),
    LDFlag(Seq<char>),
    LibraryPath(Seq<char>),
    LDLibraryPath(Seq<char>),
    LDRunPath(Seq<char>),
    RanLib(Seq<char>),
    CC(Seq<char>),
    CXX(Seq<char>),
    AR(Seq<char>),
    Strip(Seq<char>),
    GCCExecPrefix(Seq<char>),
    CollectGCCOptions(Seq<char>),
    Lang(Seq<char>),
    CustomScalar { name: Seq<char>, value: Seq<char> },
    CustomPart { name: Seq<char>, value: Seq<char>, separator: Seq<char> },
}

impl EntryView {
    /// Name of the environment variable the part belongs to.
    pub open spec fn var_name(self) -> Seq<char> {
        match self {
            EntryView::Path(_) => "PATH"@,
            EntryView::CPath(_) => "CPATH"@,
            EntryView::CInclude(_) => "C_INCLUDE_PATH"@,
            EntryView::CPlusInclude(_) => "CPLUS_INCLUDE_PATH"@,
            EntryView::OBJCInclude(_) => "OBJC_INCLUDE_PATH"@,
            EntryView::CPPFlag(_) => "CPPFLAGS"@,
            EntryView::CFlag(_) => "CFLAGS"@,
            EntryView::CXXFlag(_) => "CXXFLAGS"@,
            EntryView::LDFlag(_) => "LDFLAGS"@,
            EntryView::LibraryPath(_) => "LIBRARY_PATH"@,
            EntryView::LDLibraryPath(_) => "LD_LIBRARY_PATH"@,
            EntryView::LDRunPath(_) => "LD_RUN_PATH"@,
            EntryView::RanLib(_) => "RANLIB"@,
            EntryView::CC(_) => "CC"@,
            EntryView::CXX(_) => "CXX"@,
            EntryView::AR(_) => "AR"@,
            EntryView::Strip(_) => "STRIP"@,
            EntryView::GCCExecPrefix(_) => "GCC_EXEC_PREFIX"@,
            EntryView::CollectGCCOptions(_) => "COLLECT_GCC_OPTIONS"@,
            EntryView::Lang(_) => "LANG"@,
            EntryView::CustomScalar { name, .. } => name,
            EntryView::CustomPart { name, .. } => name,
        }
    }

    /// Text that joins this part to its neighbours: a colon for the
    /// path-like built-ins, what the part carries for a custom list part,
    /// and a space for everything else.
    pub open spec fn separator(self) -> Seq<char> {
        match self {
            EntryView::Path(_)
            | EntryView::CPath(_)
            | EntryView::CInclude(_)
            | EntryView::CPlusInclude(_)
            | EntryView::OBJCInclude(_)
            | EntryView::LibraryPath(_)
            | EntryView::LDLibraryPath(_)
            | EntryView::LDRunPath(_) => ":"@,
            EntryView::CustomPart { separator, .. } => separator,
            _ => " "@,
        }
    }

    /// The text the part contributes to its variable. For a `PATH` part this
    /// is the directory; program and version are not exported.
    pub open spec fn value(self) -> Seq<char> {
        match self {
            EntryView::Path(p) => p.path,
            EntryView::CPath(s) => s,
            EntryView::CInclude(s) => s,
            EntryView::CPlusInclude(s) => s,
            EntryView::OBJCInclude(s) => s,
            EntryView::CPPFlag(s) => s,
            EntryView::CFlag(s) => s,
            EntryView::CXXFlag(s) => s,
            EntryView::LDFlag(s) => s,
            EntryView::LibraryPath(s) => s,
            EntryView::LDLibraryPath(s) => s,
            EntryView::LDRunPath(s) => s,
            EntryView::RanLib(s) => s,
            EntryView::CC(s) => s,
            EntryView::CXX(s) => s,
            EntryView::AR(s) => s,
            EntryView::Strip(s) => s,
            EntryView::GCCExecPrefix(s) => s,
            EntryView::CollectGCCOptions(s) => s,
            EntryView::Lang(s) => s,
            EntryView::CustomScalar { value, .. } => value,
            EntryView::CustomPart { value, .. } => value,
        }
    }

    /// The line shown for the part in lists and diagnostics:
    /// `NAME: value`, and for a `PATH` part `PATH: path (program version)`.
    pub open spec fn text(self) -> Seq<char> {
        match self {
            EntryView::Path(p) => "PATH: "@ + p.path + " ("@ + p.program + " "@ + p.version
                + ")"@,
            _ => self.var_name() + ": "@ + self.value(),
        }
    }
}

impl View for Entry {
    type V = EntryView;

    open spec fn view(&self) -> EntryView {
        match self {
            Entry::Path(p) => EntryView::Path(p@),
            Entry::CPath(s) => EntryView::CPath(s@),
            Entry::CInclude(s) => EntryView::CInclude(s@),
            Entry::CPlusInclude(s) => EntryView::CPlusInclude(s@),
            Entry::OBJCInclude(s) => EntryView::OBJCInclude(s@),
            Entry::CPPFlag(s) => EntryView::CPPFlag(s@),
            Entry::CFlag(s) => EntryView::CFlag(s@),
            Entry::CXXFlag(s) => EntryView::CXXFlag(s@),
            Entry::LDFlag(s) => EntryView::LDFlag(s@),
            Entry::LibraryPath(s) => EntryView::LibraryPath(s@),
            Entry::LDLibraryPath(s) => EntryView::LDLibraryPath(s@),
            Entry::LDRunPath(s) => EntryView::LDRunPath(s@),
            Entry::RanLib(s) => EntryView::RanLib(s@),
            Entry::CC(s) => EntryView::CC(s@),
            Entry::CXX(s) => EntryView::CXX(s@),
            Entry::AR(s) => EntryView::AR(s@),
            Entry::Strip(s) => EntryView::Strip(s@),
            Entry::GCCExecPrefix(s) => EntryView::GCCExecPrefix(s@),
            Entry::CollectGCCOptions(s) => EntryView::CollectGCCOptions(s@),
            Entry::Lang(s) => EntryView::Lang(s@),
            Entry::CustomScalar { name, value } => EntryView::CustomScalar {
                name: name@,
                value: value@,
            },
            Entry::CustomPart { name, value, separator } => EntryView::CustomPart {
                name: name@,
                value: value@,
                separator: separator@,
            },
        }
    }
}

impl DeepView for Entry {
    type V = EntryView;

    open spec fn deep_view(&self) -> EntryView {
        self@
    }
}

impl Clone for Entry {
    fn clone(&self) -> (out: Self)
        ensures
            out == *self,
    {
        match self {
            Entry::Path(p) => Entry::Path(p.clone()),
            Entry::CPath(s) => Entry::CPath(s.clone()),
            Entry::CInclude(s) => Entry::CInclude(s.clone()),
            Entry::CPlusInclude(s) => Entry::CPlusInclude(s.clone()),
            Entry::OBJCInclude(s) => Entry::OBJCInclude(s.clone()),
            Entry::CPPFlag(s) => Entry::CPPFlag(s.clone()),
            Entry::CFlag(s) => Entry::CFlag(s.clone()),
            Entry::CXXFlag(s) => Entry::CXXFlag(s.clone()),
            Entry::LDFlag(s) => Entry::LDFlag(s.clone()),
            Entry::LibraryPath(s) => Entry::LibraryPath(s.clone()),
            Entry::LDLibraryPath(s) => Entry::LDLibraryPath(s.clone()),
            Entry::LDRunPath(s) => Entry::LDRunPath(s.clone()),
            Entry::RanLib(s) => Entry::RanLib(s.clone()),
            Entry::CC(s) => Entry::CC(s.clone()),
            Entry::CXX(s) => Entry::CXX(s.clone()),
            Entry::AR(s) => Entry::AR(s.clone()),
            Entry::Strip(s) => Entry::Strip(s.clone()),
            Entry::GCCExecPrefix(s) => Entry::GCCExecPrefix(s.clone()),
            Entry::CollectGCCOptions(s) => Entry::CollectGCCOptions(s.clone()),
            Entry::Lang(s) => Entry::Lang(s.clone()),
            Entry::CustomScalar { name, value } => Entry::CustomScalar {
                name: name.clone(),
                value: value.clone(),
            },
            Entry::CustomPart { name, value, separator } => Entry::CustomPart {
                name: name.clone(),
                value: value.clone(),
                separator: separator.clone(),
            },
        }
    }
}

impl Entry {
    /// Returns the corresponding environment variable name.
    pub fn var_name(&self) -> (out: Cow<'static, str>)
        ensures
            out@ == self@.var_name(),
    {
        match self {
            Entry::Path(_) => Cow::Borrowed("PATH"),
            Entry::CPath(_) => Cow::Borrowed("CPATH"),
            Entry::CInclude(_) => Cow::Borrowed("C_INCLUDE_PATH"),
            Entry::CPlusInclude(_) => Cow::Borrowed("CPLUS_INCLUDE_PATH"),
            Entry::OBJCInclude(_) => Cow::Borrowed("OBJC_INCLUDE_PATH"),
            Entry::CPPFlag(_) => Cow::Borrowed("CPPFLAGS"),
            Entry::CFlag(_) => Cow::Borrowed("CFLAGS"),
            Entry::CXXFlag(_) => Cow::Borrowed("CXXFLAGS"),
            Entry::LDFlag(_) => Cow::Borrowed("LDFLAGS"),
            Entry::LibraryPath(_) => Cow::Borrowed("LIBRARY_PATH"),
            Entry::LDLibraryPath(_) => Cow::Borrowed("LD_LIBRARY_PATH"),
            Entry::LDRunPath(_) => Cow::Borrowed("LD_RUN_PATH"),
            Entry::RanLib(_) => Cow::Borrowed("RANLIB"),
            Entry::CC(_) => Cow::Borrowed("CC"),
            Entry::CXX(_) => Cow::Borrowed("CXX"),
            Entry::AR(_) => Cow::Borrowed("AR"),
            Entry::Strip(_) => Cow::Borrowed("STRIP"),
            Entry::GCCExecPrefix(_) => Cow::Borrowed("GCC_EXEC_PREFIX"),
            Entry::CollectGCCOptions(_) => Cow::Borrowed("COLLECT_GCC_OPTIONS"),
            Entry::Lang(_) => Cow::Borrowed("LANG"),
            Entry::CustomScalar { name, .. } => Cow::Owned(name.clone()),
            Entry::CustomPart { name, .. } => Cow::Owned(name.clone()),
        }
    }

    /// Returns the separator used when joining multiple entries.
    pub fn separator(&self) -> (out: Cow<'static, str>)
        ensures
            out@ == self@.separator(),
    {
        match self {
            // PATH and library paths are colon separated.
            Entry::Path(_)
            | Entry::CPath(_)
            | Entry::CInclude(_)
            | Entry::CPlusInclude(_)
            | Entry::OBJCInclude(_)
            | Entry::LibraryPath(_)
            | Entry::LDLibraryPath(_)
            | Entry::LDRunPath(_) => Cow::Borrowed(":"),
            Entry::CustomPart { separator, .. } => Cow::Owned(separator.clone()),
            // Other flags are space separated.
            _ => Cow::Borrowed(" "),
        }
    }

    /// Returns the text the part contributes to its variable.
    pub fn display_value(&self) -> (out: String)
        ensures
            out@ == self@.value(),
    {
        match self {
            Entry::Path(pe) => pe.path.clone(),
            Entry::CPath(s) => s.clone(),
            Entry::CInclude(s) => s.clone(),
            Entry::CPlusInclude(s) => s.clone(),
            Entry::OBJCInclude(s) => s.clone(),
            Entry::CPPFlag(s) => s.clone(),
            Entry::CFlag(s) => s.clone(),
            Entry::CXXFlag(s) => s.clone(),
            Entry::LDFlag(s) => s.clone(),
            Entry::LibraryPath(s) => s.clone(),
            Entry::LDLibraryPath(s) => s.clone(),
            Entry::LDRunPath(s) => s.clone(),
            Entry::RanLib(s) => s.clone(),
            Entry::CC(s) => s.clone(),
            Entry::CXX(s) => s.clone(),
            Entry::AR(s) => s.clone(),
            Entry::Strip(s) => s.clone(),
            Entry::GCCExecPrefix(s) => s.clone(),
            Entry::CollectGCCOptions(s) => s.clone(),
            Entry::Lang(s) => s.clone(),
            Entry::CustomScalar { value, .. } => value.clone(),
            Entry::CustomPart { value, .. } => value.clone(),
        }
    }

    /// Returns the line shown for the part in lists and diagnostics.
    pub fn to_text(&self) -> (out: String)
        ensures
            out@ == self@.text(),
    {
        match self {
            Entry::Path(pe) => {
                let mut out = String::from_str("PATH: ");
                out.append(pe.path.as_str());
                out.append(" (");
                out.append(pe.program.as_str());
                out.append(" ");
                out.append(pe.version.as_str());
                out.append(")");
                out
            },
            _ => {
                let name = self.var_name();
                let mut out = cow_into_string(name);
                out.append(": ");
                let value = self.display_value();
                out.append(value.as_str());
                out
            },
        }
    }
}

/// Borrows the text of a borrowed-or-owned string.
pub fn cow_str<'a>(text: &'a Cow<'static, str>) -> (out: &'a str)
    ensures
        out@ == text@,
{
    match text {
        Cow::Borrowed(s) => s,
        Cow::Owned(s) => s.as_str(),
    }
}

/// Turns a borrowed-or-owned string into an owned one with the same text.
pub fn cow_into_string(text: Cow<'static, str>) -> (out: String)
    ensures
        out@ == text@,
{
    match text {
        Cow::Borrowed(s) => String::from_str(s),
        Cow::Owned(s) => s,
    }
}

/// An environment profile holds a name and a list of entries.
///
/// The order of the entries is the order in which parts are shown and the
/// order in which the parts of one variable are joined. Several entries may
/// name the same variable.
#[derive(Debug)]
pub struct EnvProfile {
    pub name: String,
    pub entries: Vec<Entry>,
}

/// Mathematical model of an [`EnvProfile`].
pub ghost struct EnvProfileView {
    pub name: Seq<char>,
    pub entries: Seq<EntryView>,
}

impl View for EnvProfile {
    type V = EnvProfileView;

    open spec fn view(&self) -> EnvProfileView {
        EnvProfileView { name: self.name@, entries: self.entries.deep_view() }
    }
}

impl DeepView for EnvProfile {
    type V = EnvProfileView;

    open spec fn deep_view(&self) -> EnvProfileView {
        self@
    }
}

impl Clone for EnvProfile {
    fn clone(&self) -> (out: Self)
        ensures
            out.name == self.name,
            out.entries@ == self.entries@,
    {
        let entries = self.entries.clone();
        proof {
            assert forall|i: int| 0 <= i < entries.len() implies entries[i]
                == self.entries[i] by {
                assert(cloned::<Entry>(self.entries[i], entries[i]));
            }
            assert(entries@ =~= self.entries@);
        }
        EnvProfile { name: self.name.clone(), entries }
    }
}

impl EnvProfile {
    /// An empty profile called `name`.
    pub fn new(name: &str) -> (out: Self)
        ensures
            out@.name == name@,
            out@.entries == Seq::<EntryView>::empty(),
    {
        let out = Self { name: String::from_str(name), entries: Vec::new() };
        assert(out.entries.deep_view() =~= Seq::<EntryView>::empty());
        out
    }
}

} // verus!

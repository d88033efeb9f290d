//! The forms that ask for a custom variable and for a catalog item.

use crate::config::{
    CatalogItem, CatalogItemView, CustomVarDef, CustomVarDefView, ItemKind, VarKind,
};
use crate::profile_editor::Outcome;
use crate::text::{
    join, join_spec, pop_char, push_char, split, split_spec, trim, trim_all_nonempty, trim_spec,
    trimmed_nonempty, without_last,
};
use crate::tui::input::Key;
use vstd::prelude::*;

verus! {

/// The field of the form for a custom variable that takes the keys.
#[derive(Debug, Clone, Copy, PartialEq, Eq, Structural)]
pub enum VarDefField {
    Name,
    Kind,
    Separator,
}

/// The form for a custom variable.
#[derive(Debug)]
pub struct VarDefForm {
    pub name: String,
    pub kind: VarKind,
    pub separator: String,
    pub field: VarDefField,
}

/// Mathematical model of a [`VarDefForm`].
pub ghost struct VarDefFormView {
    pub name: Seq<char>,
    pub kind: VarKind,
    pub separator: Seq<char>,
    pub field: VarDefField,
}

impl View for VarDefForm {
    type V = VarDefFormView;

    open spec fn view(&self) -> VarDefFormView {
        VarDefFormView {
            name: self.name@,
            kind: self.kind,
            separator: self.separator@,
            field: self.field,
        }
    }
}

impl VarDefFormView {
    /// The form after a key.
    ///
    /// Tab goes to the next field. `t`, in either letter case, switches
    /// between scalar and list, whichever field takes the keys; a list
    /// without separator gets the colon. Backspace and the other characters
    /// edit the name or, for a list, the separator.
    pub open spec fn after_key(self, key: Key) -> VarDefFormView {
        match key {
            Key::Tab => VarDefFormView {
                field: match self.field {
                    VarDefField::Name => VarDefField::Kind,
                    VarDefField::Kind => VarDefField::Separator,
                    VarDefField::Separator => VarDefField::Name,
                },
                ..self
            },
            Key::Char(c) => if c == 't' || c == 'T' {
                match self.kind {
                    VarKind::Scalar => VarDefFormView {
                        kind: VarKind::List,
                        separator: if self.separator.len() == 0 {
                            ":"@
                        } else {
                            self.separator
                        },
                        ..self
                    },
                    VarKind::List => VarDefFormView { kind: VarKind::Scalar, ..self },
                }
            } else {
                match self.field {
                    VarDefField::Name => VarDefFormView { name: self.name.push(c), ..self },
                    VarDefField::Kind => self,
                    VarDefField::Separator => if self.kind == VarKind::List {
                        VarDefFormView { separator: self.separator.push(c), ..self }
                    } else {
                        self
                    },
                }
            },
            Key::Backspace => match self.field {
                VarDefField::Name => VarDefFormView { name: without_last(self.name), ..self },
                VarDefField::Kind => self,
                VarDefField::Separator => if self.kind == VarKind::List {
                    VarDefFormView { separator: without_last(self.separator), ..self }
                } else {
                    self
                },
            },
            _ => self,
        }
    }

    /// The definition that the form stands for: the name without
    /// surrounding white space, and the separator for a list only. A form
    /// without a name stands for none.
    pub open spec fn definition(self) -> Option<CustomVarDefView> {
        if trim_spec(self.name).len() == 0 {
            None
        } else {
            Some(
                CustomVarDefView {
                    name: trim_spec(self.name),
                    kind: self.kind,
                    separator: if self.kind == VarKind::List {
                        self.separator
                    } else {
                        Seq::empty()
                    },
                },
            )
        }
    }
}

impl VarDefForm {
    /// The form as it opens: no name, a list joined by a colon, the keys go
    /// to the name.
    pub fn new() -> (out: Self)
        ensures
            out@ == (VarDefFormView {
                name: Seq::empty(),
                kind: VarKind::List,
                separator: ":"@,
                field: VarDefField::Name,
            }),
    {
        VarDefForm {
            name: String::new(),
            kind: VarKind::List,
            separator: String::from_str(":"),
            field: VarDefField::Name,
        }
    }

    /// Handles a key. Esc gives up. Enter answers with the definition that
    /// the form stands for, and gives up when it stands for none. Every
    /// other key edits the form.
    pub fn key(&mut self, key: Key) -> (out: Outcome<CustomVarDef>)
        ensures
            match key {
                Key::Esc => out is Cancelled && final(self)@ == old(self)@,
                Key::Enter => final(self)@ == old(self)@ && match old(self)@.definition() {
                    Some(def) => out matches Outcome::Finished(answer) && answer@ == def,
                    None => out is Cancelled,
                },
                _ => out is Pending && final(self)@ == old(self)@.after_key(key),
            },
    {
        match key {
            Key::Esc => Outcome::Cancelled,
            Key::Enter => {
                let trimmed = trim(self.name.as_str());
                if trimmed.as_str().unicode_len() == 0 {
                    return Outcome::Cancelled;
                }
                Outcome::Finished(
                    CustomVarDef {
                        name: trimmed,
                        kind: self.kind,
                        separator: match self.kind {
                            VarKind::List => self.separator.clone(),
                            VarKind::Scalar => String::new(),
                        },
                    },
                )
            },
            Key::Tab => {
                self.field = match self.field {
                    VarDefField::Name => VarDefField::Kind,
                    VarDefField::Kind => VarDefField::Separator,
                    VarDefField::Separator => VarDefField::Name,
                };
                Outcome::Pending
            },
            Key::Char(c) => {
                if c == 't' || c == 'T' {
                    match self.kind {
                        VarKind::Scalar => {
                            self.kind = VarKind::List;
                            if self.separator.as_str().unicode_len() == 0 {
                                self.separator = String::from_str(":");
                            }
                        },
                        VarKind::List => {
                            self.kind = VarKind::Scalar;
                        },
                    }
                } else {
                    match self.field {
                        VarDefField::Name => push_char(&mut self.name, c),
                        VarDefField::Kind => {},
                        VarDefField::Separator => match self.kind {
                            VarKind::List => push_char(&mut self.separator, c),
                            VarKind::Scalar => {},
                        },
                    }
                }
                Outcome::Pending
            },
            Key::Backspace => {
                match self.field {
                    VarDefField::Name => {
                        pop_char(&mut self.name);
                    },
                    VarDefField::Kind => {},
                    VarDefField::Separator => match self.kind {
                        VarKind::List => {
                            pop_char(&mut self.separator);
                        },
                        VarKind::Scalar => {},
                    },
                }
                Outcome::Pending
            },
            _ => Outcome::Pending,
        }
    }
}

/// The field of the form for a catalog item that takes the keys.
#[derive(Debug, Clone, Copy, PartialEq, Eq, Structural)]
pub enum ItemField {
    Kind,
    Value,
    Program,
    Version,
    Tags,
}

/// The form for a catalog item.
#[derive(Debug)]
pub struct ItemForm {
    /// The number of the item that is edited; none for a new item.
    pub id: Option<i64>,
    pub kind: ItemKind,
    pub value: String,
    pub program: String,
    pub version: String,
    /// The tags, written with commas between them.
    pub tags: String,
    pub field: ItemField,
}

/// Mathematical model of an [`ItemForm`].
pub ghost struct ItemFormView {
    pub id: Option<i64>,
    pub kind: ItemKind,
    pub value: Seq<char>,
    pub program: Seq<char>,
    pub version: Seq<char>,
    pub tags: Seq<char>,
    pub field: ItemField,
}

impl View for ItemForm {
    type V = ItemFormView;

    open spec fn view(&self) -> ItemFormView {
        ItemFormView {
            id: self.id,
            kind: self.kind,
            value: self.value@,
            program: self.program@,
            version: self.version@,
            tags: self.tags@,
            field: self.field,
        }
    }
}

/// The text of an optional text; nothing for none.
pub open spec fn text_or_empty(text: Option<Seq<char>>) -> Seq<char> {
    match text {
        Some(s) => s,
        None => Seq::empty(),
    }
}

/// A text without surrounding white space, if anything is left of it and
/// `wanted` holds.
pub open spec fn trimmed_if(wanted: bool, text: Seq<char>) -> Option<Seq<char>> {
    if wanted && trim_spec(text).len() > 0 {
        Some(trim_spec(text))
    } else {
        None
    }
}

impl ItemFormView {
    /// The form as it opens, empty or on the item `initial`. The keys go to
    /// the value.
    pub open spec fn opened(initial: Option<CatalogItemView>) -> ItemFormView {
        match initial {
            Some(item) => ItemFormView {
                id: item.id,
                kind: item.kind,
                value: item.value,
                program: text_or_empty(item.program),
                version: text_or_empty(item.version),
                tags: join_spec(item.tags, ","@),
                field: ItemField::Value,
            },
            None => ItemFormView {
                id: None,
                kind: ItemKind::Text,
                value: Seq::empty(),
                program: Seq::empty(),
                version: Seq::empty(),
                tags: Seq::empty(),
                field: ItemField::Value,
            },
        }
    }

    /// The field that Tab goes to. A text item has no program and no
    /// version, so Tab goes past those fields.
    pub open spec fn next_field(self) -> ItemField {
        let next = match self.field {
            ItemField::Kind => ItemField::Value,
            ItemField::Value => ItemField::Program,
            ItemField::Program => ItemField::Version,
            ItemField::Version => ItemField::Tags,
            ItemField::Tags => ItemField::Kind,
        };
        if self.kind == ItemKind::Text && (next == ItemField::Program || next
            == ItemField::Version) {
            ItemField::Tags
        } else {
            next
        }
    }

    /// The form after a key.
    ///
    /// Tab goes to the next field. `t`, in either letter case, switches
    /// between text and path, whichever field takes the keys; a text item
    /// loses program and version. Backspace and the other characters edit
    /// the field that takes the keys; program and version take them for a
    /// path item only.
    pub open spec fn after_key(self, key: Key) -> ItemFormView {
        match key {
            Key::Tab => ItemFormView { field: self.next_field(), ..self },
            Key::Char(c) => if c == 't' || c == 'T' {
                match self.kind {
                    ItemKind::Text => ItemFormView { kind: ItemKind::Path, ..self },
                    ItemKind::Path => ItemFormView {
                        kind: ItemKind::Text,
                        program: Seq::empty(),
                        version: Seq::empty(),
                        field: if self.field == ItemField::Program || self.field
                            == ItemField::Version {
                            ItemField::Tags
                        } else {
                            self.field
                        },
                        ..self
                    },
                }
            } else {
                match self.field {
                    ItemField::Kind => self,
                    ItemField::Value => ItemFormView { value: self.value.push(c), ..self },
                    ItemField::Program => if self.kind == ItemKind::Path {
                        ItemFormView { program: self.program.push(c), ..self }
                    } else {
                        self
                    },
                    ItemField::Version => if self.kind == ItemKind::Path {
                        ItemFormView { version: self.version.push(c), ..self }
                    } else {
                        self
                    },
                    ItemField::Tags => ItemFormView { tags: self.tags.push(c), ..self },
                }
            },
            Key::Backspace => match self.field {
                ItemField::Kind => self,
                ItemField::Value => ItemFormView { value: without_last(self.value), ..self },
                ItemField::Program => if self.kind == ItemKind::Path {
                    ItemFormView { program: without_last(self.program), ..self }
                } else {
                    self
                },
                ItemField::Version => if self.kind == ItemKind::Path {
                    ItemFormView { version: without_last(self.version), ..self }
                } else {
                    self
                },
                ItemField::Tags => ItemFormView { tags: without_last(self.tags), ..self },
            },
            _ => self,
        }
    }

    /// The item that the form stands for: value, program and version
    /// without surrounding white space, program and version for a path item
    /// only and only if not empty, and the tags that stand between the
    /// commas, each without surrounding white space, empty ones left out. A
    /// form without a value stands for no item.
    pub open spec fn item(self) -> Option<CatalogItemView> {
        if trim_spec(self.value).len() == 0 {
            None
        } else {
            Some(
                CatalogItemView {
                    id: self.id,
                    kind: self.kind,
                    value: trim_spec(self.value),
                    program: trimmed_if(self.kind == ItemKind::Path, self.program),
                    version: trimmed_if(self.kind == ItemKind::Path, self.version),
                    tags: trimmed_nonempty(split_spec(self.tags, ',')),
                },
            )
        }
    }
}

/// Returns the text of an optional text; nothing for none.
fn text_or_new(text: &Option<String>) -> (out: String)
    ensures
        out@ == text_or_empty(text.deep_view()),
{
    match text {
        Some(s) => s.clone(),
        None => String::new(),
    }
}

/// Trims a text and returns it if anything is left and `wanted` holds.
fn trimmed_when(wanted: bool, text: &str) -> (out: Option<String>)
    ensures
        out.deep_view() == trimmed_if(wanted, text@),
{
    if !wanted {
        return None;
    }
    let t = trim(text);
    if t.as_str().unicode_len() > 0 {
        Some(t)
    } else {
        None
    }
}

impl ItemForm {
    /// Opens the form, empty or on the item `initial`.
    pub fn new(initial: Option<&CatalogItem>) -> (out: Self)
        ensures
            out@ == ItemFormView::opened(
                match initial {
                    Some(item) => Some(item@),
                    None => None,
                },
            ),
    {
        match initial {
            Some(item) => ItemForm {
                id: item.id,
                kind: item.kind,
                value: item.value.clone(),
                program: text_or_new(&item.program),
                version: text_or_new(&item.version),
                tags: join(&item.tags, ","),
                field: ItemField::Value,
            },
            None => ItemForm {
                id: None,
                kind: ItemKind::Text,
                value: String::new(),
                program: String::new(),
                version: String::new(),
                tags: String::new(),
                field: ItemField::Value,
            },
        }
    }

    /// Handles a key. Esc gives up. Enter answers with the item that the
    /// form stands for, and gives up when it stands for none. Every other
    /// key edits the form.
    pub fn key(&mut self, key: Key) -> (out: Outcome<CatalogItem>)
        ensures
            match key {
                Key::Esc => out is Cancelled && final(self)@ == old(self)@,
                Key::Enter => final(self)@ == old(self)@ && match old(self)@.item() {
                    Some(item) => out matches Outcome::Finished(answer) && answer@ == item,
                    None => out is Cancelled,
                },
                _ => out is Pending && final(self)@ == old(self)@.after_key(key),
            },
    {
        match key {
            Key::Esc => Outcome::Cancelled,
            Key::Enter => {
                let trimmed = trim(self.value.as_str());
                if trimmed.as_str().unicode_len() == 0 {
                    return Outcome::Cancelled;
                }
                let is_path = match self.kind {
                    ItemKind::Path => true,
                    ItemKind::Text => false,
                };
                let pieces = split(self.tags.as_str(), ',');
                Outcome::Finished(
                    CatalogItem {
                        id: self.id,
                        kind: self.kind,
                        value: trimmed,
                        program: trimmed_when(is_path, self.program.as_str()),
                        version: trimmed_when(is_path, self.version.as_str()),
                        tags: trim_all_nonempty(&pieces),
                    },
                )
            },
            Key::Tab => {
                let next = match self.field {
                    ItemField::Kind => ItemField::Value,
                    ItemField::Value => ItemField::Program,
                    ItemField::Program => ItemField::Version,
                    ItemField::Version => ItemField::Tags,
                    ItemField::Tags => ItemField::Kind,
                };
                self.field = match (self.kind, next) {
                    (ItemKind::Text, ItemField::Program) => ItemField::Tags,
                    (ItemKind::Text, ItemField::Version) => ItemField::Tags,
                    _ => next,
                };
                Outcome::Pending
            },
            Key::Char(c) => {
                if c == 't' || c == 'T' {
                    match self.kind {
                        ItemKind::Text => {
                            self.kind = ItemKind::Path;
                        },
                        ItemKind::Path => {
                            self.kind = ItemKind::Text;
                            self.program = String::new();
                            self.version = String::new();
                            match self.field {
                                ItemField::Program | ItemField::Version => {
                                    self.field = ItemField::Tags;
                                },
                                _ => {},
                            }
                        },
                    }
                } else {
                    match (self.field, self.kind) {
                        (ItemField::Kind, _) => {},
                        (ItemField::Value, _) => push_char(&mut self.value, c),
                        (ItemField::Program, ItemKind::Path) => push_char(&mut self.program, c),
                        (ItemField::Version, ItemKind::Path) => push_char(&mut self.version, c),
                        (ItemField::Tags, _) => push_char(&mut self.tags, c),
                        _ => {},
                    }
                }
                Outcome::Pending
            },
            Key::Backspace => {
                match (self.field, self.kind) {
                    (ItemField::Kind, _) => {},
                    (ItemField::Value, _) => {
                        pop_char(&mut self.value);
                    },
                    (ItemField::Program, ItemKind::Path) => {
                        pop_char(&mut self.program);
                    },
                    (ItemField::Version, ItemKind::Path) => {
                        pop_char(&mut self.version);
                    },
                    (ItemField::Tags, _) => {
                        pop_char(&mut self.tags);
                    },
                    _ => {},
                }
                Outcome::Pending
            },
            _ => Outcome::Pending,
        }
    }
}

/// The mark before a field of a form: an arrow before the field that takes
/// the keys.
pub open spec fn field_mark(active: bool) -> Seq<char> {
    if active {
        "> "@
    } else {
        "  "@
    }
}

/// Returns the mark before a field of a form.
pub fn mark(active: bool) -> (out: &'static str)
    ensures
        out@ == field_mark(active),
{
    if active {
        "> "
    } else {
        "  "
    }
}

impl VarDefFormView {
    /// The text that shows the form: one line per field, the separator of a
    /// scalar shown as not applicable, and a note.
    pub open spec fn text(self) -> Seq<char> {
        field_mark(self.field == VarDefField::Name) + "Name: "@ + self.name + "\n"@ + field_mark(
            self.field == VarDefField::Kind,
        ) + "Kind: "@ + (match self.kind {
            VarKind::Scalar => "Scalar"@,
            VarKind::List => "List"@,
        }) + "\n"@ + field_mark(self.field == VarDefField::Separator) + "Separator: "@ + (
        if self.kind == VarKind::List {
            self.separator
        } else {
            "(n/a)"@
        }) + "\n\nNote: list vars are edited as parts; export joins parts using Separator."@
    }
}

impl VarDefForm {
    /// Returns the text that shows the form.
    pub fn text(&self) -> (out: String)
        ensures
            out@ == self@.text(),
    {
        let on_name = match self.field {
            VarDefField::Name => true,
            _ => false,
        };
        let on_kind = match self.field {
            VarDefField::Kind => true,
            _ => false,
        };
        let on_separator = match self.field {
            VarDefField::Separator => true,
            _ => false,
        };
        let mut out = String::from_str(mark(on_name));
        out.append("Name: ");
        out.append(self.name.as_str());
        out.append("\n");
        out.append(mark(on_kind));
        out.append("Kind: ");
        out.append(
            match self.kind {
                VarKind::Scalar => "Scalar",
                VarKind::List => "List",
            },
        );
        out.append("\n");
        out.append(mark(on_separator));
        out.append("Separator: ");
        match self.kind {
            VarKind::List => out.append(self.separator.as_str()),
            VarKind::Scalar => out.append("(n/a)"),
        }
        out.append("\n\nNote: list vars are edited as parts; export joins parts using Separator.");
        proof {
            assert(out@ =~= self@.text());
        }
        out
    }
}

impl ItemFormView {
    /// The text that shows the form: one line per field, program and
    /// version of a text item shown as not applicable, and a tip.
    pub open spec fn text(self) -> Seq<char> {
        field_mark(self.field == ItemField::Kind) + "Kind: "@ + (match self.kind {
            ItemKind::Text => "Text"@,
            ItemKind::Path => "Path"@,
        }) + "\n"@ + field_mark(self.field == ItemField::Value) + "Value: "@ + self.value + "\n"@
            + field_mark(self.field == ItemField::Program) + "Program: "@ + (if self.kind
            == ItemKind::Path {
            self.program
        } else {
            "(n/a)"@
        }) + "\n"@ + field_mark(self.field == ItemField::Version) + "Version: "@ + (if self.kind
            == ItemKind::Path {
            self.version
        } else {
            "(n/a)"@
        }) + "\n"@ + field_mark(self.field == ItemField::Tags) + "Tags: "@ + self.tags
            + "\n\nTip: Use Tags to filter; drop items only works for list-like vars."@
    }
}

impl ItemForm {
    /// Returns the text that shows the form.
    pub fn text(&self) -> (out: String)
        ensures
            out@ == self@.text(),
    {
        let is_path = match self.kind {
            ItemKind::Path => true,
            ItemKind::Text => false,
        };
        let mut out = String::from_str(
            mark(
                match self.field {
                    ItemField::Kind => true,
                    _ => false,
                },
            ),
        );
        out.append("Kind: ");
        out.append(
            match self.kind {
                ItemKind::Text => "Text",
                ItemKind::Path => "Path",
            },
        );
        out.append("\n");
        out.append(
            mark(
                match self.field {
                    ItemField::Value => true,
                    _ => false,
                },
            ),
        );
        out.append("Value: ");
        out.append(self.value.as_str());
        out.append("\n");
        out.append(
            mark(
                match self.field {
                    ItemField::Program => true,
                    _ => false,
                },
            ),
        );
        out.append("Program: ");
        if is_path {
            out.append(self.program.as_str());
        } else {
            out.append("(n/a)");
        }
        out.append("\n");
        out.append(
            mark(
                match self.field {
                    ItemField::Version => true,
                    _ => false,
                },
            ),
        );
        out.append("Version: ");
        if is_path {
            out.append(self.version.as_str());
        } else {
            out.append("(n/a)");
        }
        out.append("\n");
        out.append(
            mark(
                match self.field {
                    ItemField::Tags => true,
                    _ => false,
                },
            ),
        );
        out.append("Tags: ");
        out.append(self.tags.as_str());
        out.append("\n\nTip: Use Tags to filter; drop items only works for list-like vars.");
        proof {
            assert(out@ =~= self@.text());
        }
        out
    }
}

} // verus!

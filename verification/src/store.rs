//! The rows that the store keeps: how items and custom variables are written
//! into the columns of their tables and read back.
//!
//! The store itself is not here. These functions turn the library's values
//! into the plain columns that a caller writes, and the columns that a
//! caller has read into the library's values.

use crate::config::{
    clone_optional_text, CatalogItem, CatalogItemView, CustomVarDef, CustomVarDefView, ItemKind,
    VarKind,
};
use crate::text::str_eq;
use crate::tui::state::StoreError;
use vstd::prelude::*;

verus! {

/// The error type of the JSON library.
#[verifier::external_type_specification]
#[verifier::external_body]
pub struct ExJsonError(serde_json::Error);

/// What the JSON library writes for a list of strings; `None` for a list it does not write.
pub uninterp spec fn tags_json(tags: Seq<Seq<char>>) -> Option<Seq<char>>;

/// The list of strings that the JSON library reads from a text; `None` for
/// a text that it does not accept as a list of strings.
pub uninterp spec fn tags_of_json(text: Seq<char>) -> Option<Seq<Seq<char>>>;

/// Writes a list of strings as JSON.
///
/// Trusted: wraps `serde_json::to_string` on a `Vec<String>`. Whether the list
/// is written, and the text that comes back if it is, depend on the list alone.
#[verifier::external_body]
fn json_of_tags(tags: &Vec<String>) -> (out: Result<String, serde_json::Error>)
    ensures
        out matches Ok(text) ==> tags_json(tags.deep_view()) == Some(text@),
        out is Err ==> tags_json(tags.deep_view()) is None,
{
    serde_json::to_string(tags)
}

/// Reads a list of strings from JSON.
///
/// Trusted: wraps `serde_json::from_str` for a `Vec<String>`. Whether the
/// text is accepted, and the list that comes back if it is, depend on the
/// text alone.
#[verifier::external_body]
fn tags_from_json(text: &str) -> (out: Result<Vec<String>, serde_json::Error>)
    ensures
        match out {
            Ok(tags) => tags_of_json(text@) == Some(tags.deep_view()),
            Err(_) => tags_of_json(text@) is None,
        },
{
    serde_json::from_str::<Vec<String>>(text)
}

/// Why a value could not be turned into a row.
#[derive(Debug, Clone, Copy, PartialEq, Eq, Structural)]
pub enum RowError {
    /// The tags of an item could not be written as JSON.
    TagsNotEncoded,
}

/// The word that stands for the kind of an item in the store.
pub open spec fn item_kind_word(kind: ItemKind) -> Seq<char> {
    match kind {
        ItemKind::Text => "text"@,
        ItemKind::Path => "path"@,
    }
}

/// The kind of item that a word of the store stands for. A word that is
/// neither `text` nor `path` counts as text.
pub open spec fn item_kind_of_word(word: Seq<char>) -> ItemKind {
    if word == "path"@ {
        ItemKind::Path
    } else {
        ItemKind::Text
    }
}

/// The word that stands for the kind of a variable in the store.
pub open spec fn var_kind_word(kind: VarKind) -> Seq<char> {
    match kind {
        VarKind::Scalar => "scalar"@,
        VarKind::List => "list"@,
    }
}

/// The kind of variable that a word of the store stands for. A word that is
/// neither `scalar` nor `list` counts as scalar.
pub open spec fn var_kind_of_word(word: Seq<char>) -> VarKind {
    if word == "list"@ {
        VarKind::List
    } else {
        VarKind::Scalar
    }
}

/// Returns the word that stands for the kind of an item in the store.
pub fn item_kind_token(kind: ItemKind) -> (out: &'static str)
    ensures
        out@ == item_kind_word(kind),
{
    match kind {
        ItemKind::Text => "text",
        ItemKind::Path => "path",
    }
}

/// Reads the kind of an item from its word in the store.
pub fn item_kind_from_token(word: &str) -> (out: ItemKind)
    ensures
        out == item_kind_of_word(word@),
{
    if str_eq(word, "path") {
        ItemKind::Path
    } else {
        ItemKind::Text
    }
}

/// Returns the word that stands for the kind of a variable in the store.
pub fn var_kind_token(kind: VarKind) -> (out: &'static str)
    ensures
        out@ == var_kind_word(kind),
{
    match kind {
        VarKind::Scalar => "scalar",
        VarKind::List => "list",
    }
}

/// Reads the kind of a variable from its word in the store.
pub fn var_kind_from_token(word: &str) -> (out: VarKind)
    ensures
        out == var_kind_of_word(word@),
{
    if str_eq(word, "list") {
        VarKind::List
    } else {
        VarKind::Scalar
    }
}

/// Reading the word of a kind gives the kind back.
pub proof fn lemma_kind_words_round_trip(item: ItemKind, var: VarKind)
    ensures
        item_kind_of_word(item_kind_word(item)) == item,
        var_kind_of_word(var_kind_word(var)) == var,
{
    reveal_strlit("text");
    reveal_strlit("path");
    reveal_strlit("scalar");
    reveal_strlit("list");
    assert("text"@ != "path"@) by {
        assert("text"@[0] != "path"@[0]);
    }
    assert("scalar"@ != "list"@) by {
        assert("scalar"@[0] != "list"@[0]);
    }
}

/// The columns of an item in the store.
#[derive(Debug)]
pub struct ItemRow {
    /// The number of the row; none for an item that is not stored yet.
    pub id: Option<i64>,
    pub kind: String,
    pub value: String,
    pub program: Option<String>,
    pub version: Option<String>,
    /// The tags, as JSON.
    pub tags: String,
}

/// Mathematical model of an [`ItemRow`].
pub ghost struct ItemRowView {
    pub id: Option<i64>,
    pub kind: Seq<char>,
    pub value: Seq<char>,
    pub program: Option<Seq<char>>,
    pub version: Option<Seq<char>>,
    pub tags: Seq<char>,
}

impl View for ItemRow {
    type V = ItemRowView;

    open spec fn view(&self) -> ItemRowView {
        ItemRowView {
            id: self.id,
            kind: self.kind@,
            value: self.value@,
            program: self.program.deep_view(),
            version: self.version.deep_view(),
            tags: self.tags@,
        }
    }
}

/// The row of an item whose tags are written as `tags`.
pub open spec fn row_of_item(item: CatalogItemView, tags: Seq<char>) -> ItemRowView {
    ItemRowView {
        id: item.id,
        kind: item_kind_word(item.kind),
        value: item.value,
        program: item.program,
        version: item.version,
        tags,
    }
}

/// The item of a row whose tags have been read as `tags`; tags that could
/// not be read count as no tags.
pub open spec fn item_of_row(row: ItemRowView, tags: Option<Seq<Seq<char>>>) -> CatalogItemView {
    CatalogItemView {
        id: row.id,
        kind: item_kind_of_word(row.kind),
        value: row.value,
        program: row.program,
        version: row.version,
        tags: match tags {
            Some(tags) => tags,
            None => Seq::empty(),
        },
    }
}

/// Builds the row of an item from the item and the JSON text of its tags.
pub fn item_row_with_tags(item: &CatalogItem, tags: String) -> (out: ItemRow)
    ensures
        out@ == row_of_item(item@, tags@),
{
    ItemRow {
        id: item.id,
        kind: String::from_str(item_kind_token(item.kind)),
        value: item.value.clone(),
        program: clone_optional_text(&item.program),
        version: clone_optional_text(&item.version),
        tags,
    }
}

/// Builds the row of an item. The tags are written as JSON; when that
/// fails, so does the call.
pub fn item_row(item: &CatalogItem) -> (out: Result<ItemRow, RowError>)
    ensures
        match tags_json(item@.tags) {
            Some(tags) => out matches Ok(row) && row@ == row_of_item(item@, tags),
            None => out matches Err(e) && e == RowError::TagsNotEncoded,
        },
{
    match json_of_tags(&item.tags) {
        Ok(tags) => Ok(item_row_with_tags(item, tags)),
        Err(_) => Err(RowError::TagsNotEncoded),
    }
}

/// Builds the item of a row from the row and what was read from its tags.
pub fn item_from_row_with_tags(row: &ItemRow, tags: Option<Vec<String>>) -> (out: CatalogItem)
    ensures
        out@ == item_of_row(row@, tags.deep_view()),
{
    let tags = match tags {
        Some(tags) => tags,
        None => {
            let none: Vec<String> = Vec::new();
            proof {
                assert(none.deep_view() =~= Seq::<Seq<char>>::empty());
            }
            none
        },
    };
    CatalogItem {
        id: row.id,
        kind: item_kind_from_token(row.kind.as_str()),
        value: row.value.clone(),
        program: clone_optional_text(&row.program),
        version: clone_optional_text(&row.version),
        tags,
    }
}

/// Builds the item of a row. Tags that are no JSON list of strings count as
/// no tags.
pub fn item_from_row(row: &ItemRow) -> (out: CatalogItem)
    ensures
        out@ == item_of_row(row@, tags_of_json(row@.tags)),
{
    let tags = match tags_from_json(row.tags.as_str()) {
        Ok(tags) => Some(tags),
        Err(_) => None,
    };
    item_from_row_with_tags(row, tags)
}

/// Builds the custom variable of a row with the columns `name`, `kind` and
/// `separator`.
pub fn custom_var_def_from_row(name: String, kind: &str, separator: String) -> (out: CustomVarDef)
    ensures
        out@ == (CustomVarDefView {
            name: name@,
            kind: var_kind_of_word(kind@),
            separator: separator@,
        }),
{
    CustomVarDef { name, kind: var_kind_from_token(kind), separator }
}

/// Judges a rename in the store by the number of rows it changed: a rename
/// that changed no row found no profile of the old name.
pub fn rename_result(updated: usize) -> (out: Result<(), StoreError>)
    ensures
        updated == 0 ==> out == Err::<(), StoreError>(StoreError::ProfileNotFound),
        updated > 0 ==> out == Ok::<(), StoreError>(()),
{
    if updated == 0 {
        Err(StoreError::ProfileNotFound)
    } else {
        Ok(())
    }
}

} // verus!

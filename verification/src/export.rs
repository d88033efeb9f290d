//! The export engine: quoting, aggregation of parts by variable, and the
//! rendering of one `export` statement per variable.

use crate::config::{cow_into_string, cow_str, Entry, EntryView, EnvProfile};
use crate::text::{join, join_spec, push_char, str_eq};
use crate::tui::input::Key;
use vstd::prelude::*;

verus! {

/// How a profile's value combines with what the shell variable already holds.
#[derive(Clone, Copy, Debug, PartialEq, Eq, Structural)]
pub enum OperationMode {
    /// New value first, then the existing value if there is one.
    Prepend,
    /// Existing value first if there is one, then the new value.
    Append,
    /// The existing value is discarded.
    Replace,
}

impl OperationMode {
    /// The mode a token stands for.
    pub open spec fn of_token(token: Seq<char>) -> OperationMode {
        if token == "append"@ {
            OperationMode::Append
        } else if token == "replace"@ {
            OperationMode::Replace
        } else {
            OperationMode::Prepend
        }
    }

    /// Reads a mode token: `prepend`, `append` or `replace`. Any other token
    /// falls back to `Prepend`.
    pub fn from_token(token: &str) -> (out: OperationMode)
        ensures
            out == Self::of_token(token@),
    {
        if str_eq(token, "append") {
            OperationMode::Append
        } else if str_eq(token, "replace") {
            OperationMode::Replace
        } else {
            OperationMode::Prepend
        }
    }
}

/// What one character of a raw value becomes inside a double-quoted shell
/// string: a backslash and a double quote get a backslash in front, every
/// other character stands for itself. `$` and the backtick are deliberately
/// left alone, so that references such as `$HOME` still expand when the
/// statement is evaluated.
pub open spec fn escape_char(c: char) -> Seq<char> {
    if c == '\\' {
        seq!['\\', '\\']
    } else if c == '"' {
        seq!['\\', '"']
    } else {
        seq![c]
    }
}

/// The escaped form of a raw value: the escaped forms of its characters, in
/// order.
pub open spec fn quote_spec(s: Seq<char>) -> Seq<char>
    decreases s.len(),
{
    if s.len() == 0 {
        Seq::empty()
    } else {
        quote_spec(s.drop_last()) + escape_char(s.last())
    }
}

/// The statement that assigns `value` to the variable `name` under `mode`.
///
/// The value is escaped; the separator inside the `${NAME:+...}` expansion is
/// written raw, since that tail is shell syntax and not user data. The
/// expansion yields nothing while the variable is unset or empty, so no
/// separator is left dangling.
pub open spec fn render_spec(
    name: Seq<char>,
    value: Seq<char>,
    sep: Seq<char>,
    mode: OperationMode,
) -> Seq<char> {
    match mode {
        OperationMode::Prepend => "export "@ + name + "=\""@ + quote_spec(value) + "${"@ + name
            + ":+"@ + sep + "${"@ + name + "}}"@ + "\";"@,
        OperationMode::Append => "export "@ + name + "=\""@ + "${"@ + name + ":+${"@ + name
            + "}"@ + sep + "}"@ + quote_spec(value) + "\";"@,
        OperationMode::Replace => "export "@ + name + "=\""@ + quote_spec(value) + "\";"@,
    }
}

/// Escaping works piece by piece: the escaped form of two texts written one
/// after the other is their escaped forms written one after the other.
pub proof fn lemma_quote_concat(a: Seq<char>, b: Seq<char>)
    ensures
        quote_spec(a + b) == quote_spec(a) + quote_spec(b),
    decreases b.len(),
{
    if b.len() == 0 {
        assert(a + b =~= a);
        assert(quote_spec(a) + quote_spec(b) =~= quote_spec(a));
    } else {
        lemma_quote_concat(a, b.drop_last());
        assert((a + b).drop_last() =~= a + b.drop_last());
        assert((a + b).last() == b.last());
        assert(quote_spec(a + b) =~= quote_spec(a) + quote_spec(b));
    }
}

/// Whether a text holds neither a double quote nor a backslash.
pub open spec fn is_plain(s: Seq<char>) -> bool {
    forall|i: int| 0 <= i < s.len() ==> s[i] != '"' && s[i] != '\\'
}

/// A text without double quotes and backslashes is its own escaped form.
pub proof fn lemma_quote_plain(s: Seq<char>)
    requires
        is_plain(s),
    ensures
        quote_spec(s) == s,
    decreases s.len(),
{
    if s.len() > 0 {
        lemma_quote_plain(s.drop_last());
        assert(quote_spec(s) =~= s);
    }
}

/// Escaping leaves every stretch without double quotes and backslashes as it
/// is, wherever it stands in the value. In particular `$VAR` and `${VAR}`
/// come out character for character, since `$`, `{` and `}` are never
/// escaped.
pub proof fn lemma_quote_keeps_plain_stretch(
    before: Seq<char>,
    stretch: Seq<char>,
    after: Seq<char>,
)
    requires
        is_plain(stretch),
    ensures
        quote_spec(before + stretch + after) == quote_spec(before) + stretch + quote_spec(after),
{
    lemma_quote_concat(before + stretch, after);
    lemma_quote_concat(before, stretch);
    lemma_quote_plain(stretch);
}

/// What a POSIX shell reads from the text between two double quotes, as far
/// as the text holds no expansion.
///
/// Inside double quotes a backslash quotes the character after it when that
/// character is a backslash, a double quote, `$` or a backtick, vanishes
/// together with a newline after it, and stands for itself before anything
/// else. A bare double quote would end the string, and a backslash at the
/// very end would quote the closing quote: neither is the inside of a
/// double-quoted string, and the result is `None`. A bare `$` or backtick
/// starts an expansion, whose value depends on the shell's state: the model
/// does not follow it and gives `None` as well.
pub open spec fn shell_read(s: Seq<char>) -> Option<Seq<char>>
    decreases s.len(),
{
    if s.len() == 0 {
        Some(Seq::empty())
    } else if s[0] == '"' || s[0] == '$' || s[0] == '`' {
        None
    } else if s[0] == '\\' {
        if s.len() == 1 {
            None
        } else if s[1] == '\\' || s[1] == '"' || s[1] == '$' || s[1] == '`' {
            match shell_read(s.skip(2)) {
                Some(rest) => Some(seq![s[1]] + rest),
                None => None,
            }
        } else if s[1] == '\n' {
            shell_read(s.skip(2))
        } else {
            match shell_read(s.skip(1)) {
                Some(rest) => Some(seq![s[0]] + rest),
                None => None,
            }
        }
    } else {
        match shell_read(s.skip(1)) {
            Some(rest) => Some(seq![s[0]] + rest),
            None => None,
        }
    }
}

/// Whether a text holds neither `$` nor a backtick.
pub open spec fn is_free_of_expansions(s: Seq<char>) -> bool {
    forall|i: int| 0 <= i < s.len() ==> s[i] != '$' && s[i] != '`'
}

/// A shell that evaluates the escaped form of a value between double quotes
/// reads the value back exactly, whatever double quotes and backslashes the
/// value holds.
///
/// The law is stated for values without `$` and backtick: those are left
/// unescaped on purpose, so that the shell expands them.
pub proof fn lemma_quote_round_trip(v: Seq<char>)
    requires
        is_free_of_expansions(v),
    ensures
        shell_read(quote_spec(v)) == Some(v),
    decreases v.len(),
{
    if v.len() == 0 {
    } else {
        let c = v[0];
        let rest = v.skip(1);
        assert(v =~= seq![c] + rest);
        lemma_quote_concat(seq![c], rest);
        assert(quote_spec(seq![c]) =~= escape_char(c)) by {
            assert(seq![c].drop_last() =~= Seq::<char>::empty());
            assert(quote_spec(Seq::<char>::empty()) =~= Seq::<char>::empty());
        }
        let q = quote_spec(v);
        assert(q == escape_char(c) + quote_spec(rest));
        lemma_quote_round_trip(rest);
        if c == '\\' || c == '"' {
            assert(q[0] == '\\');
            assert(q[1] == c);
            assert(q.skip(2) =~= quote_spec(rest));
        } else {
            assert(q[0] == c);
            assert(q.skip(1) =~= quote_spec(rest));
        }
    }
}

/// Every statement ends with `;`, whatever the variable, the value, the
/// separator and the mode.
pub proof fn lemma_statement_ends_with_semicolon(
    name: Seq<char>,
    value: Seq<char>,
    sep: Seq<char>,
    mode: OperationMode,
)
    ensures
        render_spec(name, value, sep, mode).len() > 0,
        render_spec(name, value, sep, mode).last() == ';',
{
    reveal_strlit("\";");
}

/// Escapes a raw value for use inside a double-quoted shell string.
///
/// The value is escaped exactly once: applying the function to its own
/// result escapes the backslashes it added.
pub fn shell_double_quote_literal(s: &str) -> (out: String)
    ensures
        out@ == quote_spec(s@),
{
    let mut out = String::new();
    let mut chars = s.chars();
    for ch in it: chars
        invariant
            it.seq() == s@,
            out@ == quote_spec(s@.take(it.index() as int)),
    {
        proof {
            let next = s@.take(it.index() + 1);
            assert(next.drop_last() =~= s@.take(it.index() as int));
            assert(next.last() == ch);
        }
        if ch == '\\' {
            push_char(&mut out, '\\');
            push_char(&mut out, '\\');
        } else if ch == '"' {
            push_char(&mut out, '\\');
            push_char(&mut out, '"');
        } else {
            push_char(&mut out, ch);
        }
        proof {
            assert(out@ =~= quote_spec(s@.take(it.index() as int)) + escape_char(ch));
        }
    }
    proof {
        assert(s@.take(s@.len() as int) =~= s@);
    }
    out
}

/// Renders the statement that assigns `value` to `var_name` under `mode`.
///
/// Every statement ends with `;`, so that several statements stay valid when
/// a caller collapses the newlines between them.
pub fn export_assignment(var_name: &str, value: &str, sep: &str, mode: OperationMode) -> (out:
    String)
    ensures
        out@ == render_spec(var_name@, value@, sep@, mode),
        out@.len() > 0,
        out@.last() == ';',
{
    let escaped_value = shell_double_quote_literal(value);
    let mut out = String::from_str("export ");
    out.append(var_name);
    out.append("=\"");
    match mode {
        OperationMode::Prepend => {
            // VAR="<new>${VAR:+<sep>${VAR}}"
            out.append(escaped_value.as_str());
            out.append("${");
            out.append(var_name);
            out.append(":+");
            out.append(sep);
            out.append("${");
            out.append(var_name);
            out.append("}}");
        },
        OperationMode::Append => {
            // VAR="${VAR:+${VAR}<sep>}<new>"
            out.append("${");
            out.append(var_name);
            out.append(":+${");
            out.append(var_name);
            out.append("}");
            out.append(sep);
            out.append("}");
            out.append(escaped_value.as_str());
        },
        OperationMode::Replace => {
            out.append(escaped_value.as_str());
        },
    }
    out.append("\";");
    proof {
        reveal_strlit("\";");
        assert(out@ =~= render_spec(var_name@, value@, sep@, mode));
    }
    out
}

/// Returns the text an entry contributes to its variable.
pub fn entry_value(entry: &Entry) -> (out: String)
    ensures
        out@ == entry@.value(),
{
    entry.display_value()
}

/// Generates the export statement for a single entry, taken as the whole new
/// value of its variable.
pub fn generate_export_line(entry: &Entry, mode: OperationMode) -> (out: String)
    ensures
        out@ == render_spec(entry@.var_name(), entry@.value(), entry@.separator(), mode),
        out@.len() > 0,
        out@.last() == ';',
{
    let var_name = entry.var_name();
    let value = entry_value(entry);
    let sep = entry.separator();
    export_assignment(cow_str(&var_name), value.as_str(), cow_str(&sep), mode)
}

/// One variable of a profile after aggregation: its name, the separator its
/// parts are joined with, and the joined value.
#[derive(Debug)]
pub struct Aggregate {
    pub name: String,
    pub separator: String,
    pub value: String,
}

/// Mathematical model of an [`Aggregate`].
pub ghost struct AggregateView {
    pub name: Seq<char>,
    pub separator: Seq<char>,
    pub value: Seq<char>,
}

impl View for Aggregate {
    type V = AggregateView;

    open spec fn view(&self) -> AggregateView {
        AggregateView { name: self.name@, separator: self.separator@, value: self.value@ }
    }
}

impl DeepView for Aggregate {
    type V = AggregateView;

    open spec fn deep_view(&self) -> AggregateView {
        self@
    }
}

/// Whether some entry of `entries` belongs to the variable `name`.
pub open spec fn mentions(entries: Seq<EntryView>, name: Seq<char>) -> bool {
    exists|i: int| 0 <= i < entries.len() && #[trigger] entries[i].var_name() == name
}

/// The distinct variable names of `entries`, each at the place where it is
/// first seen.
pub open spec fn first_seen(entries: Seq<EntryView>) -> Seq<Seq<char>>
    decreases entries.len(),
{
    if entries.len() == 0 {
        Seq::empty()
    } else {
        let before = first_seen(entries.drop_last());
        let name = entries.last().var_name();
        if before.contains(name) {
            before
        } else {
            before.push(name)
        }
    }
}

/// The values of the entries that belong to `name`, in the order of
/// `entries`.
pub open spec fn parts_of(entries: Seq<EntryView>, name: Seq<char>) -> Seq<Seq<char>>
    decreases entries.len(),
{
    if entries.len() == 0 {
        Seq::empty()
    } else {
        let before = parts_of(entries.drop_last(), name);
        if entries.last().var_name() == name {
            before.push(entries.last().value())
        } else {
            before
        }
    }
}

/// The separator of the first entry that belongs to `name`; empty when no
/// entry does.
pub open spec fn separator_of(entries: Seq<EntryView>, name: Seq<char>) -> Seq<char>
    decreases entries.len(),
{
    if entries.len() == 0 {
        Seq::empty()
    } else if entries.first().var_name() == name {
        entries.first().separator()
    } else {
        separator_of(entries.drop_first(), name)
    }
}

/// What aggregation makes of the variable `name`: all its parts joined with
/// the separator of its first part.
pub open spec fn aggregate_of(entries: Seq<EntryView>, name: Seq<char>) -> AggregateView {
    AggregateView {
        name,
        separator: separator_of(entries, name),
        value: join_spec(parts_of(entries, name), separator_of(entries, name)),
    }
}

/// One aggregate per distinct variable name, in first-seen order.
pub open spec fn aggregate_spec(entries: Seq<EntryView>) -> Seq<AggregateView> {
    Seq::new(first_seen(entries).len(), |k: int| aggregate_of(entries, first_seen(entries)[k]))
}

/// One statement per aggregate, in the same order.
pub open spec fn statements_spec(entries: Seq<EntryView>, mode: OperationMode) -> Seq<Seq<char>> {
    Seq::new(
        aggregate_spec(entries).len(),
        |k: int|
            render_spec(
                aggregate_spec(entries)[k].name,
                aggregate_spec(entries)[k].value,
                aggregate_spec(entries)[k].separator,
                mode,
            ),
    )
}

/// A name is among the first-seen names exactly when some entry belongs to it.
pub proof fn lemma_first_seen_mentions(entries: Seq<EntryView>, name: Seq<char>)
    ensures
        first_seen(entries).contains(name) <==> mentions(entries, name),
    decreases entries.len(),
{
    if entries.len() > 0 {
        let rest = entries.drop_last();
        lemma_first_seen_mentions(rest, name);
        let before = first_seen(rest);
        let last_name = entries.last().var_name();
        let after = first_seen(entries);
        assert(after.contains(name) <==> before.contains(name) || last_name == name) by {
            if before.contains(last_name) {
                assert(after == before);
            } else {
                assert(after == before.push(last_name));
                if before.contains(name) {
                    let j = choose|j: int| 0 <= j < before.len() && before[j] == name;
                    assert(after[j] == name);
                }
                if last_name == name {
                    assert(after[before.len() as int] == name);
                }
            }
        }
        assert(mentions(entries, name) <==> mentions(rest, name) || last_name == name) by {
            if mentions(entries, name) {
                let i = choose|i: int|
                    0 <= i < entries.len() && #[trigger] entries[i].var_name() == name;
                if i < entries.len() - 1 {
                    assert(rest[i].var_name() == name);
                }
            }
            if mentions(rest, name) {
                let i = choose|i: int| 0 <= i < rest.len() && #[trigger] rest[i].var_name() == name;
                assert(entries[i].var_name() == name);
            }
            if last_name == name {
                assert(entries[entries.len() - 1].var_name() == name);
            }
        }
    }
}

/// A variable that no entry belongs to gets no aggregate, and so no
/// statement: it is absent, not assigned the empty text.
pub proof fn lemma_unmentioned_variable_is_absent(entries: Seq<EntryView>, name: Seq<char>)
    requires
        !mentions(entries, name),
    ensures
        aggregate_spec(entries).len() == first_seen(entries).len(),
        statements_spec(entries, OperationMode::Prepend).len() == first_seen(entries).len(),
        forall|k: int|
            0 <= k < aggregate_spec(entries).len() ==> (#[trigger] aggregate_spec(entries)[k]).name
                != name,
{
    lemma_first_seen_mentions(entries, name);
    assert forall|k: int| 0 <= k < aggregate_spec(entries).len() implies (#[trigger] aggregate_spec(
        entries,
    )[k]).name != name by {
        assert(aggregate_spec(entries)[k].name == first_seen(entries)[k]);
        assert(first_seen(entries).contains(first_seen(entries)[k]));
    }
}

/// Every variable that some entry belongs to gets exactly one aggregate, and
/// so exactly one statement.
pub proof fn lemma_mentioned_variable_has_one_aggregate(entries: Seq<EntryView>, name: Seq<char>)
    requires
        mentions(entries, name),
    ensures
        exists|k: int|
            0 <= k < aggregate_spec(entries).len() && (#[trigger] aggregate_spec(entries)[k]).name
                == name,
        forall|j: int, k: int|
            0 <= j < aggregate_spec(entries).len() && 0 <= k < aggregate_spec(entries).len()
                && (#[trigger] aggregate_spec(entries)[j]).name == name
                && (#[trigger] aggregate_spec(entries)[k]).name == name ==> j == k,
{
    lemma_first_seen_mentions(entries, name);
    lemma_first_seen_distinct(entries);
    let names = first_seen(entries);
    let k = choose|k: int| 0 <= k < names.len() && names[k] == name;
    assert(aggregate_spec(entries)[k].name == name);
    assert forall|i: int, j: int|
        0 <= i < aggregate_spec(entries).len() && 0 <= j < aggregate_spec(entries).len()
            && (#[trigger] aggregate_spec(entries)[i]).name == name
            && (#[trigger] aggregate_spec(entries)[j]).name == name implies i == j by {
        assert(names[i] == name);
        assert(names[j] == name);
    }
}

/// No name occurs twice among the first-seen names.
pub proof fn lemma_first_seen_distinct(entries: Seq<EntryView>)
    ensures
        first_seen(entries).no_duplicates(),
    decreases entries.len(),
{
    if entries.len() > 0 {
        lemma_first_seen_distinct(entries.drop_last());
    }
}

/// A variable that no entry belongs to has no parts.
pub proof fn lemma_parts_of_unmentioned(entries: Seq<EntryView>, name: Seq<char>)
    requires
        !mentions(entries, name),
    ensures
        parts_of(entries, name) == Seq::<Seq<char>>::empty(),
    decreases entries.len(),
{
    if entries.len() > 0 {
        let rest = entries.drop_last();
        assert(entries[entries.len() - 1].var_name() != name);
        assert forall|i: int| 0 <= i < rest.len() implies #[trigger] rest[i].var_name()
            != name by {
            if rest[i].var_name() == name {
                assert(entries[i].var_name() == name);
            }
        }
        lemma_parts_of_unmentioned(rest, name);
    }
}

/// Adding an entry at the end changes the separator of a variable only when
/// the variable had no entry before and the new entry belongs to it.
pub proof fn lemma_separator_of_push(entries: Seq<EntryView>, e: EntryView, name: Seq<char>)
    ensures
        separator_of(entries.push(e), name) == if mentions(entries, name) {
            separator_of(entries, name)
        } else if e.var_name() == name {
            e.separator()
        } else {
            Seq::<char>::empty()
        },
    decreases entries.len(),
{
    let all = entries.push(e);
    if entries.len() == 0 {
        assert(all.first() == e);
        assert(all.drop_first() =~= Seq::<EntryView>::empty());
        assert(separator_of(all.drop_first(), name) == Seq::<char>::empty());
    } else {
        let tail = entries.drop_first();
        assert(all.first() == entries.first());
        assert(all.drop_first() =~= tail.push(e));
        if entries.first().var_name() == name {
            assert(entries[0].var_name() == name);
        } else {
            lemma_separator_of_push(tail, e, name);
            assert(mentions(entries, name) <==> mentions(tail, name)) by {
                if mentions(entries, name) {
                    let i = choose|i: int|
                        0 <= i < entries.len() && #[trigger] entries[i].var_name() == name;
                    assert(i > 0);
                    assert(tail[i - 1].var_name() == name);
                }
                if mentions(tail, name) {
                    let i = choose|i: int|
                        0 <= i < tail.len() && #[trigger] tail[i].var_name() == name;
                    assert(entries[i + 1].var_name() == name);
                }
            }
        }
    }
}

/// Finds the place of `name` among `names`.
fn position_of(names: &Vec<String>, name: &str) -> (out: Option<usize>)
    ensures
        match out {
            Some(k) => k < names.len() && names[k as int]@ == name@,
            None => !names.deep_view().contains(name@),
        },
{
    let mut k: usize = 0;
    while k < names.len()
        invariant
            k <= names.len(),
            forall|j: int| 0 <= j < k ==> names[j]@ != name@,
        decreases names.len() - k,
    {
        if str_eq(names[k].as_str(), name) {
            return Some(k);
        }
        k += 1;
    }
    proof {
        assert forall|j: int| 0 <= j < names.deep_view().len() implies names.deep_view()[j]
            != name@ by {
            assert(names.deep_view()[j] == names[j]@);
        }
    }
    None
}

/// Groups the parts of a profile by variable and joins each group.
///
/// The result holds one aggregate per distinct variable name, in the order in
/// which the names are first seen. The parts of a variable are joined in the
/// order in which they are stored, with the separator of the variable's first
/// part. A variable with no part is absent from the result.
pub fn aggregate(profile: &EnvProfile) -> (out: Vec<Aggregate>)
    ensures
        out.deep_view() == aggregate_spec(profile@.entries),
{
    let mut names: Vec<String> = Vec::new();
    let mut seps: Vec<String> = Vec::new();
    let mut parts: Vec<Vec<String>> = Vec::new();
    let ghost all = profile@.entries;
    let mut i: usize = 0;
    proof {
        assert(names.deep_view() =~= first_seen(all.take(0)));
    }
    while i < profile.entries.len()
        invariant
            i <= profile.entries.len(),
            all == profile@.entries,
            all.len() == profile.entries.len(),
            names.deep_view() == first_seen(all.take(i as int)),
            seps.len() == names.len(),
            parts.len() == names.len(),
            forall|k: int|
                0 <= k < names.len() ==> #[trigger] seps[k]@ == separator_of(
                    all.take(i as int),
                    names[k]@,
                ),
            forall|k: int|
                0 <= k < names.len() ==> #[trigger] parts[k].deep_view() == parts_of(
                    all.take(i as int),
                    names[k]@,
                ),
        decreases profile.entries.len() - i,
    {
        let entry = &profile.entries[i];
        let var = entry.var_name();
        let ghost before = all.take(i as int);
        let ghost after = all.take(i + 1);
        let ghost old_names = names.deep_view();
        let ghost old_seps = seps.deep_view();
        let ghost old_parts = parts.deep_view();
        proof {
            assert(all[i as int] == entry@);
            assert(after =~= before.push(entry@));
            assert(after.drop_last() =~= before);
            assert(after.last() == entry@);
            lemma_first_seen_mentions(before, var@);
            lemma_first_seen_distinct(before);
            assert forall|k: int| 0 <= k < names.len() implies mentions(before, names[k]@) by {
                assert(names.deep_view()[k] == names[k]@);
                assert(first_seen(before).contains(names[k]@));
                lemma_first_seen_mentions(before, names[k]@);
            }
            assert forall|k: int| 0 <= k < names.len() implies separator_of(after, names[k]@)
                == separator_of(before, names[k]@) by {
                lemma_separator_of_push(before, entry@, names[k]@);
            }
        }
        match position_of(&names, cow_str(&var)) {
            Some(k) => {
                let value = entry_value(entry);
                let ghost old_group = parts[k as int].deep_view();
                parts[k].push(value);
                proof {
                    assert(old_names.contains(var@)) by {
                        assert(old_names[k as int] == var@);
                    }
                    assert(parts[k as int].deep_view() =~= old_group.push(entry@.value()));
                    assert forall|j: int| 0 <= j < names.len() implies #[trigger] parts[j].deep_view()
                        == parts_of(after, names[j]@) by {
                        if j != k {
                            assert(old_names[j] == names[j]@);
                            assert(old_names[k as int] == names[k as int]@);
                            assert(names[j]@ != var@);
                        }
                    }
                }
            },
            None => {
                let sep = entry.separator();
                let value = entry_value(entry);
                let mut group: Vec<String> = Vec::new();
                group.push(value);
                names.push(cow_into_string(var));
                seps.push(cow_into_string(sep));
                parts.push(group);
                proof {
                    assert(names.deep_view() =~= old_names.push(var@));
                    lemma_parts_of_unmentioned(before, var@);
                    lemma_separator_of_push(before, entry@, var@);
                    let last = names.len() - 1;
                    assert(parts[last].deep_view() =~= seq![entry@.value()]);
                    assert(Seq::<Seq<char>>::empty().push(entry@.value()) =~= seq![
                        entry@.value(),
                    ]);
                    assert forall|j: int| 0 <= j < names.len() implies #[trigger] parts[j].deep_view()
                        == parts_of(after, names[j]@) by {
                        if j < last {
                            assert(old_names[j] == names[j]@);
                            assert(old_names.contains(names[j]@));
                            assert(names[j]@ != var@);
                        }
                    }
                    assert forall|j: int| 0 <= j < names.len() implies #[trigger] seps[j]@
                        == separator_of(after, names[j]@) by {
                        if j < last {
                            assert(old_names[j] == names[j]@);
                        }
                    }
                }
            },
        }
        i += 1;
    }
    proof {
        assert(all.take(all.len() as int) =~= all);
    }
    let mut out: Vec<Aggregate> = Vec::new();
    let mut k: usize = 0;
    while k < names.len()
        invariant
            k <= names.len(),
            seps.len() == names.len(),
            parts.len() == names.len(),
            out.len() == k,
            names.deep_view() == first_seen(all),
            forall|j: int| 0 <= j < names.len() ==> #[trigger] seps[j]@ == separator_of(all, names[j]@),
            forall|j: int|
                0 <= j < names.len() ==> #[trigger] parts[j].deep_view() == parts_of(
                    all,
                    names[j]@,
                ),
            forall|j: int| 0 <= j < k ==> #[trigger] out[j]@ == aggregate_of(all, names[j]@),
        decreases names.len() - k,
    {
        let value = join(&parts[k], seps[k].as_str());
        out.push(Aggregate { name: names[k].clone(), separator: seps[k].clone(), value });
        k += 1;
    }
    proof {
        assert forall|j: int| 0 <= j < out.len() implies out.deep_view()[j] == aggregate_spec(
            all,
        )[j] by {
            assert(out.deep_view()[j] == out[j]@);
            assert(names.deep_view()[j] == names[j]@);
        }
        assert(out.deep_view() =~= aggregate_spec(all));
    }
    out
}

/// Generates the export statements of a profile, one per variable, in the
/// order in which the variables are first seen among its entries.
pub fn export_statements(profile: &EnvProfile, mode: OperationMode) -> (out: Vec<String>)
    ensures
        out.deep_view() == statements_spec(profile@.entries, mode),
        forall|k: int| 0 <= k < out.len() ==> (#[trigger] out[k]@).len() > 0 && out[k]@.last() == ';',
{
    let groups = aggregate(profile);
    let mut out: Vec<String> = Vec::new();
    let mut k: usize = 0;
    while k < groups.len()
        invariant
            k <= groups.len(),
            out.len() == k,
            groups.deep_view() == aggregate_spec(profile@.entries),
            forall|j: int|
                0 <= j < k ==> #[trigger] out[j]@ == render_spec(
                    groups[j]@.name,
                    groups[j]@.value,
                    groups[j]@.separator,
                    mode,
                ),
            forall|j: int| 0 <= j < k ==> (#[trigger] out[j]@).len() > 0 && out[j]@.last() == ';',
        decreases groups.len() - k,
    {
        let g = &groups[k];
        out.push(export_assignment(g.name.as_str(), g.value.as_str(), g.separator.as_str(), mode));
        k += 1;
    }
    proof {
        assert forall|j: int| 0 <= j < out.len() implies out.deep_view()[j] == statements_spec(
            profile@.entries,
            mode,
        )[j] by {
            assert(out.deep_view()[j] == out[j]@);
            assert(groups.deep_view()[j] == groups[j]@);
        }
        assert(out.deep_view() =~= statements_spec(profile@.entries, mode));
    }
    out
}

/// Generates the full export text of a profile: its statements, one per
/// line. A profile without entries gives the empty text.
pub fn generate_full_export(profile: &EnvProfile, mode: OperationMode) -> (out: String)
    ensures
        out@ == join_spec(statements_spec(profile@.entries, mode), "\n"@),
{
    let lines = export_statements(profile, mode);
    join(&lines, "\n")
}

/// What the caller of the profile picker has to do after a key.
#[derive(Debug, Clone, Copy, PartialEq, Eq, Structural)]
pub enum PickerStep {
    /// Nothing: go on with the next key.
    Pending,
    /// Leave without exporting.
    Cancelled,
    /// Export the profile at this place.
    Export(usize),
}

/// Where the cursor of the profile picker stands after a key, in a list of
/// `len` profiles: Down goes to the next profile and from the last to the
/// first, Up to the one before and from the first to the last.
pub open spec fn picker_cursor(selected: Option<usize>, len: usize, key: Key) -> Option<usize> {
    match key {
        Key::Down => match selected {
            Some(i) => if i + 1 >= len {
                Some(0)
            } else {
                Some((i + 1) as usize)
            },
            None => Some(0),
        },
        Key::Up => match selected {
            Some(i) => if i == 0 {
                Some((len - 1) as usize)
            } else {
                Some((i - 1) as usize)
            },
            None => Some((len - 1) as usize),
        },
        _ => selected,
    }
}

/// What the caller of the profile picker has to do after a key: Esc leaves,
/// Enter exports the profile under the cursor.
pub open spec fn picker_step(selected: Option<usize>, key: Key) -> PickerStep {
    match key {
        Key::Esc => PickerStep::Cancelled,
        Key::Enter => match selected {
            Some(i) => PickerStep::Export(i),
            None => PickerStep::Pending,
        },
        _ => PickerStep::Pending,
    }
}

/// Handles a key of the picker that asks which of `len` profiles to export.
pub fn interactive_export_key(selected: &mut Option<usize>, len: usize, key: Key) -> (out:
    PickerStep)
    requires
        len > 0,
    ensures
        *final(selected) == picker_cursor(*old(selected), len, key),
        out == picker_step(*old(selected), key),
{
    match key {
        Key::Esc => PickerStep::Cancelled,
        Key::Down => {
            let i = match *selected {
                Some(i) => if i >= len - 1 {
                    0
                } else {
                    i + 1
                },
                None => 0,
            };
            *selected = Some(i);
            PickerStep::Pending
        },
        Key::Up => {
            let i = match *selected {
                Some(i) => if i == 0 {
                    len - 1
                } else {
                    i - 1
                },
                None => len - 1,
            };
            *selected = Some(i);
            PickerStep::Pending
        },
        Key::Enter => match *selected {
            Some(i) => PickerStep::Export(i),
            None => PickerStep::Pending,
        },
        _ => PickerStep::Pending,
    }
}

} // verus!

//! The command line of the browser: what it suggests and what a command
//! does.

use crate::text::{
    as_places, chars_of, concat_str, contains_text, decimal, decimal_spec, is_infix, is_prefix,
    lowercase, lowercase_spec, name_order, order_by_name, starts_with_text, str_eq, string_of,
    strip_prefixes, strip_prefixes_spec, trim, trim_spec, trim_start, trim_start_spec,
};
use crate::tui::state::{profile_place, AppState, AppStateView};
use crate::tui::view;
use vstd::prelude::*;

verus! {

/// The commands, in the order in which they are listed.
pub open spec fn command_list() -> Seq<Seq<char>> {
    seq![
        "quit"@,
        "profiles"@,
        "vars"@,
        "defs"@,
        "parts"@,
        "items"@,
        "preview"@,
        "export"@,
        "use"@,
        "themes"@,
        "theme"@,
        "new-var"@,
        "new-item"@,
        "help"@,
    ]
}

/// Returns the commands.
pub fn all_commands() -> (out: Vec<String>)
    ensures
        out.deep_view() == command_list(),
{
    let mut out: Vec<String> = Vec::new();
    out.push(String::from_str("quit"));
    out.push(String::from_str("profiles"));
    out.push(String::from_str("vars"));
    out.push(String::from_str("defs"));
    out.push(String::from_str("parts"));
    out.push(String::from_str("items"));
    out.push(String::from_str("preview"));
    out.push(String::from_str("export"));
    out.push(String::from_str("use"));
    out.push(String::from_str("themes"));
    out.push(String::from_str("theme"));
    out.push(String::from_str("new-var"));
    out.push(String::from_str("new-item"));
    out.push(String::from_str("help"));
    proof {
        assert(out.deep_view().len() == command_list().len());
        assert forall|i: int| 0 <= i < out.len() implies
            out.deep_view()[i] == command_list()[i] by {
            assert(out.deep_view()[i] == out[i]@);
        }
        assert(out.deep_view() =~= command_list());
    }
    out
}

/// Whether `name` answers the query `query`: an empty query is answered by
/// every name, another one by the names whose lower-case form holds it.
pub open spec fn answers(name: Seq<char>, query: Seq<char>) -> bool {
    query.len() == 0 || is_infix(lowercase_spec(name), query)
}

/// `prefix` before each of the names that answer `query`, in the order of
/// the names.
pub open spec fn candidates(names: Seq<Seq<char>>, query: Seq<char>, prefix: Seq<char>) -> Seq<
    Seq<char>,
>
    decreases names.len(),
{
    if names.len() == 0 {
        Seq::empty()
    } else {
        let before = candidates(names.drop_last(), query, prefix);
        if answers(names.last(), query) {
            before.push(prefix + names.last())
        } else {
            before
        }
    }
}

/// `names` in their order as strings.
pub open spec fn in_order(names: Seq<Seq<char>>) -> Seq<Seq<char>> {
    Seq::new(names.len(), |k: int| names[name_order(names)[k]])
}

/// `names` without the names that repeat the name just before them.
pub open spec fn without_repeats(names: Seq<Seq<char>>) -> Seq<Seq<char>>
    decreases names.len(),
{
    if names.len() == 0 {
        Seq::empty()
    } else if names.len() >= 2 && names[names.len() - 2] == names.last() {
        without_repeats(names.drop_last())
    } else {
        without_repeats(names.drop_last()).push(names.last())
    }
}

/// The names of the profiles.
pub open spec fn profile_names(app: AppStateView) -> Seq<Seq<char>> {
    Seq::new(app.profiles.len(), |i: int| app.profiles[i].name)
}

/// What the command line suggests for what has been typed, before the
/// suggestions are put in order.
///
/// After `use ` the profiles are suggested, after `theme ` the themes, and
/// otherwise the commands; each time those that hold what has been typed,
/// letter case ignored.
pub open spec fn raw_suggestions(app: AppStateView, themes: Seq<Seq<char>>) -> Seq<Seq<char>> {
    let input = trim_start_spec(app.command_input);
    if is_prefix(input, "use "@) {
        candidates(
            profile_names(app),
            lowercase_spec(trim_spec(strip_prefixes_spec(input, "use "@))),
            "use "@,
        )
    } else if is_prefix(input, "theme "@) {
        candidates(
            themes,
            lowercase_spec(trim_spec(strip_prefixes_spec(input, "theme "@))),
            "theme "@,
        )
    } else {
        candidates(command_list(), lowercase_spec(input), Seq::empty())
    }
}

/// What the command line suggests: the raw suggestions in order, each once.
pub open spec fn suggestions(app: AppStateView, themes: Seq<Seq<char>>) -> Seq<Seq<char>> {
    without_repeats(in_order(raw_suggestions(app, themes)))
}

/// Collects `prefix` before each of the names that answer `query`.
fn collect_candidates(names: &Vec<String>, query: &str, prefix: &str) -> (out: Vec<String>)
    ensures
        out.deep_view() == candidates(names.deep_view(), query@, prefix@),
{
    let ghost all = names.deep_view();
    let mut out: Vec<String> = Vec::new();
    let mut i: usize = 0;
    while i < names.len()
        invariant
            i <= names.len(),
            all == names.deep_view(),
            out.deep_view() == candidates(all.take(i as int), query@, prefix@),
        decreases names.len() - i,
    {
        let ghost before = out.deep_view();
        proof {
            assert(all[i as int] == names[i as int]@);
            assert(all.take(i + 1).drop_last() =~= all.take(i as int));
        }
        let fits = if query.unicode_len() == 0 {
            true
        } else {
            let lower = lowercase(names[i].as_str());
            contains_text(lower.as_str(), query)
        };
        if fits {
            out.push(concat_str(prefix, names[i].as_str()));
            proof {
                assert(out.deep_view() =~= before.push(prefix@ + all[i as int]));
            }
        }
        i += 1;
    }
    proof {
        assert(all.take(all.len() as int) =~= all);
    }
    out
}

/// Puts `names` in order and leaves each name once.
fn sort_and_dedup(names: &Vec<String>) -> (out: Vec<String>)
    ensures
        out.deep_view() == without_repeats(in_order(names.deep_view())),
{
    let order = order_by_name(names);
    let ghost all = names.deep_view();
    let ghost sorted = in_order(all);
    let mut out: Vec<String> = Vec::new();
    let mut k: usize = 0;
    while k < order.len()
        invariant
            k <= order.len(),
            order.len() == names.len(),
            all == names.deep_view(),
            sorted == in_order(all),
            as_places(order@) == name_order(all),
            forall|j: int| 0 <= j < order.len() ==> (#[trigger] order[j]) < names.len(),
            out.deep_view() == without_repeats(sorted.take(k as int)),
        decreases order.len() - k,
    {
        let ghost before = out.deep_view();
        proof {
            assert(as_places(order@)[k as int] == order[k as int]);
            assert(all[order[k as int] as int] == names[order[k as int] as int]@);
            assert(sorted[k as int] == names[order[k as int] as int]@);
            assert(sorted.take(k + 1).drop_last() =~= sorted.take(k as int));
            assert(sorted.take(k + 1).last() == sorted[k as int]);
            if k > 0 {
                assert(as_places(order@)[k - 1] == order[k - 1]);
                assert(all[order[k - 1] as int] == names[order[k - 1] as int]@);
                assert(sorted.take(k + 1)[k - 1] == names[order[k - 1] as int]@);
            }
        }
        let repeats = k > 0 && str_eq(names[order[k - 1]].as_str(), names[order[k]].as_str());
        if !repeats {
            out.push(names[order[k]].clone());
            proof {
                assert(out.deep_view() =~= before.push(sorted[k as int]));
            }
        }
        k += 1;
    }
    proof {
        assert(sorted.take(sorted.len() as int) =~= sorted);
    }
    out
}

/// Collects the names of the profiles.
fn names_of_profiles(app: &AppState) -> (out: Vec<String>)
    ensures
        out.deep_view() == profile_names(app@),
{
    let mut out: Vec<String> = Vec::new();
    let mut i: usize = 0;
    while i < app.profiles.len()
        invariant
            i <= app.profiles.len(),
            out.len() == i,
            forall|j: int| 0 <= j < i ==> out[j]@ == app.profiles[j]@.name,
        decreases app.profiles.len() - i,
    {
        out.push(app.profiles[i].name.clone());
        i += 1;
    }
    proof {
        assert(out.deep_view() =~= profile_names(app@));
    }
    out
}

/// Brings the suggestions of the command line up to date with what has been
/// typed, and pulls the cursor back into them.
pub fn refresh_command_suggestions(app: &mut AppState, theme_names: &Vec<String>)
    ensures
        final(app)@ == (AppStateView {
            command_suggestions: suggestions(old(app)@, theme_names.deep_view()),
            command_selected: if suggestions(old(app)@, theme_names.deep_view()).len() == 0 {
                0usize
            } else if old(app).command_selected < suggestions(
                old(app)@,
                theme_names.deep_view(),
            ).len() {
                old(app).command_selected
            } else {
                (suggestions(old(app)@, theme_names.deep_view()).len() - 1) as usize
            },
            ..old(app)@
        }),
{
    let input = trim_start(app.command_input.as_str());
    let raw = if starts_with_text(input.as_str(), "use ") {
        let rest = strip_prefixes(input.as_str(), "use ");
        let q = lowercase(trim(rest.as_str()).as_str());
        let names = names_of_profiles(app);
        collect_candidates(&names, q.as_str(), "use ")
    } else if starts_with_text(input.as_str(), "theme ") {
        let rest = strip_prefixes(input.as_str(), "theme ");
        let q = lowercase(trim(rest.as_str()).as_str());
        collect_candidates(theme_names, q.as_str(), "theme ")
    } else {
        let cmds = all_commands();
        let q = lowercase(input.as_str());
        let found = collect_candidates(&cmds, q.as_str(), "");
        proof {
            reveal_strlit("");
            assert(""@ =~= Seq::<char>::empty());
        }
        found
    };
    let suggestions = sort_and_dedup(&raw);
    if suggestions.len() == 0 {
        app.command_selected = 0;
    } else if app.command_selected >= suggestions.len() {
        app.command_selected = suggestions.len() - 1;
    }
    app.command_suggestions = suggestions;
}

/// The command that Enter runs: what has been typed when it is one of the
/// suggestions or when nothing is suggested, otherwise the suggestion under
/// the cursor.
pub open spec fn command_to_execute(app: AppStateView) -> Seq<char> {
    let typed = trim_spec(app.command_input);
    let under_cursor = if app.command_selected < app.command_suggestions.len() {
        Some(app.command_suggestions[app.command_selected as int])
    } else {
        None
    };
    if typed.len() == 0 {
        match under_cursor {
            Some(s) => s,
            None => Seq::empty(),
        }
    } else if app.command_suggestions.len() == 0 {
        typed
    } else if app.command_suggestions.contains(typed) {
        typed
    } else {
        match under_cursor {
            Some(s) => s,
            None => typed,
        }
    }
}

/// Tells whether `name` is among `names`.
fn is_listed(names: &Vec<String>, name: &str) -> (out: bool)
    ensures
        out == names.deep_view().contains(name@),
{
    let mut i: usize = 0;
    while i < names.len()
        invariant
            i <= names.len(),
            forall|j: int| 0 <= j < i ==> names[j]@ != name@,
        decreases names.len() - i,
    {
        if str_eq(names[i].as_str(), name) {
            proof {
                assert(names.deep_view()[i as int] == name@);
            }
            return true;
        }
        i += 1;
    }
    proof {
        assert forall|j: int| 0 <= j < names.deep_view().len() implies names.deep_view()[j]
            != name@ by {
            assert(names.deep_view()[j] == names[j]@);
        }
    }
    false
}

/// Picks the command that Enter runs.
pub fn pick_command_to_execute(app: &AppState) -> (out: String)
    ensures
        out@ == command_to_execute(app@),
{
    let typed = trim(app.command_input.as_str());
    let has_cursor = app.command_selected < app.command_suggestions.len();
    proof {
        if has_cursor {
            assert(app@.command_suggestions[app.command_selected as int]
                == app.command_suggestions[app.command_selected as int]@);
        }
    }
    if typed.as_str().unicode_len() == 0 {
        if has_cursor {
            return app.command_suggestions[app.command_selected].clone();
        }
        return String::new();
    }
    if app.command_suggestions.len() == 0 {
        return typed;
    }
    // What was typed in full is run as typed; anything else stands for the
    // suggestion under the cursor.
    if is_listed(&app.command_suggestions, typed.as_str()) {
        return typed;
    }
    if has_cursor {
        app.command_suggestions[app.command_selected].clone()
    } else {
        typed
    }
}

/// What the caller has to do after a command.
#[derive(Debug)]
pub enum CommandEffect {
    /// Nothing more: the state holds the whole effect.
    Done,
    /// Leave the browser.
    Quit,
    /// Ask for a new custom variable.
    NewVarDef,
    /// Ask for a new catalog item.
    NewItem,
    /// Switch to the theme of this name and keep it in the configuration.
    SetTheme(String),
}

/// Mathematical model of a [`CommandEffect`].
pub ghost enum CommandEffectView {
    Done,
    Quit,
    NewVarDef,
    NewItem,
    SetTheme(Seq<char>),
}

impl View for CommandEffect {
    type V = CommandEffectView;

    open spec fn view(&self) -> CommandEffectView {
        match self {
            CommandEffect::Done => CommandEffectView::Done,
            CommandEffect::Quit => CommandEffectView::Quit,
            CommandEffect::NewVarDef => CommandEffectView::NewVarDef,
            CommandEffect::NewItem => CommandEffectView::NewItem,
            CommandEffect::SetTheme(name) => CommandEffectView::SetTheme(name@),
        }
    }
}

/// The state after a command that only shows a view.
pub open spec fn showing(app: AppStateView, v: view::View) -> AppStateView {
    AppStateView { active_view: v, ..app }
}

/// The state after a command that only leaves a message.
pub open spec fn saying(app: AppStateView, status: Seq<char>) -> AppStateView {
    AppStateView { status, ..app }
}

/// The state and the effect of the command `cmd`, of which surrounding
/// white space does not count. `theme_count` is the number of themes there
/// are.
pub open spec fn command_outcome(app: AppStateView, cmd: Seq<char>, theme_count: nat) -> (
    AppStateView,
    CommandEffectView,
) {
    let cmd = trim_spec(cmd);
    if cmd.len() == 0 {
        (app, CommandEffectView::Done)
    } else if cmd == "quit"@ || cmd == "q"@ || cmd == "exit"@ {
        (app, CommandEffectView::Quit)
    } else if cmd == "profiles"@ {
        (showing(app, view::View::Profiles), CommandEffectView::Done)
    } else if cmd == "vars"@ {
        (showing(app, view::View::Vars), CommandEffectView::Done)
    } else if cmd == "defs"@ {
        (showing(app, view::View::Defs), CommandEffectView::Done)
    } else if cmd == "parts"@ {
        (showing(app, view::View::Parts), CommandEffectView::Done)
    } else if cmd == "items"@ {
        (showing(app, view::View::Items), CommandEffectView::Done)
    } else if cmd == "preview"@ {
        (showing(app, view::View::Preview), CommandEffectView::Done)
    } else if cmd == "export"@ {
        (showing(app, view::View::Export), CommandEffectView::Done)
    } else if cmd == "themes"@ {
        (
            AppStateView {
                active_view: view::View::Help,
                status: decimal_spec(theme_count) + " themes available (use :theme <name>)"@,
                ..app
            },
            CommandEffectView::Done,
        )
    } else if cmd == "theme"@ {
        (saying(app, "Usage: theme <name>"@), CommandEffectView::Done)
    } else if cmd == "new-var"@ {
        (app, CommandEffectView::NewVarDef)
    } else if cmd == "new-item"@ {
        (app, CommandEffectView::NewItem)
    } else if cmd == "help"@ {
        (showing(app, view::View::Help), CommandEffectView::Done)
    } else if is_prefix(cmd, "use "@) {
        let name = trim_spec(cmd.skip(4));
        match profile_place(app.profiles, name) {
            Some(place) => (
                AppStateView {
                    active_profile_index: place as usize,
                    status: "profile: "@ + name,
                    ..app
                },
                CommandEffectView::Done,
            ),
            None => (saying(app, "profile not found: "@ + name), CommandEffectView::Done),
        }
    } else if is_prefix(cmd, "theme "@) {
        let name = trim_spec(cmd.skip(6));
        if name.len() == 0 {
            (saying(app, "Usage: theme <name>"@), CommandEffectView::Done)
        } else {
            (app, CommandEffectView::SetTheme(name))
        }
    } else {
        (app, CommandEffectView::Done)
    }
}

/// The text of `s` from its character `from` on.
fn text_from(s: &str, from: usize) -> (out: String)
    requires
        from <= s@.len(),
    ensures
        out@ == s@.skip(from as int),
{
    let chars = chars_of(s);
    proof {
        assert(chars@.skip(from as int) =~= chars@.subrange(from as int, chars.len() as int));
    }
    string_of(&chars, from, chars.len())
}

/// Shows the view `v`.
fn show(app: &mut AppState, v: view::View) -> (out: CommandEffect)
    ensures
        final(app)@ == showing(old(app)@, v),
        out@ == CommandEffectView::Done,
{
    app.active_view = v;
    CommandEffect::Done
}

/// Carries out the command `cmd` on the state and tells what is left for
/// the caller to do.
pub fn execute_command(app: &mut AppState, cmd: &str, theme_count: usize) -> (out: CommandEffect)
    ensures
        final(app)@ == command_outcome(old(app)@, cmd@, theme_count as nat).0,
        out@ == command_outcome(old(app)@, cmd@, theme_count as nat).1,
        old(app).wf() ==> final(app).wf(),
{
    let cmd = trim(cmd);
    let cmd = cmd.as_str();
    if cmd.unicode_len() == 0 {
        return CommandEffect::Done;
    }
    if str_eq(cmd, "quit") || str_eq(cmd, "q") || str_eq(cmd, "exit") {
        return CommandEffect::Quit;
    }
    if str_eq(cmd, "profiles") {
        return show(app, view::View::Profiles);
    }
    if str_eq(cmd, "vars") {
        return show(app, view::View::Vars);
    }
    if str_eq(cmd, "defs") {
        return show(app, view::View::Defs);
    }
    if str_eq(cmd, "parts") {
        return show(app, view::View::Parts);
    }
    if str_eq(cmd, "items") {
        return show(app, view::View::Items);
    }
    if str_eq(cmd, "preview") {
        return show(app, view::View::Preview);
    }
    if str_eq(cmd, "export") {
        return show(app, view::View::Export);
    }
    if str_eq(cmd, "themes") {
        app.active_view = view::View::Help;
        let mut status = decimal(theme_count);
        status.append(" themes available (use :theme <name>)");
        app.status = status;
        return CommandEffect::Done;
    }
    if str_eq(cmd, "theme") {
        app.status = String::from_str("Usage: theme <name>");
        return CommandEffect::Done;
    }
    if str_eq(cmd, "new-var") {
        return CommandEffect::NewVarDef;
    }
    if str_eq(cmd, "new-item") {
        return CommandEffect::NewItem;
    }
    if str_eq(cmd, "help") {
        return show(app, view::View::Help);
    }
    if starts_with_text(cmd, "use ") {
        proof {
            reveal_strlit("use ");
        }
        let rest = text_from(cmd, 4);
        let name = trim(rest.as_str());
        match app.find_profile(name.as_str()) {
            Ok(idx) => {
                app.active_profile_index = idx;
                app.status = concat_str("profile: ", name.as_str());
            },
            Err(_) => {
                app.status = concat_str("profile not found: ", name.as_str());
            },
        }
        return CommandEffect::Done;
    }
    if starts_with_text(cmd, "theme ") {
        proof {
            reveal_strlit("theme ");
        }
        let rest = text_from(cmd, 6);
        let name = trim(rest.as_str());
        if name.as_str().unicode_len() == 0 {
            app.status = String::from_str("Usage: theme <name>");
            return CommandEffect::Done;
        }
        return CommandEffect::SetTheme(name);
    }
    CommandEffect::Done
}

} // verus!

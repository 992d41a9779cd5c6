//! The actions a key can trigger, and the keys bound to them.

use vstd::prelude::*;
use crate::config::Config;
use crate::config::KeyBinding;
use crate::config::KeyBindingView;
use crate::config::bindings_view;
use crate::text::ascii_lower;
use crate::text::ascii_lowercase;
use crate::text::same_ignoring_ascii_case;

verus! {

/// Something the user can ask the viewer to do.
#[derive(Clone, Copy, Debug, PartialEq, Eq, Structural)]
pub enum Action {
    Help,
    ToggleFullscreen,
    CloseWindow,
    NextImage,
    PreviousImage,
    GotoFirstImage,
    GotoLastImage,
    ZoomIn,
    ZoomOut,
    MoveUp,
    MoveDown,
    MoveLeft,
    MoveRight,
    OpenFiles,
    ToggleImageInfo,
}

/// Every action, in the order in which the help dialog lists them.
pub open spec fn all_actions() -> Seq<Action> {
    seq![
        Action::Help,
        Action::ToggleFullscreen,
        Action::CloseWindow,
        Action::NextImage,
        Action::PreviousImage,
        Action::GotoFirstImage,
        Action::GotoLastImage,
        Action::ZoomIn,
        Action::ZoomOut,
        Action::MoveUp,
        Action::MoveDown,
        Action::MoveLeft,
        Action::MoveRight,
        Action::OpenFiles,
        Action::ToggleImageInfo,
    ]
}

impl Action {
    /// The name by which the settings file refers to the action.
    pub open spec fn name_text(self) -> Seq<char> {
        match self {
            Action::Help => "Help"@,
            Action::ToggleFullscreen => "ToggleFullscreen"@,
            Action::CloseWindow => "CloseWindow"@,
            Action::NextImage => "NextImage"@,
            Action::PreviousImage => "PreviousImage"@,
            Action::GotoFirstImage => "GotoFirstImage"@,
            Action::GotoLastImage => "GotoLastImage"@,
            Action::ZoomIn => "ZoomIn"@,
            Action::ZoomOut => "ZoomOut"@,
            Action::MoveUp => "MoveUp"@,
            Action::MoveDown => "MoveDown"@,
            Action::MoveLeft => "MoveLeft"@,
            Action::MoveRight => "MoveRight"@,
            Action::OpenFiles => "OpenFiles"@,
            Action::ToggleImageInfo => "ToggleImageInfo"@,
        }
    }

    /// The key chord bound to the action when the settings name none.
    pub open spec fn default_key_text(self) -> Seq<char> {
        match self {
            Action::Help => "?"@,
            Action::ToggleFullscreen => "f"@,
            Action::CloseWindow => "q"@,
            Action::NextImage => "l"@,
            Action::PreviousImage => "h"@,
            Action::GotoFirstImage => "g"@,
            Action::GotoLastImage => "shift-g"@,
            Action::ZoomIn => "+"@,
            Action::ZoomOut => "-"@,
            Action::MoveUp => "up"@,
            Action::MoveDown => "down"@,
            Action::MoveLeft => "left"@,
            Action::MoveRight => "right"@,
            Action::OpenFiles => "o"@,
            Action::ToggleImageInfo => "i"@,
        }
    }

    /// Where the action stands in `all_actions()`.
    pub open spec fn position(self) -> int {
        match self {
            Action::Help => 0,
            Action::ToggleFullscreen => 1,
            Action::CloseWindow => 2,
            Action::NextImage => 3,
            Action::PreviousImage => 4,
            Action::GotoFirstImage => 5,
            Action::GotoLastImage => 6,
            Action::ZoomIn => 7,
            Action::ZoomOut => 8,
            Action::MoveUp => 9,
            Action::MoveDown => 10,
            Action::MoveLeft => 11,
            Action::MoveRight => 12,
            Action::OpenFiles => 13,
            Action::ToggleImageInfo => 14,
        }
    }

    /// The binding of the action to its default key.
    pub open spec fn default_binding(self) -> KeyBindingView {
        KeyBindingView { key: self.default_key_text(), action: self.name_text() }
    }

    /// The name by which the settings file refers to the action.
    pub fn name(&self) -> (name: &'static str)
        ensures
            name@ == self.name_text(),
    {
        match self {
            Action::Help => "Help",
            Action::ToggleFullscreen => "ToggleFullscreen",
            Action::CloseWindow => "CloseWindow",
            Action::NextImage => "NextImage",
            Action::PreviousImage => "PreviousImage",
            Action::GotoFirstImage => "GotoFirstImage",
            Action::GotoLastImage => "GotoLastImage",
            Action::ZoomIn => "ZoomIn",
            Action::ZoomOut => "ZoomOut",
            Action::MoveUp => "MoveUp",
            Action::MoveDown => "MoveDown",
            Action::MoveLeft => "MoveLeft",
            Action::MoveRight => "MoveRight",
            Action::OpenFiles => "OpenFiles",
            Action::ToggleImageInfo => "ToggleImageInfo",
        }
    }

    /// The key chord bound to the action when the settings name none.
    pub fn default_key(&self) -> (key: &'static str)
        ensures
            key@ == self.default_key_text(),
    {
        match self {
            Action::Help => "?",
            Action::ToggleFullscreen => "f",
            Action::CloseWindow => "q",
            Action::NextImage => "l",
            Action::PreviousImage => "h",
            Action::GotoFirstImage => "g",
            Action::GotoLastImage => "shift-g",
            Action::ZoomIn => "+",
            Action::ZoomOut => "-",
            Action::MoveUp => "up",
            Action::MoveDown => "down",
            Action::MoveLeft => "left",
            Action::MoveRight => "right",
            Action::OpenFiles => "o",
            Action::ToggleImageInfo => "i",
        }
    }

    /// Every action, in the order in which the help dialog lists them.
    pub fn all() -> (actions: Vec<Action>)
        ensures
            actions@ == all_actions(),
    {
        let actions = vec![
            Action::Help,
            Action::ToggleFullscreen,
            Action::CloseWindow,
            Action::NextImage,
            Action::PreviousImage,
            Action::GotoFirstImage,
            Action::GotoLastImage,
            Action::ZoomIn,
            Action::ZoomOut,
            Action::MoveUp,
            Action::MoveDown,
            Action::MoveLeft,
            Action::MoveRight,
            Action::OpenFiles,
            Action::ToggleImageInfo,
        ];
        assert(actions@ =~= all_actions());
        actions
    }
}

/// The first action from position `from` on whose name is `name`, whatever
/// the case of its ASCII letters.
pub open spec fn action_named_from(name: Seq<char>, from: int) -> Option<Action>
    decreases 15 - from,
{
    if from < 0 || from >= 15 {
        None
    } else if same_ignoring_ascii_case(name, all_actions()[from].name_text()) {
        Some(all_actions()[from])
    } else {
        action_named_from(name, from + 1)
    }
}

/// The action whose name is `name`, whatever the case of its ASCII letters;
/// `None` where `name` is no action's name.
pub open spec fn action_named(name: Seq<char>) -> Option<Action> {
    action_named_from(name, 0)
}

impl Action {
    /// The action called `name`. The case of ASCII letters does not matter.
    pub fn from_name(name: &str) -> (action: Option<Action>)
        ensures
            action == action_named(name@),
    {
        let actions = Action::all();
        let mut i: usize = 0;
        while i < actions.len()
            invariant
                actions@ == all_actions(),
                i <= 15,
                action_named(name@) == action_named_from(name@, i as int),
            decreases 15 - i,
        {
            let action = actions[i];
            if name.eq_ignore_ascii_case(action.name()) {
                return Some(action);
            }
            i += 1;
        }
        None
    }
}

/// Two texts that differ at some position, even in lower case, are not the
/// same text up to case.
proof fn lemma_differ_at(a: Seq<char>, b: Seq<char>, i: int)
    requires
        0 <= i < a.len(),
        i < b.len(),
        ascii_lower(a[i]) != ascii_lower(b[i]),
    ensures
        !same_ignoring_ascii_case(a, b),
{
    assert(ascii_lowercase(a)[i] != ascii_lowercase(b)[i]);
}

/// Two texts of different lengths are not the same text up to case.
proof fn lemma_differ_in_length(a: Seq<char>, b: Seq<char>)
    requires
        a.len() != b.len(),
    ensures
        !same_ignoring_ascii_case(a, b),
{
    assert(ascii_lowercase(a).len() != ascii_lowercase(b).len());
}

/// No two actions have the same name, even where the case of letters is not
/// looked at.
pub proof fn lemma_names_differ(a: Action, b: Action)
    requires
        a != b,
    ensures
        !same_ignoring_ascii_case(a.name_text(), b.name_text()),
{
    reveal_strlit("Help");
    reveal_strlit("ToggleFullscreen");
    reveal_strlit("CloseWindow");
    reveal_strlit("NextImage");
    reveal_strlit("PreviousImage");
    reveal_strlit("GotoFirstImage");
    reveal_strlit("GotoLastImage");
    reveal_strlit("ZoomIn");
    reveal_strlit("ZoomOut");
    reveal_strlit("MoveUp");
    reveal_strlit("MoveDown");
    reveal_strlit("MoveLeft");
    reveal_strlit("MoveRight");
    reveal_strlit("OpenFiles");
    reveal_strlit("ToggleImageInfo");
    let x = a.name_text();
    let y = b.name_text();
    if x.len() != y.len() {
        lemma_differ_in_length(x, y);
    } else if x.len() == 8 {
        lemma_differ_at(x, y, 4);
    } else {
        lemma_differ_at(x, y, 0);
    }
}

/// What `action_named` finds: an action of that name, the first in the
/// order of `all_actions()`, or nothing where no action has the name.
pub proof fn lemma_action_named(name: Seq<char>)
    ensures
        match action_named(name) {
            Some(action) => same_ignoring_ascii_case(name, action.name_text()),
            None => forall|action: Action|
                !same_ignoring_ascii_case(name, #[trigger] action.name_text()),
        },
{
    lemma_action_named_from(name, 0);
    if action_named(name) is None {
        assert forall|action: Action|
            !same_ignoring_ascii_case(name, #[trigger] action.name_text()) by {
            lemma_default_table_complete(action);
        }
    }
}

/// What `action_named_from` finds among the actions from `from` on.
proof fn lemma_action_named_from(name: Seq<char>, from: int)
    requires
        0 <= from <= 15,
    ensures
        match action_named_from(name, from) {
            Some(action) => same_ignoring_ascii_case(name, action.name_text()) && from
                <= action.position() && forall|i: int|
                from <= i < action.position() ==> !same_ignoring_ascii_case(
                    name,
                    #[trigger] all_actions()[i].name_text(),
                ),
            None => forall|i: int|
                from <= i < 15 ==> !same_ignoring_ascii_case(
                    name,
                    #[trigger] all_actions()[i].name_text(),
                ),
        },
    decreases 15 - from,
{
    if from < 15 {
        lemma_default_table_entries(from);
        if !same_ignoring_ascii_case(name, all_actions()[from].name_text()) {
            lemma_action_named_from(name, from + 1);
        }
    }
}

/// Each action is found by its own name, in whatever case.
pub proof fn lemma_action_named_own(action: Action, name: Seq<char>)
    requires
        same_ignoring_ascii_case(name, action.name_text()),
    ensures
        action_named(name) == Some(action),
{
    lemma_action_named(name);
    match action_named(name) {
        Some(found) => {
            if found != action {
                lemma_names_differ(found, action);
                assert(ascii_lowercase(found.name_text()) == ascii_lowercase(name));
            }
        },
        None => {},
    }
}

/// The default key table: each action bound to its default key, one entry
/// per action.
pub open spec fn default_table() -> Seq<KeyBindingView> {
    all_actions().map_values(|a: Action| a.default_binding())
}

/// The default table has one entry for each action, at the action's position.
pub proof fn lemma_default_table_complete(action: Action)
    ensures
        default_table().len() == 15,
        0 <= action.position() < 15,
        all_actions()[action.position()] == action,
        default_table()[action.position()] == action.default_binding(),
{
}

/// Each entry of the default table is the default binding of one action.
pub proof fn lemma_default_table_entries(i: int)
    requires
        0 <= i < 15,
    ensures
        default_table()[i] == all_actions()[i].default_binding(),
        all_actions()[i].position() == i,
{
}

/// The default key bindings, one per action.
pub fn default_key_bindings() -> (bindings: Vec<KeyBinding>)
    ensures
        bindings_view(bindings@) == default_table(),
{
    let actions = Action::all();
    let mut bindings: Vec<KeyBinding> = Vec::new();
    let mut i: usize = 0;
    while i < actions.len()
        invariant
            actions@ == all_actions(),
            i <= actions@.len(),
            bindings_view(bindings@) == default_table().take(i as int),
        decreases actions@.len() - i,
    {
        let action = actions[i];
        let binding = KeyBinding::new(action.default_key(), action.name());
        let ghost before = bindings@;
        bindings.push(binding);
        assert(bindings_view(bindings@) =~= bindings_view(before).push(binding@));
        assert(default_table().take(i + 1) =~= default_table().take(i as int).push(
            action.default_binding(),
        ));
        i += 1;
    }
    assert(default_table().take(i as int) =~= default_table());
    bindings
}

/// A key chord and the action it triggers.
#[derive(Debug)]
pub struct ActionBinding {
    pub key: String,
    pub action: Action,
}

/// What an `ActionBinding` holds.
pub struct ActionBindingView {
    pub key: Seq<char>,
    pub action: Action,
}

impl View for ActionBinding {
    type V = ActionBindingView;

    open spec fn view(&self) -> ActionBindingView {
        ActionBindingView { key: self.key@, action: self.action }
    }
}

/// What a list of `ActionBinding`s holds.
pub open spec fn action_bindings_view(bindings: Seq<ActionBinding>) -> Seq<ActionBindingView> {
    bindings.map_values(|b: ActionBinding| b@)
}

/// The entries of `table` whose action name is `name`, whatever the case of
/// its ASCII letters; their order is kept.
pub open spec fn bindings_named(table: Seq<KeyBindingView>, name: Seq<char>) -> Seq<
    KeyBindingView,
> {
    table.filter(|b: KeyBindingView| same_ignoring_ascii_case(name, b.action))
}

/// The keys that `table` binds to `action`, in the order of the table.
pub open spec fn bindings_of_action(table: Seq<KeyBindingView>, action: Action) -> Seq<
    ActionBindingView,
> {
    bindings_named(table, action.name_text()).map_values(
        |b: KeyBindingView| ActionBindingView { key: b.key, action },
    )
}

/// The bindings of the first `n` actions, action by action.
pub open spec fn bindings_of_first_actions(table: Seq<KeyBindingView>, n: nat) -> Seq<
    ActionBindingView,
>
    decreases n,
{
    if n == 0 {
        Seq::empty()
    } else {
        bindings_of_first_actions(table, (n - 1) as nat) + bindings_of_action(
            table,
            all_actions()[n - 1],
        )
    }
}

/// Every binding of `table` that names an action, grouped by action in the
/// order of `all_actions()`, and within an action in the order of the table.
/// An entry whose name is no action's is left out.
pub open spec fn resolved_bindings(table: Seq<KeyBindingView>) -> Seq<ActionBindingView> {
    bindings_of_first_actions(table, all_actions().len())
}

/// Filtering a sequence of which no element is wanted leaves nothing.
proof fn lemma_filter_none<A>(s: Seq<A>, wanted: spec_fn(A) -> bool)
    requires
        forall|i: int| 0 <= i < s.len() ==> !wanted(#[trigger] s[i]),
    ensures
        s.filter(wanted) == Seq::<A>::empty(),
    decreases s.len(),
{
    reveal(Seq::filter);
    if s.len() > 0 {
        assert(forall|i: int| 0 <= i < s.drop_last().len() ==> s.drop_last()[i] == s[i]);
        lemma_filter_none(s.drop_last(), wanted);
        assert(!wanted(s.last()));
    }
}

/// Filtering a sequence of which one element is wanted leaves that element.
proof fn lemma_filter_one<A>(s: Seq<A>, wanted: spec_fn(A) -> bool, at: int)
    requires
        0 <= at < s.len(),
        wanted(s[at]),
        forall|i: int| 0 <= i < s.len() && i != at ==> !wanted(#[trigger] s[i]),
    ensures
        s.filter(wanted) == seq![s[at]],
    decreases s.len(),
{
    reveal(Seq::filter);
    assert(forall|i: int| 0 <= i < s.drop_last().len() ==> s.drop_last()[i] == s[i]);
    if at == s.len() - 1 {
        lemma_filter_none(s.drop_last(), wanted);
        assert(s.filter(wanted) =~= seq![s[at]]);
    } else {
        assert(!wanted(s.last()));
        lemma_filter_one(s.drop_last(), wanted, at);
    }
}

/// The default table binds to an action its default key and no other.
pub proof fn lemma_default_bindings_of_action(action: Action)
    ensures
        bindings_named(default_table(), action.name_text()) == seq![action.default_binding()],
        bindings_of_action(default_table(), action) == seq![
            ActionBindingView { key: action.default_key_text(), action },
        ],
{
    let table = default_table();
    let wanted = |b: KeyBindingView| same_ignoring_ascii_case(action.name_text(), b.action);
    lemma_default_table_complete(action);
    assert forall|i: int| 0 <= i < table.len() && i != action.position() implies !wanted(
        #[trigger] table[i],
    ) by {
        lemma_default_table_entries(i);
        lemma_names_differ(action, all_actions()[i]);
    }
    assert(wanted(table[action.position()]));
    lemma_filter_one(table, wanted, action.position());
    assert(bindings_of_action(table, action) =~= seq![
        ActionBindingView { key: action.default_key_text(), action },
    ]);
}

/// The bindings that the default table resolves to for the first `n` actions:
/// each of them with its default key.
proof fn lemma_default_bindings_of_first(n: nat)
    requires
        n <= 15,
    ensures
        bindings_of_first_actions(default_table(), n) == all_actions().take(n as int).map_values(
            |a: Action| ActionBindingView { key: a.default_key_text(), action: a },
        ),
    decreases n,
{
    let expected = all_actions().take(n as int).map_values(
        |a: Action| ActionBindingView { key: a.default_key_text(), action: a },
    );
    if n == 0 {
        assert(bindings_of_first_actions(default_table(), n) =~= expected);
    } else {
        lemma_default_bindings_of_first((n - 1) as nat);
        lemma_default_bindings_of_action(all_actions()[n - 1]);
        assert(bindings_of_first_actions(default_table(), n) =~= expected);
    }
}

/// The default table resolves to one key for each action: its default key.
pub proof fn lemma_default_bindings_resolved()
    ensures
        resolved_bindings(default_table()) == all_actions().map_values(
            |a: Action| ActionBindingView { key: a.default_key_text(), action: a },
        ),
{
    lemma_default_bindings_of_first(15);
    assert(all_actions().take(15) =~= all_actions());
}

/// The entries of `key_bindings` that name `action_name`. The names are
/// compared without regard to the case of ASCII letters.
pub fn bindings_for_action(key_bindings: &Vec<KeyBinding>, action_name: &str) -> (found: Vec<
    KeyBinding,
>)
    ensures
        bindings_view(found@) == bindings_named(bindings_view(key_bindings@), action_name@),
{
    let ghost table = bindings_view(key_bindings@);
    let ghost pred = |b: KeyBindingView| same_ignoring_ascii_case(action_name@, b.action);
    let mut found: Vec<KeyBinding> = Vec::new();
    let mut i: usize = 0;
    proof {
        reveal(Seq::filter);
        assert(table.take(0) =~= Seq::<KeyBindingView>::empty());
        assert(bindings_view(found@) =~= Seq::<KeyBindingView>::empty());
    }
    while i < key_bindings.len()
        invariant
            i <= key_bindings@.len(),
            table == bindings_view(key_bindings@),
            pred == |b: KeyBindingView| same_ignoring_ascii_case(action_name@, b.action),
            bindings_view(found@) == table.take(i as int).filter(pred),
        decreases key_bindings@.len() - i,
    {
        let binding = &key_bindings[i];
        let ghost before = found@;
        proof {
            reveal(Seq::filter);
            assert(table.take(i + 1).drop_last() =~= table.take(i as int));
            assert(table.take(i + 1).last() == binding@);
        }
        if action_name.eq_ignore_ascii_case(binding.action.as_str()) {
            let copy = binding.clone();
            found.push(copy);
            assert(bindings_view(found@) =~= bindings_view(before).push(binding@));
        }
        i += 1;
    }
    assert(table.take(i as int) =~= table);
    found
}

/// The keys that `key_bindings` binds to `action`, in their order.
pub fn create_key_bindings(action: Action, key_bindings: &Vec<KeyBinding>) -> (found: Vec<
    ActionBinding,
>)
    ensures
        action_bindings_view(found@) == bindings_of_action(bindings_view(key_bindings@), action),
{
    let named = bindings_for_action(key_bindings, action.name());
    let ghost source = bindings_view(named@);
    let mut found: Vec<ActionBinding> = Vec::new();
    let mut i: usize = 0;
    while i < named.len()
        invariant
            i <= named@.len(),
            source == bindings_view(named@),
            action_bindings_view(found@) == source.take(i as int).map_values(
                |b: KeyBindingView| ActionBindingView { key: b.key, action },
            ),
        decreases named@.len() - i,
    {
        let ghost before = found@;
        let entry = ActionBinding { key: named[i].key.clone(), action };
        found.push(entry);
        assert(action_bindings_view(found@) =~= action_bindings_view(before).push(entry@));
        assert(source.take(i + 1).map_values(
            |b: KeyBindingView| ActionBindingView { key: b.key, action },
        ) =~= source.take(i as int).map_values(
            |b: KeyBindingView| ActionBindingView { key: b.key, action },
        ).push(entry@));
        i += 1;
    }
    assert(source.take(i as int) =~= source);
    found
}

/// Appends `more` to `list`.
fn append_bindings(list: &mut Vec<ActionBinding>, more: Vec<ActionBinding>)
    ensures
        action_bindings_view(final(list)@) == action_bindings_view(old(list)@)
            + action_bindings_view(more@),
{
    let mut more = more;
    let ghost added = more@;
    list.append(&mut more);
    assert(action_bindings_view(list@) =~= action_bindings_view(old(list)@)
        + action_bindings_view(added));
}

/// The keys to register with the window: for each action in turn, the keys
/// that `key_bindings` binds to it.
pub fn convert_key_bindings(key_bindings: &Vec<KeyBinding>) -> (resolved: Vec<ActionBinding>)
    ensures
        action_bindings_view(resolved@) == resolved_bindings(bindings_view(key_bindings@)),
{
    let actions = Action::all();
    let ghost table = bindings_view(key_bindings@);
    let mut resolved: Vec<ActionBinding> = Vec::new();
    let mut i: usize = 0;
    assert(action_bindings_view(resolved@) =~= bindings_of_first_actions(table, 0));
    while i < actions.len()
        invariant
            actions@ == all_actions(),
            i <= actions@.len(),
            table == bindings_view(key_bindings@),
            action_bindings_view(resolved@) == bindings_of_first_actions(table, i as nat),
        decreases actions@.len() - i,
    {
        let found = create_key_bindings(actions[i], key_bindings);
        append_bindings(&mut resolved, found);
        i += 1;
    }
    resolved
}

/// The keys to register with the window for the settings `config`: for each
/// action in turn, the keys that the settings bind to it.
pub fn build_key_bindings_from_config(config: &Config) -> (resolved: Vec<ActionBinding>)
    ensures
        action_bindings_view(resolved@) == resolved_bindings(config@.keybindings),
{
    convert_key_bindings(&config.keybindings)
}

} // verus!

//! The command descriptor store: descriptors keyed by formal name, plus the
//! alias/name index — a JSON object mapping every known alias or name to a
//! formal command name — kept as a parsed `serde_json::Value`.

use vstd::prelude::*;

use crate::command::{Command, CommandModel};
use crate::text::str_eq;

verus! {

#[verifier::external_type_specification]
#[verifier::external_body]
pub struct ExJsonValue(serde_json::Value);

/// The string-valued entries of the JSON object `v`: each maps an alias or a
/// formal name to a formal command name.
pub uninterp spec fn index_entries(v: serde_json::Value) -> Map<Seq<char>, Seq<char>>;

/// The keys at which the JSON object `v` has a non-null entry: the names and
/// aliases the index knows.
pub uninterp spec fn index_keys(v: serde_json::Value) -> Set<Seq<char>>;

/// Whether the text `t` is valid JSON, so that parsing it yields a value.
pub uninterp spec fn index_text_parses(t: Seq<char>) -> bool;

/// The string-valued entries of the JSON object that valid text `t` parses to.
pub uninterp spec fn entries_of_text(t: Seq<char>) -> Map<Seq<char>, Seq<char>>;

/// The non-null keys of the JSON object that valid text `t` parses to.
pub uninterp spec fn keys_of_text(t: Seq<char>) -> Set<Seq<char>>;

/// Relies on `serde_json::from_str`: parses JSON text into a `Value`; `None`
/// exactly when the text is not valid JSON. The parse is deterministic — a
/// function of the text alone — so its success and what the parsed object
/// holds are named and tied to the text here.
#[verifier::external_body]
fn parse_index(text: &str) -> (r: Option<serde_json::Value>)
    ensures
        r is Some <==> index_text_parses(text@),
        r is Some ==> index_entries(r->0) == entries_of_text(text@) && index_keys(r->0)
            == keys_of_text(text@),
{
    serde_json::from_str(text).ok()
}

/// Relies on `serde_json::Value::get` and `Value::as_str`: the string entry of
/// a JSON object at the given key; `None` when the value is not an object, has
/// no such entry, or the entry is not a string.
#[verifier::external_body]
fn index_lookup(v: &serde_json::Value, key: &str) -> (r: Option<String>)
    ensures
        match r {
            Some(s) => index_entries(*v).dom().contains(key@) && s@ == index_entries(*v)[key@]
                && index_keys(*v).contains(key@),
            None => !index_entries(*v).dom().contains(key@),
        },
{
    match v.get(key) {
        Some(entry) => match entry.as_str() {
            Some(s) => Some(s.to_string()),
            None => None,
        },
        None => None,
    }
}

/// Relies on serde_json's `Index<&str>` impl for `Value` and `Value::is_null`:
/// whether the JSON object has a non-null entry at the given key. A string
/// entry is never null, so every key of `index_entries` is reported present.
#[verifier::external_body]
fn index_has_key(v: &serde_json::Value, key: &str) -> (r: bool)
    ensures
        r == index_keys(*v).contains(key@),
        index_entries(*v).dom().contains(key@) ==> r,
{
    !v[key].is_null()
}

/// Mathematical model of the store: the descriptor records in order, and the
/// alias/name index as its string entries and its set of known keys.
#[verifier::ext_equal]
pub struct StoreModel {
    pub descriptors: Seq<CommandModel>,
    pub entries: Map<Seq<char>, Seq<char>>,
    pub keys: Set<Seq<char>>,
}

/// First descriptor whose formal name is `name`, if any.
pub open spec fn lookup_cmd(cmds: Seq<CommandModel>, name: Seq<char>) -> Option<CommandModel>
    decreases cmds.len(),
{
    if cmds.len() == 0 {
        None
    } else if cmds[0].name == name {
        Some(cmds[0])
    } else {
        lookup_cmd(cmds.skip(1), name)
    }
}

/// No two descriptors share a formal name.
pub open spec fn unique_names(cmds: Seq<CommandModel>) -> bool {
    forall|i: int, j: int| 0 <= i < j < cmds.len() ==> cmds[i].name != cmds[j].name
}

impl StoreModel {
    pub open spec fn wf(self) -> bool {
        unique_names(self.descriptors)
    }

    /// Descriptor lookup with alias indirection: direct lookup by name first;
    /// failing that, the name is read as an alias and its formal name, when
    /// the index gives one, is looked up directly.
    pub open spec fn resolve_name(self, name: Seq<char>) -> Option<CommandModel> {
        match lookup_cmd(self.descriptors, name) {
            Some(d) => Some(d),
            None => if self.entries.dom().contains(name) {
                lookup_cmd(self.descriptors, self.entries[name])
            } else {
                None
            },
        }
    }
}

/// An in-memory command descriptor store, built once by the hosting process
/// and consulted by resolution.
pub struct CommandStore {
    commands: Vec<Command>,
    index: serde_json::Value,
}

impl View for CommandStore {
    type V = StoreModel;

    closed spec fn view(&self) -> StoreModel {
        StoreModel {
            descriptors: self.commands.deep_view(),
            entries: index_entries(self.index),
            keys: index_keys(self.index),
        }
    }
}

fn names_unique(commands: &Vec<Command>) -> (r: bool)
    ensures
        r == unique_names(commands.deep_view()),
{
    let n = commands.len();
    let mut i: usize = 0;
    while i < n
        invariant
            i <= n,
            n == commands.len(),
            forall|a: int, b: int|
                0 <= a < b < i ==> commands.deep_view()[a].name != commands.deep_view()[b].name,
        decreases n - i,
    {
        let mut j: usize = 0;
        while j < i
            invariant
                j <= i,
                i < n,
                n == commands.len(),
                forall|b: int|
                    0 <= b < j ==> commands.deep_view()[b].name != commands.deep_view()[i as int].name,
            decreases i - j,
        {
            if str_eq(commands[j].name().as_str(), commands[i].name().as_str()) {
                proof {
                    assert(commands.deep_view()[j as int] == commands@[j as int]@);
                    assert(commands.deep_view()[i as int] == commands@[i as int]@);
                    assert(!unique_names(commands.deep_view()));
                }
                return false;
            }
            j += 1;
        }
        i += 1;
    }
    true
}

impl CommandStore {
    /// Builds a store around an already-parsed alias/name index: succeeds
    /// exactly when no two descriptors share a formal name.
    pub fn from_index_value(commands: Vec<Command>, index: serde_json::Value) -> (r: Option<
        CommandStore,
    >)
        ensures
            r is Some <==> unique_names(commands.deep_view()),
            r is Some ==> (r->0)@ == (StoreModel {
                descriptors: commands.deep_view(),
                entries: index_entries(index),
                keys: index_keys(index),
            }) && (r->0)@.wf(),
    {
        if !names_unique(&commands) {
            return None;
        }
        Some(CommandStore { commands, index })
    }

    /// Builds a store from descriptor records and the JSON text of the
    /// alias/name index: succeeds exactly when the text is valid JSON and no
    /// two descriptors share a formal name, and the store then holds the
    /// records as given and the index the text describes.
    pub fn from_parts(commands: Vec<Command>, index_text: &str) -> (r: Option<CommandStore>)
        ensures
            r is Some <==> (index_text_parses(index_text@) && unique_names(
                commands.deep_view(),
            )),
            r is Some ==> (r->0)@ == (StoreModel {
                descriptors: commands.deep_view(),
                entries: entries_of_text(index_text@),
                keys: keys_of_text(index_text@),
            }) && (r->0)@.wf(),
    {
        match parse_index(index_text) {
            Some(index) => Self::from_index_value(commands, index),
            None => None,
        }
    }

    /// The descriptor records, in order.
    pub fn commands(&self) -> (r: &Vec<Command>)
        ensures
            r.deep_view() == self@.descriptors,
    {
        &self.commands
    }

    /// Direct descriptor lookup by formal name.
    pub(crate) fn find_by_name(&self, name: &str) -> (r: Option<&Command>)
        ensures
            match r {
                Some(c) => lookup_cmd(self@.descriptors, name@) == Some(c@),
                None => lookup_cmd(self@.descriptors, name@) is None,
            },
    {
        let n = self.commands.len();
        let mut i: usize = 0;
        proof {
            assert(self@.descriptors.skip(0) =~= self@.descriptors);
        }
        while i < n
            invariant
                i <= n,
                n == self.commands.len(),
                lookup_cmd(self@.descriptors, name@) == lookup_cmd(
                    self@.descriptors.skip(i as int),
                    name@,
                ),
            decreases n - i,
        {
            proof {
                assert(self@.descriptors.skip(i as int)[0] == self@.descriptors[i as int]);
                assert(self@.descriptors.skip(i as int).skip(1) =~= self@.descriptors.skip(i + 1));
            }
            if str_eq(self.commands[i].name().as_str(), name) {
                return Some(&self.commands[i]);
            }
            i += 1;
        }
        proof {
            assert(self@.descriptors.skip(n as int) =~= Seq::<CommandModel>::empty());
        }
        None
    }

    /// The formal name the alias/name index maps `name` to, if it has a
    /// string entry for it.
    pub(crate) fn alias_target(&self, name: &str) -> (r: Option<String>)
        ensures
            match r {
                Some(t) => self@.entries.dom().contains(name@) && t@ == self@.entries[name@],
                None => !self@.entries.dom().contains(name@),
            },
    {
        index_lookup(&self.index, name)
    }

    /// Whether the alias/name index knows `name` (as a name or an alias).
    pub(crate) fn has_key(&self, name: &str) -> (r: bool)
        ensures
            r == self@.keys.contains(name@),
            self@.entries.dom().contains(name@) ==> r,
    {
        index_has_key(&self.index, name)
    }
}

/// A successful lookup returns a descriptor that carries the looked-up name
/// and occurs among the records.
pub proof fn lemma_lookup_cmd_found(cmds: Seq<CommandModel>, name: Seq<char>, d: CommandModel)
    requires
        lookup_cmd(cmds, name) == Some(d),
    ensures
        d.name == name,
        exists|i: int| 0 <= i < cmds.len() && cmds[i] == d,
    decreases cmds.len(),
{
    if cmds.len() == 0 {
    } else if cmds[0].name == name {
        assert(cmds[0] == d);
    } else {
        lemma_lookup_cmd_found(cmds.skip(1), name, d);
        let i = choose|i: int| 0 <= i < cmds.skip(1).len() && cmds.skip(1)[i] == d;
        assert(cmds[i + 1] == d);
    }
}

/// With unique formal names, looking up the name of the record at `i`
/// returns exactly that record.
pub proof fn lemma_lookup_cmd_at(cmds: Seq<CommandModel>, i: int)
    requires
        unique_names(cmds),
        0 <= i < cmds.len(),
    ensures
        lookup_cmd(cmds, cmds[i].name) == Some(cmds[i]),
    decreases cmds.len(),
{
    if i == 0 {
    } else {
        assert(cmds[0].name != cmds[i].name);
        assert(unique_names(cmds.skip(1))) by {
            assert forall|a: int, b: int| 0 <= a < b < cmds.skip(1).len() implies cmds.skip(1)[
                a
            ].name != cmds.skip(1)[b].name by {
                assert(cmds.skip(1)[a] == cmds[a + 1]);
                assert(cmds.skip(1)[b] == cmds[b + 1]);
            }
        }
        lemma_lookup_cmd_at(cmds.skip(1), i - 1);
        assert(cmds.skip(1)[i - 1] == cmds[i]);
    }
}

} // verus!

//! The command registry: the in-memory binding from a command's formal name
//! to its behavior, built once at startup by the hosting process.

use vstd::prelude::*;

use crate::command::CommandKind;
use crate::store::{CommandStore, StoreModel};
use crate::text::str_eq;

verus! {

/// First registered behavior whose descriptor carries the formal name `name`,
/// if any.
pub open spec fn lookup_kind(entries: Seq<CommandKind>, name: Seq<char>) -> Option<CommandKind>
    decreases entries.len(),
{
    if entries.len() == 0 {
        None
    } else if entries[0].command_model().name == name {
        Some(entries[0])
    } else {
        lookup_kind(entries.skip(1), name)
    }
}

/// Every descriptor the store holds has a behavior registered under its
/// formal name.
pub open spec fn registry_covers(entries: Seq<CommandKind>, store: StoreModel) -> bool {
    forall|i: int|
        0 <= i < store.descriptors.len() ==> #[trigger] lookup_kind(
            entries,
            store.descriptors[i].name,
        ) is Some
}

/// An in-memory mapping from a command's formal name to its behavior.
pub struct Registry {
    entries: Vec<CommandKind>,
}

impl View for Registry {
    type V = Seq<CommandKind>;

    closed spec fn view(&self) -> Seq<CommandKind> {
        self.entries@
    }
}

impl Registry {
    pub fn new() -> (r: Registry)
        ensures
            r@ == Seq::<CommandKind>::empty(),
    {
        Registry { entries: Vec::new() }
    }

    /// Binds a behavior to the formal name of the descriptor it holds.
    pub fn register(&mut self, behavior: CommandKind)
        ensures
            final(self)@ == old(self)@.push(behavior),
    {
        self.entries.push(behavior);
    }

    /// The behavior registered under the formal name `name`, if any.
    pub fn find_behavior(&self, name: &str) -> (r: Option<&CommandKind>)
        ensures
            match r {
                Some(k) => lookup_kind(self@, name@) == Some(*k),
                None => lookup_kind(self@, name@) is None,
            },
    {
        let n = self.entries.len();
        let mut i: usize = 0;
        proof {
            assert(self@.skip(0) =~= self@);
        }
        while i < n
            invariant
                i <= n,
                n == self.entries.len(),
                lookup_kind(self@, name@) == lookup_kind(self@.skip(i as int), name@),
            decreases n - i,
        {
            proof {
                assert(self@.skip(i as int)[0] == self@[i as int]);
                assert(self@.skip(i as int).skip(1) =~= self@.skip(i + 1));
            }
            if str_eq(self.entries[i].held_command().name().as_str(), name) {
                return Some(&self.entries[i]);
            }
            i += 1;
        }
        proof {
            assert(self@.skip(n as int) =~= Seq::<CommandKind>::empty());
        }
        None
    }

    /// Checks that this registry binds a behavior to every descriptor of the
    /// store: the invariant dispatch relies on. The hosting process calls this
    /// once, after registration.
    pub fn covers_store(&self, store: &CommandStore) -> (r: bool)
        ensures
            r == registry_covers(self@, store@),
    {
        let commands = store.commands();
        let n = commands.len();
        let mut i: usize = 0;
        while i < n
            invariant
                i <= n,
                n == commands.len(),
                commands.deep_view() == store@.descriptors,
                forall|j: int|
                    0 <= j < i ==> #[trigger] lookup_kind(
                        self@,
                        store@.descriptors[j].name,
                    ) is Some,
            decreases n - i,
        {
            proof {
                assert(commands.deep_view()[i as int] == commands@[i as int]@);
            }
            match self.find_behavior(commands[i].name().as_str()) {
                Some(_) => (),
                None => {
                    return false;
                },
            }
            i += 1;
        }
        true
    }
}

} // verus!

//! The set of actions that an entity supports. What two entities have in
//! common is what the one can do to the other.

use vstd::prelude::*;
use bevy::utils::HashSet;
use crate::event::ActionType;

verus! {

/// The codes of a set of actions, kept in a hash set of bevy's utilities.
#[verifier::external_body]
#[derive(Debug)]
pub struct ActionTable {
    inner: HashSet<u8>,
}

/// The codes that a table holds.
pub uninterp spec fn table_codes(table: ActionTable) -> Set<u8>;

/// `HashSet::default` of hashbrown, as bevy re-exports it: a set that holds
/// nothing.
#[verifier::external_body]
fn table_new() -> (table: ActionTable)
    ensures
        table_codes(table) == Set::<u8>::empty(),
{
    ActionTable { inner: HashSet::default() }
}

/// `HashSet::insert` of hashbrown: the set holds the value afterwards, and
/// what comes back says whether it was new to the set.
#[verifier::external_body]
fn table_insert(table: &mut ActionTable, code: u8) -> (fresh: bool)
    ensures
        table_codes(*final(table)) == table_codes(*old(table)).insert(code),
        fresh == !table_codes(*old(table)).contains(code),
{
    table.inner.insert(code)
}

/// `HashSet::remove` of hashbrown: the set does not hold the value
/// afterwards, and what comes back says whether it did before.
#[verifier::external_body]
fn table_remove(table: &mut ActionTable, code: u8) -> (held: bool)
    ensures
        table_codes(*final(table)) == table_codes(*old(table)).remove(code),
        held == table_codes(*old(table)).contains(code),
{
    table.inner.remove(&code)
}

/// `HashSet::contains` of hashbrown: whether the set holds the value.
#[verifier::external_body]
fn table_contains(table: &ActionTable, code: u8) -> (held: bool)
    ensures
        held == table_codes(*table).contains(code),
{
    table.inner.contains(&code)
}

/// `Clone::clone` of hashbrown's `HashSet`: a set that holds the same values.
#[verifier::external_body]
fn table_clone(table: &ActionTable) -> (copy: ActionTable)
    ensures
        table_codes(copy) == table_codes(*table),
{
    ActionTable { inner: table.inner.clone() }
}

impl ActionType {
    /// The code of the action in a set of actions.
    pub open spec fn spec_code(self) -> u8 {
        match self {
            ActionType::NoAction => 0,
            ActionType::Examine => 1,
            ActionType::MoveItem => 2,
            ActionType::DropItem => 3,
            ActionType::UseItem => 4,
            ActionType::KillItem => 5,
            ActionType::OpenItem => 6,
            ActionType::CloseItem => 7,
            ActionType::LockItem => 8,
            ActionType::UnlockItem => 9,
        }
    }

    /// The action that has the code, if one has it.
    pub open spec fn spec_from_code(code: u8) -> Option<ActionType> {
        if code == 0 {
            Some(ActionType::NoAction)
        } else if code == 1 {
            Some(ActionType::Examine)
        } else if code == 2 {
            Some(ActionType::MoveItem)
        } else if code == 3 {
            Some(ActionType::DropItem)
        } else if code == 4 {
            Some(ActionType::UseItem)
        } else if code == 5 {
            Some(ActionType::KillItem)
        } else if code == 6 {
            Some(ActionType::OpenItem)
        } else if code == 7 {
            Some(ActionType::CloseItem)
        } else if code == 8 {
            Some(ActionType::LockItem)
        } else if code == 9 {
            Some(ActionType::UnlockItem)
        } else {
            None
        }
    }

    /// The code of the action in a set of actions.
    pub fn code(self) -> (code: u8)
        ensures
            code == self.spec_code(),
            code < ACTION_KINDS,
            ActionType::spec_from_code(code) == Some(self),
    {
        match self {
            ActionType::NoAction => 0,
            ActionType::Examine => 1,
            ActionType::MoveItem => 2,
            ActionType::DropItem => 3,
            ActionType::UseItem => 4,
            ActionType::KillItem => 5,
            ActionType::OpenItem => 6,
            ActionType::CloseItem => 7,
            ActionType::LockItem => 8,
            ActionType::UnlockItem => 9,
        }
    }

    /// The action that has the code, if one has it.
    pub fn from_code(code: u8) -> (action: Option<ActionType>)
        ensures
            action == ActionType::spec_from_code(code),
            action.is_some() == (code < ACTION_KINDS),
            action matches Some(a) ==> a.spec_code() == code,
    {
        match code {
            0 => Some(ActionType::NoAction),
            1 => Some(ActionType::Examine),
            2 => Some(ActionType::MoveItem),
            3 => Some(ActionType::DropItem),
            4 => Some(ActionType::UseItem),
            5 => Some(ActionType::KillItem),
            6 => Some(ActionType::OpenItem),
            7 => Some(ActionType::CloseItem),
            8 => Some(ActionType::LockItem),
            9 => Some(ActionType::UnlockItem),
            _ => None,
        }
    }
}

/// The number of kinds of action; their codes are the numbers below it.
pub const ACTION_KINDS: u8 = 10;

/// The actions that an entity supports.
#[derive(Debug)]
pub struct ActionSet {
    pub actions: ActionTable,
    /// Whether the set has to be worked out again.
    pub outdated: bool,
}

impl ActionSet {
    /// Whether the set holds the action.
    pub open spec fn spec_contains(&self, action: ActionType) -> bool {
        table_codes(self.actions).contains(action.spec_code())
    }

    /// An empty set that is marked as outdated.
    pub fn new() -> (set: ActionSet)
        ensures
            set.outdated,
            forall|action: ActionType| !set.spec_contains(action),
    {
        ActionSet { actions: table_new(), outdated: true }
    }

    /// Adds an action. Returns whether the set did not have it.
    pub fn insert(&mut self, action: ActionType) -> (fresh: bool)
        ensures
            fresh == !old(self).spec_contains(action),
            final(self).outdated == old(self).outdated,
            forall|other: ActionType|
                final(self).spec_contains(other) == (other == action || old(self).spec_contains(
                    other,
                )),
    {
        let fresh = table_insert(&mut self.actions, action.code());
        fresh
    }

    /// Takes an action out. Returns whether the set had it.
    pub fn remove(&mut self, action: ActionType) -> (held: bool)
        ensures
            held == old(self).spec_contains(action),
            final(self).outdated == old(self).outdated,
            forall|other: ActionType|
                final(self).spec_contains(other) == (other != action && old(self).spec_contains(
                    other,
                )),
    {
        let held = table_remove(&mut self.actions, action.code());
        held
    }

    /// Whether the set holds the action.
    pub fn contains(&self, action: ActionType) -> (held: bool)
        ensures
            held == self.spec_contains(action),
    {
        table_contains(&self.actions, action.code())
    }

    /// A copy of the set.
    pub fn copy(&self) -> (set: ActionSet)
        ensures
            set.outdated == self.outdated,
            forall|action: ActionType| set.spec_contains(action) == self.spec_contains(action),
    {
        ActionSet { actions: table_clone(&self.actions), outdated: self.outdated }
    }

    /// The actions that both sets hold, in the order of their codes: what
    /// the owner of the one set can do to the owner of the other.
    pub fn common(&self, other: &ActionSet) -> (shared: Vec<ActionType>)
        ensures
            forall|action: ActionType|
                shared@.contains(action) == (self.spec_contains(action) && other.spec_contains(
                    action,
                )),
            forall|i: int, j: int|
                0 <= i < j < shared@.len() ==> shared@[i].spec_code() < shared@[j].spec_code(),
    {
        let mut shared: Vec<ActionType> = Vec::new();
        let mut code: u8 = 0;
        while code < ACTION_KINDS
            invariant
                code <= ACTION_KINDS,
                forall|i: int| 0 <= i < shared@.len() ==> (#[trigger] shared@[i]).spec_code() < code,
                forall|i: int, j: int|
                    0 <= i < j < shared@.len() ==> shared@[i].spec_code() < shared@[j].spec_code(),
                forall|action: ActionType|
                    shared@.contains(action) == (action.spec_code() < code && self.spec_contains(
                        action,
                    ) && other.spec_contains(action)),
            decreases ACTION_KINDS - code,
        {
            let action = ActionType::from_code(code).unwrap();
            let ghost before = shared@;
            if table_contains(&self.actions, code) && table_contains(&other.actions, code) {
                shared.push(action);
            }
            proof {
                assert forall|a: ActionType|
                    shared@.contains(a) == (a.spec_code() < code + 1 && self.spec_contains(a)
                        && other.spec_contains(a)) by {
                    if shared@.len() > before.len() {
                        assert(shared@[before.len() as int] == action);
                        if before.contains(a) {
                            let i = choose|i: int| 0 <= i < before.len() && before[i] == a;
                            assert(shared@[i] == a);
                        }
                    }
                }
            }
            code += 1;
        }
        shared
    }
}

impl Default for ActionSet {
    /// An empty set that is marked as outdated.
    fn default() -> (set: ActionSet)
        ensures
            set.outdated,
            forall|action: ActionType| !set.spec_contains(action),
    {
        ActionSet::new()
    }
}

} // verus!

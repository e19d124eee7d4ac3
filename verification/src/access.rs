//! Who may not use the bot and who may use the owners' commands: the sets
//! of users that are kept in memory beside the database.

use dashmap::DashSet;
use vstd::prelude::*;

verus! {

#[verifier::external_type_specification]
#[verifier::external_body]
#[verifier::reject_recursive_types(K)]
#[verifier::reject_recursive_types(S)]
pub struct ExDashSet<K, S>(DashSet<K, S>);

/// The users that a set holds.
pub uninterp spec fn members(set: DashSet<u64>) -> Set<u64>;

/// `DashSet::new`: a set that holds nothing.
#[verifier::external_body]
fn set_new() -> (set: DashSet<u64>)
    ensures
        members(set) == Set::<u64>::empty(),
{
    DashSet::new()
}

/// `DashSet::contains`: whether the set holds the user.
#[verifier::external_body]
fn set_contains(set: &DashSet<u64>, user: u64) -> (r: bool)
    ensures
        r == members(*set).contains(user),
{
    set.contains(&user)
}

/// `DashSet::insert`: the set holds the user afterwards, and the answer is
/// whether it did not before. Nobody else has the set meanwhile.
#[verifier::external_body]
fn set_insert(set: &mut DashSet<u64>, user: u64) -> (fresh: bool)
    ensures
        members(*final(set)) == members(*old(set)).insert(user),
        fresh == !members(*old(set)).contains(user),
{
    set.insert(user)
}

/// `DashSet::remove`: the set does not hold the user afterwards, and the
/// answer is whether it did before. Nobody else has the set meanwhile.
#[verifier::external_body]
fn set_remove(set: &mut DashSet<u64>, user: u64) -> (held: bool)
    ensures
        members(*final(set)) == members(*old(set)).remove(user),
        held == members(*old(set)).contains(user),
{
    set.remove(&user).is_some()
}

/// The users of `list`.
pub open spec fn users_of(list: Seq<u64>) -> Set<u64> {
    Set::new(|u: u64| list.contains(u))
}

/// The users of a list with one more entry are those of the list and the
/// one more.
proof fn lemma_users_push(list: Seq<u64>, user: u64)
    ensures
        users_of(list.push(user)) == users_of(list).insert(user),
{
    let longer = list.push(user);
    assert forall|u: u64| users_of(longer).contains(u) == users_of(list).insert(user).contains(u) by {
        if longer.contains(u) {
            let k = choose|k: int| 0 <= k < longer.len() && longer[k] == u;
            if k < list.len() {
                assert(list[k] == u);
            }
        }
        if list.contains(u) {
            let k = choose|k: int| 0 <= k < list.len() && list[k] == u;
            assert(longer[k] == u);
        }
        if u == user {
            assert(longer[list.len() as int] == u);
        }
    }
    assert(users_of(longer) =~= users_of(list).insert(user));
}

fn collect(list: &Vec<u64>) -> (set: DashSet<u64>)
    ensures
        members(set) == users_of(list@),
{
    let mut set = set_new();
    let mut i: usize = 0;
    while i < list.len()
        invariant
            i <= list.len(),
            members(set) == users_of(list@.take(i as int)),
        decreases list.len() - i,
    {
        set_insert(&mut set, list[i]);
        proof {
            assert(list@.take(i + 1) =~= list@.take(i as int).push(list@[i as int]));
            lemma_users_push(list@.take(i as int), list@[i as int]);
        }
        i += 1;
    }
    assert(list@.take(i as int) =~= list@);
    set
}

/// The users who may not use the bot.
pub struct BanList {
    users: DashSet<u64>,
}

impl View for BanList {
    type V = Set<u64>;

    closed spec fn view(&self) -> Set<u64> {
        members(self.users)
    }
}

impl BanList {
    /// The list of the users that the database names as banned.
    pub fn new(banned: &Vec<u64>) -> (list: BanList)
        ensures
            list@ == users_of(banned@),
    {
        BanList { users: collect(banned) }
    }

    /// Whether the user may not use the bot.
    #[must_use]
    pub fn is_banned(&self, user_id: u64) -> (r: bool)
        ensures
            r == self@.contains(user_id),
    {
        set_contains(&self.users, user_id)
    }

    /// Bans the user, or lifts the ban, and answers whether the user was
    /// banned before. The database is to be written where the answer is not
    /// `banned`.
    pub fn set_banned(&mut self, user_id: u64, banned: bool) -> (was: bool)
        ensures
            was == old(self)@.contains(user_id),
            final(self)@ == if banned {
                old(self)@.insert(user_id)
            } else {
                old(self)@.remove(user_id)
            },
    {
        if banned == set_contains(&self.users, user_id) {
            proof {
                if banned {
                    assert(self@.insert(user_id) =~= self@);
                } else {
                    assert(self@.remove(user_id) =~= self@);
                }
            }
            return banned;
        }
        if banned {
            !set_insert(&mut self.users, user_id)
        } else {
            set_remove(&mut self.users, user_id)
        }
    }
}

/// The users who may use every command of the owners.
pub struct Checks {
    owners_all: DashSet<u64>,
}

impl View for Checks {
    type V = Set<u64>;

    closed spec fn view(&self) -> Set<u64> {
        members(self.owners_all)
    }
}

impl Checks {
    /// The users that the database names as owners of every command.
    pub fn new(owners: &Vec<u64>) -> (checks: Checks)
        ensures
            checks@ == users_of(owners@),
    {
        Checks { owners_all: collect(owners) }
    }

    /// Whether the user may use a command of the owners: as an owner of
    /// every command, or because the command was handed to the user, which
    /// `holds_command` says.
    #[must_use]
    pub fn check_owner(&self, user_id: u64, holds_command: bool) -> (r: bool)
        ensures
            r == (self@.contains(user_id) || holds_command),
    {
        if set_contains(&self.owners_all, user_id) {
            return true;
        }
        holds_command
    }

    /// Whether the user is an owner of every command already, so that
    /// nothing is to be written.
    pub fn is_owner(&self, user_id: u64) -> (r: bool)
        ensures
            r == self@.contains(user_id),
    {
        set_contains(&self.owners_all, user_id)
    }

    /// Makes the user an owner of every command, once the database has
    /// taken it, and answers whether the user was one before.
    pub fn set_owner(&mut self, user_id: u64) -> (was: bool)
        ensures
            was == old(self)@.contains(user_id),
            final(self)@ == old(self)@.insert(user_id),
    {
        !set_insert(&mut self.owners_all, user_id)
    }

    /// Takes the user off the owners of every command, once the database
    /// has done so, and answers whether the user was one before.
    pub fn remove_owner(&mut self, user_id: u64) -> (was: bool)
        ensures
            was == old(self)@.contains(user_id),
            final(self)@ == old(self)@.remove(user_id),
    {
        set_remove(&mut self.owners_all, user_id)
    }
}

} // verus!

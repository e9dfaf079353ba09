//! The registrar's table: under which address each user can be reached.

use vstd::prelude::*;
use crate::peer_address::PeerAddress;

verus! {

#[derive(Debug)]
struct Registration {
    user: String,
    address: PeerAddress,
}

/// Manages registrations: one address at most for each user name.
#[derive(Debug)]
pub struct Registrations {
    entries: Vec<Registration>,
}

/// The entry at place `i` is the one of user `user`.
spec fn is_entry_of(entries: Seq<Registration>, user: Seq<char>, i: int) -> bool {
    0 <= i < entries.len() && entries[i].user@ == user
}

/// No user has two entries.
spec fn distinct_users(entries: Seq<Registration>) -> bool {
    forall|i: int, j: int|
        0 <= i < j < entries.len() ==> (#[trigger] entries[i]).user@ != (#[trigger] entries[j]).user@
}

/// The mapping that the entries stand for.
spec fn mapping(entries: Seq<Registration>) -> Map<Seq<char>, PeerAddress> {
    Map::new(
        |user: Seq<char>| exists|i: int| is_entry_of(entries, user, i),
        |user: Seq<char>| entries[choose|i: int| is_entry_of(entries, user, i)].address,
    )
}

/// Where users are distinct, the entry of a user is the only one, and the
/// mapping gives its address.
proof fn lemma_mapping_at(entries: Seq<Registration>, i: int)
    requires
        distinct_users(entries),
        0 <= i < entries.len(),
    ensures
        mapping(entries).contains_key(entries[i].user@),
        mapping(entries)[entries[i].user@] == entries[i].address,
{
    let user = entries[i].user@;
    assert(is_entry_of(entries, user, i));
    let k = choose|k: int| is_entry_of(entries, user, k);
    assert(is_entry_of(entries, user, k));
    if k < i {
        assert(entries[k].user@ != entries[i].user@);
    } else if i < k {
        assert(entries[i].user@ != entries[k].user@);
    }
}

/// The place of the entry of `user`.
fn position(entries: &Vec<Registration>, user: &String) -> (r: Option<usize>)
    ensures
        match r {
            Some(i) => is_entry_of(entries@, user@, i as int),
            None => !mapping(entries@).contains_key(user@),
        },
{
    let mut i: usize = 0;
    while i < entries.len()
        invariant
            i <= entries.len(),
            forall|j: int| 0 <= j < i ==> !is_entry_of(entries@, user@, j),
        decreases entries.len() - i,
    {
        if entries[i].user == *user {
            return Some(i);
        }
        i += 1;
    }
    None
}

impl View for Registrations {
    type V = Map<Seq<char>, PeerAddress>;

    /// The address of each registered user.
    closed spec fn view(&self) -> Map<Seq<char>, PeerAddress> {
        mapping(self.entries@)
    }
}

/// One use of the table of registrations.
pub enum RegistrationOp {
    /// `register_user`: a `REGISTER` that asks for a time above zero.
    Register { user: Seq<char>, address: PeerAddress },
    /// `unregister_user`: a `REGISTER` that asks for the time zero.
    Unregister { user: Seq<char> },
}

impl RegistrationOp {
    /// The user that the use is about.
    pub open spec fn user(self) -> Seq<char> {
        match self {
            RegistrationOp::Register { user, .. } => user,
            RegistrationOp::Unregister { user } => user,
        }
    }

    /// The registrations after the use.
    pub open spec fn apply(self, table: Map<Seq<char>, PeerAddress>) -> Map<
        Seq<char>,
        PeerAddress,
    > {
        match self {
            RegistrationOp::Register { user, address } => table.insert(user, address),
            RegistrationOp::Unregister { user } => table.remove(user),
        }
    }
}

/// The registrations after a sequence of uses.
pub open spec fn registrations_after(
    table: Map<Seq<char>, PeerAddress>,
    ops: Seq<RegistrationOp>,
) -> Map<Seq<char>, PeerAddress>
    decreases ops.len(),
{
    if ops.len() == 0 {
        table
    } else {
        ops.last().apply(registrations_after(table, ops.drop_last()))
    }
}

/// What the table says of a user after a sequence of uses is what the most
/// recent use that was about the user left: the address of a registration;
/// nothing after the user was unregistered; and what the table said before
/// where no use was about the user.
pub proof fn lemma_address_of_most_recent(
    table: Map<Seq<char>, PeerAddress>,
    ops: Seq<RegistrationOp>,
    user: Seq<char>,
)
    ensures
        forall|i: int|
            0 <= i < ops.len() && (#[trigger] ops[i]).user() == user && (forall|j: int|
                i < j < ops.len() ==> (#[trigger] ops[j]).user() != user) ==> (match ops[i] {
                RegistrationOp::Register { address, .. } => registrations_after(
                    table,
                    ops,
                ).contains_key(user) && registrations_after(table, ops)[user] == address,
                RegistrationOp::Unregister { .. } => !registrations_after(table, ops).contains_key(
                    user,
                ),
            }),
        (forall|j: int| 0 <= j < ops.len() ==> (#[trigger] ops[j]).user() != user) ==> {
            &&& registrations_after(table, ops).contains_key(user) == table.contains_key(user)
            &&& table.contains_key(user) ==> registrations_after(table, ops)[user] == table[user]
        },
    decreases ops.len(),
{
    if ops.len() > 0 {
        let front = ops.drop_last();
        let n = front.len() as int;
        lemma_address_of_most_recent(table, front, user);
        assert forall|i: int|
            0 <= i < ops.len() && (#[trigger] ops[i]).user() == user && (forall|j: int|
                i < j < ops.len() ==> (#[trigger] ops[j]).user() != user) implies (match ops[i] {
            RegistrationOp::Register { address, .. } => registrations_after(
                table,
                ops,
            ).contains_key(user) && registrations_after(table, ops)[user] == address,
            RegistrationOp::Unregister { .. } => !registrations_after(table, ops).contains_key(
                user,
            ),
        }) by {
            if i < n {
                assert(ops[n].user() != user);
                assert(front[i] == ops[i]);
                assert forall|j: int| i < j < front.len() implies (#[trigger] front[j]).user()
                    != user by {
                    assert(front[j] == ops[j]);
                }
            }
        }
        if forall|j: int| 0 <= j < ops.len() ==> (#[trigger] ops[j]).user() != user {
            assert(ops[n].user() != user);
            assert forall|j: int| 0 <= j < front.len() implies (#[trigger] front[j]).user()
                != user by {
                assert(front[j] == ops[j]);
            }
        }
    }
}

impl Clone for Registrations {
    fn clone(&self) -> (r: Self)
        ensures
            r@ == self@,
    {
        proof {
            use_type_invariant(self);
        }
        let mut entries: Vec<Registration> = Vec::new();
        let mut i: usize = 0;
        while i < self.entries.len()
            invariant
                i <= self.entries.len(),
                entries.len() == i,
                forall|j: int| 0 <= j < i ==> entries[j] == self.entries[j],
            decreases self.entries.len() - i,
        {
            let entry = &self.entries[i];
            entries.push(Registration { user: entry.user.clone(), address: entry.address });
            i += 1;
        }
        assert(entries@ =~= self.entries@);
        Registrations { entries }
    }
}

impl Default for Registrations {
    fn default() -> (r: Self)
        ensures
            r@ == Map::<Seq<char>, PeerAddress>::empty(),
    {
        Self::new()
    }
}

impl Registrations {
    #[verifier::type_invariant]
    spec fn distinct(self) -> bool {
        distinct_users(self.entries@)
    }

    /// A table without registrations.
    pub fn new() -> (r: Self)
        ensures
            r@ == Map::<Seq<char>, PeerAddress>::empty(),
    {
        let r = Registrations { entries: Vec::new() };
        assert(r@ =~= Map::<Seq<char>, PeerAddress>::empty());
        r
    }


    /// Registers a new user or updates an existing user's address.
    /// Returns `true` if `user` is new.
    pub fn register_user(&mut self, user: String, address: PeerAddress) -> (r: bool)
        ensures
            r == !old(self)@.contains_key(user@),
            final(self)@ == old(self)@.insert(user@, address),
    {
        proof {
            use_type_invariant(&*self);
        }
        let ghost before = self.entries@;
        let mut entries: Vec<Registration> = Vec::new();
        core::mem::swap(&mut self.entries, &mut entries);
        let is_new = match position(&entries, &user) {
            Some(i) => {
                proof {
                    lemma_mapping_at(before, i as int);
                }
                if entries[i].address != address {
                    let entry = Registration { user, address };
                    entries.set(i, entry);
                }
                proof {
                    let after = entries@;
                    assert forall|u: Seq<char>, k: int|
                        is_entry_of(after, u, k) <==> is_entry_of(before, u, k) by {}
                    assert forall|u: Seq<char>| #[trigger]
                        mapping(after).contains_key(u) implies mapping(after)[u] == mapping(
                        before,
                    ).insert(user@, address)[u] by {
                        let k = choose|k: int| is_entry_of(after, u, k);
                        assert(is_entry_of(before, u, k));
                        lemma_mapping_at(after, k);
                        lemma_mapping_at(before, k);
                    }
                    assert(mapping(after) =~= mapping(before).insert(user@, address));
                }
                false
            },
            None => {
                let entry = Registration { user, address };
                entries.push(entry);
                proof {
                    let after = entries@;
                    let n = before.len() as int;
                    assert forall|u: Seq<char>, k: int|
                        is_entry_of(before, u, k) implies is_entry_of(after, u, k) by {}
                    assert(is_entry_of(after, user@, n));
                    assert(distinct_users(after)) by {
                        assert forall|i: int, j: int| 0 <= i < j < after.len() implies (
                        #[trigger] after[i]).user@ != (#[trigger] after[j]).user@ by {
                            if j == n {
                                assert(is_entry_of(before, after[i].user@, i));
                            }
                        }
                    }
                    assert forall|u: Seq<char>| #[trigger]
                        mapping(before).insert(user@, address).contains_key(u) implies mapping(
                        after,
                    ).contains_key(u) && mapping(after)[u] == mapping(before).insert(
                        user@,
                        address,
                    )[u] by {
                        if u == user@ {
                            lemma_mapping_at(after, n);
                        } else {
                            let k = choose|k: int| is_entry_of(before, u, k);
                            assert(is_entry_of(after, u, k));
                            lemma_mapping_at(after, k);
                            lemma_mapping_at(before, k);
                        }
                    }
                    assert forall|u: Seq<char>| #[trigger]
                        mapping(after).contains_key(u) implies mapping(before).insert(
                        user@,
                        address,
                    ).contains_key(u) by {
                        let k = choose|k: int| is_entry_of(after, u, k);
                        if k < n {
                            assert(is_entry_of(before, u, k));
                        }
                    }
                    assert(mapping(after) =~= mapping(before).insert(user@, address));
                }
                true
            },
        };
        core::mem::swap(&mut self.entries, &mut entries);
        is_new
    }

    /// Returns `true` if `user` was registered, but is no longer registered.
    pub fn unregister_user(&mut self, user: &str) -> (r: bool)
        ensures
            r == old(self)@.contains_key(user@),
            final(self)@ == old(self)@.remove(user@),
            !r ==> final(self)@ == old(self)@,
    {
        proof {
            use_type_invariant(&*self);
        }
        let ghost before = self.entries@;
        let wanted = user.to_owned();
        let mut entries: Vec<Registration> = Vec::new();
        core::mem::swap(&mut self.entries, &mut entries);
        let was_registered = match position(&entries, &wanted) {
            Some(i) => {
                let _ = entries.swap_remove(i);
                proof {
                    let after = entries@;
                    let last = before.len() - 1;
                    assert(is_entry_of(before, user@, i as int));
                    assert forall|k: int| 0 <= k < after.len() implies #[trigger] after[k]
                        == before[if k == i { last } else { k }] by {}
                    assert(distinct_users(after));
                    assert forall|u: Seq<char>| #[trigger]
                        mapping(after).contains_key(u) implies mapping(before).remove(
                        user@,
                    ).contains_key(u) && mapping(after)[u] == mapping(before).remove(user@)[u] by {
                        let k = choose|k: int| is_entry_of(after, u, k);
                        let kb = if k == i { last } else { k };
                        assert(is_entry_of(before, u, kb));
                        lemma_mapping_at(after, k);
                        lemma_mapping_at(before, kb);
                        if kb < i {
                            assert(before[kb].user@ != before[i as int].user@);
                        } else {
                            assert(before[i as int].user@ != before[kb].user@);
                        }
                    }
                    assert forall|u: Seq<char>| #[trigger]
                        mapping(before).remove(user@).contains_key(u) implies mapping(
                        after,
                    ).contains_key(u) by {
                        let kb = choose|k: int| is_entry_of(before, u, k);
                        assert(is_entry_of(before, u, kb));
                        let k = if kb == last { i as int } else { kb };
                        assert(is_entry_of(after, u, k));
                    }
                    assert(mapping(after) =~= mapping(before).remove(user@));
                }
                true
            },
            None => {
                proof {
                    assert(mapping(before).remove(user@) =~= mapping(before));
                }
                false
            },
        };
        core::mem::swap(&mut self.entries, &mut entries);
        was_registered
    }

    /// Returns a given user's address.
    pub fn user_addr(&self, user: &str) -> (r: Option<PeerAddress>)
        ensures
            r == if self@.contains_key(user@) {
                Some(self@[user@])
            } else {
                None::<PeerAddress>
            },
    {
        proof {
            use_type_invariant(self);
        }
        let wanted = user.to_owned();
        match position(&self.entries, &wanted) {
            Some(i) => {
                proof {
                    lemma_mapping_at(self.entries@, i as int);
                }
                Some(self.entries[i].address)
            },
            None => None,
        }
    }
}

} // verus!

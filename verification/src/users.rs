//! The registry of connected players: each connection gets the next id from a
//! counter that starts at 1 and wraps around, and is kept under that id until
//! it disconnects.

use vstd::prelude::*;
use std::collections::HashMap;

verus! {

broadcast use vstd::std_specs::hash::group_hash_axioms;

/// The connected players, each under its id, and the id the next one gets.
pub struct UserRegistry<V> {
    next_id: usize,
    users: HashMap<usize, V>,
}

/// The id after `id`, wrapping around at the top of `usize`.
pub open spec fn following_id(id: usize) -> usize {
    if id == usize::MAX { 0 } else { (id + 1) as usize }
}

impl<V> UserRegistry<V> {
    /// The id the next connection gets.
    pub closed spec fn next(&self) -> usize {
        self.next_id
    }

    /// The connected players by id.
    pub closed spec fn members(&self) -> Map<usize, V> {
        self.users@
    }

    /// Every registered id lies below the next id, so the next id is free.
    /// This holds from the start and as long as the counter has not wrapped.
    pub open spec fn fresh(&self) -> bool {
        forall|k: usize| #[trigger] self.members().contains_key(k) ==> k < self.next()
    }

    /// An empty registry whose first id is 1.
    pub fn new() -> (r: UserRegistry<V>)
        ensures
            r.next() == 1,
            r.members() == Map::<usize, V>::empty(),
            r.fresh(),
    {
        UserRegistry { next_id: 1, users: HashMap::new() }
    }

    /// Registers a connection under the next id, which is returned; a player
    /// already under that id is replaced. In a registry whose next id is
    /// fresh and below the top of `usize` (so the counter has not wrapped),
    /// no player is under that id and the registry stays fresh.
    pub fn register(&mut self, user: V) -> (id: usize)
        ensures
            id == old(self).next(),
            final(self).next() == following_id(id),
            final(self).members() == old(self).members().insert(id, user),
            old(self).fresh() && old(self).next() < usize::MAX ==> {
                &&& !old(self).members().contains_key(id)
                &&& id < final(self).next()
                &&& final(self).fresh()
            },
    {
        let id = self.next_id;
        self.next_id = self.next_id.wrapping_add(1);
        self.users.insert(id, user);
        id
    }

    /// Removes the player under `id`, if any.
    pub fn unregister(&mut self, id: usize)
        ensures
            final(self).next() == old(self).next(),
            final(self).members() == old(self).members().remove(id),
            old(self).fresh() ==> final(self).fresh(),
    {
        self.users.remove(&id);
    }

    /// Whether a player is registered under `id`.
    pub fn contains(&self, id: usize) -> (b: bool)
        ensures
            b == self.members().contains_key(id),
    {
        self.users.contains_key(&id)
    }

    /// How many players are registered.
    pub fn len(&self) -> (n: usize)
        ensures
            n == self.members().len(),
    {
        self.users.len()
    }

    /// The id the next connection gets.
    pub fn next_user_id(&self) -> (id: usize)
        ensures
            id == self.next(),
    {
        self.next_id
    }

    /// The registered players, to hand each of them a message.
    pub fn users(&self) -> (m: &HashMap<usize, V>)
        ensures
            m@ == self.members(),
    {
        &self.users
    }
}

/// A connection that registers and then disconnects leaves the registry's
/// players as they were, when the id it got was free.
pub proof fn lemma_register_unregister<V>(r: UserRegistry<V>, user: V)
    requires
        !r.members().contains_key(r.next()),
    ensures
        r.members().insert(r.next(), user).remove(r.next()) == r.members(),
{
    assert(r.members().insert(r.next(), user).remove(r.next()) =~= r.members());
}

/// Two registrations in a row hand out different ids.
pub proof fn lemma_consecutive_ids_differ<V>(r: UserRegistry<V>)
    ensures
        following_id(r.next()) != r.next(),
{
}

/// The ids handed out by `n` registrations from id `start` on, in order.
pub open spec fn handed_out(start: usize, n: nat) -> Seq<usize>
    decreases n,
{
    if n == 0 {
        Seq::empty()
    } else {
        handed_out(start, (n - 1) as nat).push((start + (n - 1)) as usize)
    }
}

proof fn lemma_handed_out_values(start: usize, n: nat)
    requires
        start + n <= usize::MAX + 1,
    ensures
        handed_out(start, n).len() == n,
        forall|i: int| 0 <= i < n ==> #[trigger] handed_out(start, n)[i] == start + i,
    decreases n,
{
    if n > 0 {
        lemma_handed_out_values(start, (n - 1) as nat);
    }
}

/// Any number of registrations, from a counter that does not wrap on the way,
/// hand out pairwise distinct ids: the `i`-th of them gets `start + i`.
pub proof fn lemma_ids_unique(start: usize, n: nat)
    requires
        start + n <= usize::MAX,
    ensures
        handed_out(start, n).len() == n,
        forall|i: int, j: int|
            0 <= i < j < n ==> #[trigger] handed_out(start, n)[i] != #[trigger] handed_out(start, n)[j],
        forall|i: int| 0 <= i < n ==> #[trigger] handed_out(start, n)[i] == start + i,
        n > 0 ==> following_id(handed_out(start, n)[n - 1]) == start + n,
{
    lemma_handed_out_values(start, n);
}

} // verus!

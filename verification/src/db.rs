//! Book-keeping of the database clients that hold open transactions.
//!
//! A transaction is begun on a pooled client, which is kept aside under a
//! random identifier until the transaction is committed or rolled back.
//! Clients kept longer than [`TXS_CLIENT_TIMEOUT_NANOS`] are discarded by a
//! periodic cleaner.

use vstd::prelude::*;

use std::collections::HashMap;

verus! {

broadcast use vstd::std_specs::hash::group_hash_axioms;

/// Error message when a transaction client is not found.
pub const TX_CLIENT_NOT_FOUND: &'static str = "transaction client not found, it probably timed out";

/// Time a transaction client is kept before timing out: ten seconds, in
/// nanoseconds.
pub const TXS_CLIENT_TIMEOUT_NANOS: i128 = 10_000_000_000;

/// Whether a client kept since `created` has timed out at `now` (both in
/// nanoseconds since the Unix epoch).
pub open spec fn timed_out(created: i128, now: i128) -> bool {
    now - created > TXS_CLIENT_TIMEOUT_NANOS
}

/// Whether a client kept since `created` has timed out at `now`.
pub fn has_timed_out(created: i128, now: i128) -> (r: bool)
    ensures
        r == timed_out(created, now),
{
    if created >= now {
        false
    } else {
        match now.checked_sub(created) {
            Some(elapsed) => elapsed > TXS_CLIENT_TIMEOUT_NANOS,
            None => true,
        }
    }
}

/// The transaction client was not found (it probably timed out).
#[derive(Debug, Clone, Copy, PartialEq, Eq)]
pub struct TxClientNotFound;

impl TxClientNotFound {
    /// The error message.
    pub fn message(&self) -> (m: &'static str)
        ensures
            m@ == TX_CLIENT_NOT_FOUND@,
    {
        TX_CLIENT_NOT_FOUND
    }
}

/// Calls `uuid::Uuid::new_v4` and returns the UUID as its 128-bit value. The
/// identifier is random: nothing is claimed of it.
#[verifier::external_body]
fn new_client_id() -> u128 {
    uuid::Uuid::new_v4().as_u128()
}

/// Clients holding an open transaction, by identifier, with the time (in
/// nanoseconds since the Unix epoch) each was kept at.
pub struct TxRegistry<C> {
    clients: HashMap<u128, (C, i128)>,
}

impl<C> View for TxRegistry<C> {
    type V = Map<u128, (C, i128)>;

    closed spec fn view(&self) -> Map<u128, (C, i128)> {
        self.clients@
    }
}

/// The clients of `m` that have not timed out at `now`.
pub open spec fn live_clients<C>(m: Map<u128, (C, i128)>, now: i128) -> Map<u128, (C, i128)> {
    m.restrict(m.dom().filter(|id: u128| !timed_out(m[id].1, now)))
}

/// A client that has not timed out survives the cleaner unchanged.
pub proof fn law_live_client_kept<C>(m: Map<u128, (C, i128)>, id: u128, now: i128)
    requires
        m.contains_key(id),
        !timed_out(m[id].1, now),
    ensures
        live_clients(m, now).contains_key(id),
        live_clients(m, now)[id] == m[id],
{
}

/// A client that has timed out is gone after the cleaner ran, and the
/// cleaner never makes up clients.
pub proof fn law_timed_out_client_discarded<C>(m: Map<u128, (C, i128)>, id: u128, now: i128)
    requires
        m.contains_key(id) ==> timed_out(m[id].1, now),
    ensures
        !live_clients(m, now).contains_key(id),
{
}

/// The client kept under an identifier is the one taken back with it, and it
/// is not kept any more afterwards.
pub proof fn law_take_after_track<C>(m: Map<u128, (C, i128)>, id: u128, client: C, now: i128)
    ensures
        m.insert(id, (client, now)).contains_key(id),
        m.insert(id, (client, now))[id].0 == client,
        !m.insert(id, (client, now)).remove(id).contains_key(id),
{
}

impl<C> TxRegistry<C> {
    /// An empty registry.
    pub fn new() -> (r: Self)
        ensures
            r@ == Map::<u128, (C, i128)>::empty(),
    {
        TxRegistry { clients: HashMap::new() }
    }

    /// Keeps `client` under `id`, as kept at `now`.
    pub fn track(&mut self, id: u128, client: C, now: i128)
        ensures
            final(self)@ == old(self)@.insert(id, (client, now)),
    {
        self.clients.insert(id, (client, now));
    }

    /// Keeps `client` under a new random identifier, as kept at `now`, and
    /// returns the identifier.
    pub fn begin(&mut self, client: C, now: i128) -> (id: u128)
        ensures
            final(self)@ == old(self)@.insert(id, (client, now)),
    {
        let id = new_client_id();
        self.track(id, client, now);
        id
    }

    /// Takes back the client kept under `id`, to commit or roll back its
    /// transaction; fails when no client is kept under `id`.
    pub fn take(&mut self, id: u128) -> (r: Result<C, TxClientNotFound>)
        ensures
            old(self)@.contains_key(id) ==> r == Ok::<C, TxClientNotFound>(old(self)@[id].0),
            !old(self)@.contains_key(id) ==> r is Err,
            final(self)@ == old(self)@.remove(id),
    {
        match self.clients.remove(&id) {
            Some((client, _)) => Ok(client),
            None => Err(TxClientNotFound),
        }
    }

    /// The client kept under `id`, to run a query inside its transaction;
    /// fails when no client is kept under `id`.
    pub fn get(&self, id: u128) -> (r: Result<&C, TxClientNotFound>)
        ensures
            self@.contains_key(id) ==> r == Ok::<&C, TxClientNotFound>(&self@[id].0),
            !self@.contains_key(id) ==> r is Err,
    {
        match self.clients.get(&id) {
            Some(kept) => Ok(&kept.0),
            None => Err(TxClientNotFound),
        }
    }

    /// Whether a client is kept under `id`.
    pub fn contains(&self, id: u128) -> (r: bool)
        ensures
            r == self@.contains_key(id),
    {
        self.clients.contains_key(&id)
    }

    /// Identifiers of the clients that have timed out at `now`.
    pub fn timed_out_clients(&self, now: i128) -> (ids: Vec<u128>)
        ensures
            ids@.no_duplicates(),
            forall|id: u128|
                ids@.contains(id) <==> self@.contains_key(id) && timed_out(self@[id].1, now),
    {
        let mut ids: Vec<u128> = Vec::new();
        let ghost m = self.clients@;
        for entry in it: self.clients.iter()
            invariant
                m == self.clients@,
                it.seq().no_duplicates(),
                it.seq().len() == m.dom().len(),
                forall|i: int|
                    0 <= i < it.seq().len() ==> m.contains_key(*it.seq()[i].0) && m[*it.seq()[i].0]
                        == *it.seq()[i].1,
                forall|k: u128| #[trigger] m.contains_key(k) ==> it.seq().contains((&k, &m[k])),
                ids@.no_duplicates(),
                forall|id: u128|
                    ids@.contains(id) <==> exists|i: int|
                        0 <= i < it.index() && *it.seq()[i].0 == id && timed_out(m[id].1, now),
        {
            let (id, kept) = entry;
            let ghost i = it.index();
            assert(*it.seq()[i].0 == *id && *it.seq()[i].1 == *kept);
            let ghost old_ids = ids@;
            if has_timed_out(kept.1, now) {
                proof {
                    if ids@.contains(*id) {
                        let j = choose|j: int|
                            0 <= j < it.index() && *it.seq()[j].0 == *id && timed_out(m[*id].1, now);
                        assert(it.seq()[j].0 == it.seq()[i].0);
                        assert(it.seq()[j] == it.seq()[i]);
                    }
                }
                ids.push(*id);
            }
            proof {
                assert forall|x: u128| ids@.contains(x) <==> exists|j: int|
                    0 <= j < i + 1 && *it.seq()[j].0 == x && timed_out(m[x].1, now) by {
                    if exists|j: int| 0 <= j < i + 1 && *it.seq()[j].0 == x && timed_out(m[x].1, now) {
                        let j = choose|j: int|
                            0 <= j < i + 1 && *it.seq()[j].0 == x && timed_out(m[x].1, now);
                        assert(m[*it.seq()[j].0] == *it.seq()[j].1);
                        if j < i {
                            assert(old_ids.contains(x));
                            assert(ids@.contains(x)) by {
                                let k = choose|k: int| 0 <= k < old_ids.len() && old_ids[k] == x;
                                assert(ids@[k] == x);
                            }
                        } else {
                            assert(m[*id] == *kept);
                            assert(timed_out(kept.1, now));
                            assert(ids@[ids@.len() - 1] == x);
                        }
                    }
                    if ids@.contains(x) {
                        let k = choose|k: int| 0 <= k < ids@.len() && ids@[k] == x;
                        if k < old_ids.len() {
                            assert(old_ids[k] == x);
                            assert(old_ids.contains(x));
                            let j = choose|j: int|
                                0 <= j < i && *it.seq()[j].0 == x && timed_out(m[x].1, now);
                            assert(0 <= j < i + 1 && *it.seq()[j].0 == x && timed_out(m[x].1, now));
                        } else {
                            assert(*it.seq()[i].0 == x);
                            assert(m[*id] == *kept);
                            assert(0 <= i < i + 1 && *it.seq()[i].0 == x && timed_out(m[x].1, now));
                        }
                    }
                }
            }
        }
        ids
    }

    /// Discards the clients that have timed out at `now`.
    pub fn discard_timed_out(&mut self, now: i128)
        ensures
            final(self)@ == live_clients(old(self)@, now),
    {
        let ids = self.timed_out_clients(now);
        let ghost m = self@;
        let n = ids.len();
        let mut i: usize = 0;
        while i < n
            invariant
                n == ids@.len(),
                i <= n,
                ids@.no_duplicates(),
                forall|id: u128| ids@.contains(id) <==> m.contains_key(id) && timed_out(m[id].1, now),
                self@ == m.remove_keys(ids@.take(i as int).to_set()),
            decreases n - i,
        {
            self.clients.remove(&ids[i]);
            proof {
                assert(ids@.take(i + 1) =~= ids@.take(i as int).push(ids@[i as int]));
                ids@.take(i as int).lemma_push_to_set_commute(ids@[i as int]);
                assert(self@ =~= m.remove_keys(ids@.take(i + 1).to_set()));
            }
            i = i + 1;
        }
        proof {
            assert(ids@.take(n as int) =~= ids@);
            assert(self@ =~= live_clients(m, now));
        }
    }
}


/// A client times out once more than ten seconds have passed since it was
/// kept: exactly when `now - created` exceeds 10,000,000,000 nanoseconds.
pub proof fn law_client_timeout(created: i128, now: i128)
    ensures
        timed_out(created, now) <==> now - created > 10_000_000_000,
        TXS_CLIENT_TIMEOUT_NANOS == 10_000_000_000,
{
}

} // verus!

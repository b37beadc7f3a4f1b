use std::collections::HashMap;
use vstd::prelude::*;

verus! {

broadcast use vstd::std_specs::hash::group_hash_axioms;

/// Whether a ceremony started at one moment can still be finished at another:
/// no more than its lifetime has passed. Moments and lifetimes are in
/// milliseconds.
pub open spec fn fresh(started_at: i64, now: i64, lifetime: i64) -> bool {
    now - started_at <= lifetime
}

/// Decides whether a ceremony is fresh.
pub fn is_fresh(started_at: i64, now: i64, lifetime: i64) -> (b: bool)
    ensures
        b == fresh(started_at, now, lifetime),
{
    (now as i128) - (started_at as i128) <= (lifetime as i128)
}

/// The state of a pending ceremony, with the moment at which it was started.
pub struct Kept<S> {
    pub state: S,
    pub started_at: i64,
}

/// What is left of the kept ceremonies when the stale ones are dropped.
pub open spec fn fresh_part<S>(kept: Map<u128, Kept<S>>, now: i64, lifetime: i64) -> Map<
    u128,
    Kept<S>,
> {
    Map::new(
        |id: u128| kept.contains_key(id) && fresh(kept[id].started_at, now, lifetime),
        |id: u128| kept[id],
    )
}

/// The pending ceremonies: each identifier stands for at most one state,
/// which is handed out once, while it is fresh, and is gone with that.
pub struct ChallengeStore<S> {
    pending: HashMap<u128, Kept<S>>,
    /// Every identifier under which something is kept, and perhaps others.
    ids: Vec<u128>,
    lifetime: i64,
}

impl<S> View for ChallengeStore<S> {
    type V = Map<u128, Kept<S>>;

    closed spec fn view(&self) -> Map<u128, Kept<S>> {
        self.pending@
    }
}

impl<S> ChallengeStore<S> {
    /// For how long a ceremony can be finished after it was started.
    pub closed spec fn lifetime(&self) -> i64 {
        self.lifetime
    }

    /// Whether the store is consistent: it knows every identifier under
    /// which it keeps something.
    pub closed spec fn well_formed(&self) -> bool {
        forall|id: u128| self.pending@.contains_key(id) ==> self.ids@.contains(id)
    }

    /// A store without pending ceremonies.
    pub fn new(lifetime: i64) -> (store: ChallengeStore<S>)
        ensures
            store.well_formed(),
            store@ == Map::<u128, Kept<S>>::empty(),
            store.lifetime() == lifetime,
    {
        ChallengeStore { pending: HashMap::new(), ids: Vec::new(), lifetime }
    }

    /// The number of ceremonies that are kept, fresh or not.
    pub fn len(&self) -> (n: usize)
        ensures
            n == self@.dom().len(),
    {
        self.pending.len()
    }

    /// Whether a ceremony is kept under an identifier, fresh or not.
    pub fn contains(&self, id: u128) -> (b: bool)
        ensures
            b == self@.contains_key(id),
    {
        self.pending.contains_key(&id)
    }

    /// Keeps the state of a ceremony that starts now under its identifier, in
    /// place of what was kept there.
    pub fn insert(&mut self, id: u128, state: S, now: i64)
        requires
            old(self).well_formed(),
        ensures
            final(self).well_formed(),
            final(self)@ == old(self)@.insert(id, Kept { state, started_at: now }),
            final(self).lifetime() == old(self).lifetime(),
    {
        if self.pending.insert(id, Kept { state, started_at: now }).is_none() {
            self.ids.push(id);
        }
        assert forall|other: u128| self.pending@.contains_key(other) implies self.ids@.contains(
            other,
        ) by {
            vstd::seq_lib::lemma_seq_contains_after_push(old(self).ids@, id, other);
        }
    }

    /// Takes away what is kept under an identifier, and hands out the state
    /// if it is still fresh. A second call finds nothing.
    pub fn take(&mut self, id: u128, now: i64) -> (state: Option<S>)
        requires
            old(self).well_formed(),
        ensures
            final(self).well_formed(),
            state == if old(self)@.contains_key(id) && fresh(
                old(self)@[id].started_at,
                now,
                old(self).lifetime(),
            ) {
                Some(old(self)@[id].state)
            } else {
                None
            },
            final(self)@ == old(self)@.remove(id),
            final(self).lifetime() == old(self).lifetime(),
    {
        match self.pending.remove(&id) {
            Some(kept) => if is_fresh(kept.started_at, now, self.lifetime) {
                Some(kept.state)
            } else {
                None
            },
            None => None,
        }
    }

    /// Drops every ceremony that is stale by now, and keeps the others as
    /// they are.
    pub fn purge(&mut self, now: i64)
        requires
            old(self).well_formed(),
        ensures
            final(self).well_formed(),
            final(self)@ == fresh_part(old(self)@, now, old(self).lifetime()),
            final(self).lifetime() == old(self).lifetime(),
    {
        let ghost before = self.pending@;
        let ghost known = self.ids@;
        let mut moved: HashMap<u128, Kept<S>> = HashMap::new();
        let mut remaining: Vec<u128> = Vec::new();
        let n: usize = self.ids.len();
        let mut i: usize = 0;
        while i < n
            invariant
                i <= n,
                n == self.ids.len(),
                self.ids@ == known,
                self.lifetime == old(self).lifetime,
                forall|id: u128| before.contains_key(id) ==> known.contains(id),
                forall|id: u128| #[trigger]
                    self.pending@.contains_key(id) <==> before.contains_key(id) && !known.take(
                        i as int,
                    ).contains(id),
                forall|id: u128|
                    self.pending@.contains_key(id) ==> #[trigger] self.pending@[id] == before[id],
                forall|id: u128| #[trigger]
                    moved@.contains_key(id) <==> before.contains_key(id) && fresh(
                        before[id].started_at,
                        now,
                        self.lifetime,
                    ) && known.take(i as int).contains(id),
                forall|id: u128| moved@.contains_key(id) ==> #[trigger] moved@[id] == before[id],
                forall|id: u128| moved@.contains_key(id) ==> #[trigger] remaining@.contains(id),
            decreases n - i,
        {
            let id = self.ids[i];
            let ghost seen = known.take(i as int);
            let ghost listed = remaining@;
            assert(known.take(i + 1) =~= seen.push(id));
            assert forall|other: u128| known.take(i + 1).contains(other) <==> seen.contains(other)
                || other == id by {
                vstd::seq_lib::lemma_seq_contains_after_push(seen, id, other);
            }
            match self.pending.remove(&id) {
                Some(kept) => {
                    if is_fresh(kept.started_at, now, self.lifetime) {
                        let _ = moved.insert(id, kept);
                        remaining.push(id);
                        assert forall|other: u128| moved@.contains_key(other) implies #[trigger]
                            remaining@.contains(other) by {
                            vstd::seq_lib::lemma_seq_contains_after_push(listed, id, other);
                        }
                    }
                },
                None => {},
            }
            i = i + 1;
        }
        assert(known.take(n as int) =~= known);
        self.pending = moved;
        self.ids = remaining;
    }
}

} // verus!

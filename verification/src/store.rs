use crate::ident::PollId;
use crate::models::{option_views, well_numbered, Poll, PollOption, PollView};
use vstd::prelude::*;

verus! {

/// The views of a list of polls.
pub open spec fn poll_views(polls: Seq<Poll>) -> Seq<PollView> {
    Seq::new(polls.len(), |i: int| polls[i]@)
}

/// The identifiers of a list of polls, in order.
pub open spec fn ids_of(polls: Seq<PollView>) -> Seq<Option<Seq<u8>>> {
    Seq::new(polls.len(), |i: int| polls[i].id)
}

/// Where the poll with an identifier stands, if there is one.
pub open spec fn locate(polls: Seq<PollView>, id: Seq<u8>) -> Option<int> {
    ids_of(polls).index_of_first(Some(id))
}

/// The poll with an identifier, if there is one.
pub open spec fn fetch(polls: Seq<PollView>, id: Seq<u8>) -> Option<PollView> {
    match locate(polls, id) {
        Some(i) => Some(polls[i]),
        None => None,
    }
}

/// What holds of the polls in a store: each is well formed and carries an
/// identifier, and no identifier occurs twice.
pub open spec fn consistent(polls: Seq<PollView>) -> bool {
    &&& forall|i: int|
        0 <= i < polls.len() ==> (#[trigger] polls[i]).well_formed() && polls[i].id.is_some()
    &&& forall|i: int, j: int|
        0 <= i < polls.len() && 0 <= j < polls.len() && i != j ==> (#[trigger] polls[i]).id != (
        #[trigger] polls[j]).id
}

/// Whether the conditional increment matches: the poll exists, is open, and
/// has the option.
pub open spec fn vote_matches(polls: Seq<PollView>, id: Seq<u8>, option_id: int) -> bool {
    fetch(polls, id) matches Some(poll) && poll.accepts_vote(option_id)
}

/// Whether the conditional increment matches an option whose tally is as high
/// as the store can hold.
pub open spec fn tally_full(polls: Seq<PollView>, id: Seq<u8>, option_id: int) -> bool {
    vote_matches(polls, id, option_id) && fetch(polls, id).unwrap().votes_of(option_id)
        == i32::MAX
}

/// The polls after the conditional increment: where it matches, the option's
/// tally is one higher; nothing else ever differs.
pub open spec fn after_vote(polls: Seq<PollView>, id: Seq<u8>, option_id: int) -> Seq<PollView> {
    if vote_matches(polls, id, option_id) {
        polls.update(locate(polls, id).unwrap(), fetch(polls, id).unwrap().with_vote(option_id))
    } else {
        polls
    }
}

/// Whether a write scoped to an owner matches: the poll exists and this user
/// created it.
pub open spec fn owner_matches(polls: Seq<PollView>, id: Seq<u8>, user: u128) -> bool {
    fetch(polls, id) matches Some(poll) && poll.creator_id == user
}

/// The polls after the owner closes one.
pub open spec fn after_close(polls: Seq<PollView>, id: Seq<u8>, user: u128) -> Seq<PollView> {
    if owner_matches(polls, id, user) {
        polls.update(locate(polls, id).unwrap(), fetch(polls, id).unwrap().closed())
    } else {
        polls
    }
}

/// The polls after the owner resets the tallies of one.
pub open spec fn after_reset(polls: Seq<PollView>, id: Seq<u8>, user: u128) -> Seq<PollView> {
    if owner_matches(polls, id, user) {
        polls.update(locate(polls, id).unwrap(), fetch(polls, id).unwrap().reset())
    } else {
        polls
    }
}

/// The polls after the owner gives one a new title and new options.
pub open spec fn after_edit(
    polls: Seq<PollView>,
    id: Seq<u8>,
    user: u128,
    title: Seq<char>,
    texts: Seq<Seq<char>>,
) -> Seq<PollView> {
    if owner_matches(polls, id, user) {
        polls.update(locate(polls, id).unwrap(), fetch(polls, id).unwrap().edited(title, texts))
    } else {
        polls
    }
}

/// The polls after the owner deletes one.
pub open spec fn after_delete(polls: Seq<PollView>, id: Seq<u8>, user: u128) -> Seq<PollView> {
    if owner_matches(polls, id, user) {
        polls.remove(locate(polls, id).unwrap())
    } else {
        polls
    }
}

/// The polls that a user created, in the order of the store.
pub open spec fn created_by(polls: Seq<PollView>, user: u128) -> Seq<PollView> {
    polls.filter(|poll: PollView| poll.creator_id == user)
}

/// Where `locate` finds a poll, it is the first with that identifier; where it
/// finds none, no poll carries the identifier.
pub proof fn lemma_locate(polls: Seq<PollView>, id: Seq<u8>)
    ensures
        match locate(polls, id) {
            Some(i) => {
                &&& 0 <= i < polls.len()
                &&& polls[i].id == Some(id)
                &&& forall|j: int| 0 <= j < i ==> (#[trigger] polls[j]).id != Some(id)
            },
            None => forall|j: int| 0 <= j < polls.len() ==> (#[trigger] polls[j]).id != Some(id),
        },
{
    let ids = ids_of(polls);
    ids.index_of_first_ensures(Some(id));
    match locate(polls, id) {
        Some(i) => {
            assert forall|j: int| 0 <= j < i implies (#[trigger] polls[j]).id != Some(id) by {
                assert(ids[j] != Some(id));
            }
        },
        None => {
            assert forall|j: int| 0 <= j < polls.len() implies (#[trigger] polls[j]).id != Some(
                id,
            ) by {
                if polls[j].id == Some(id) {
                    assert(ids[j] == Some(id));
                }
            }
        },
    }
}

/// Putting another poll with the same identifier in a poll's place moves no
/// identifier.
pub proof fn lemma_locate_after_update(polls: Seq<PollView>, i: int, poll: PollView, id: Seq<u8>)
    requires
        0 <= i < polls.len(),
        poll.id == polls[i].id,
    ensures
        locate(polls.update(i, poll), id) == locate(polls, id),
{
    assert(ids_of(polls.update(i, poll)) =~= ids_of(polls));
}

/// The polls of the service, as the document store holds them: a stand-in
/// that keeps them in memory and applies each write as the one conditional
/// update that the service issues.
pub struct PollStore {
    polls: Vec<Poll>,
}

impl View for PollStore {
    type V = Seq<PollView>;

    closed spec fn view(&self) -> Seq<PollView> {
        poll_views(self.polls@)
    }
}

impl PollStore {
    /// Whether the store is consistent.
    pub open spec fn well_formed(&self) -> bool {
        consistent(self@)
    }

    /// A store without polls.
    pub fn new() -> (store: PollStore)
        ensures
            store@ == Seq::<PollView>::empty(),
            store.well_formed(),
    {
        let store = PollStore { polls: Vec::new() };
        store
    }

    /// The number of polls.
    pub fn len(&self) -> (n: usize)
        ensures
            n == self@.len(),
    {
        self.polls.len()
    }

    /// Where the poll with an identifier stands, if the store holds one.
    fn find_index(&self, id: &PollId) -> (r: Option<usize>)
        ensures
            match r {
                Some(i) => locate(self@, id@) == Some(i as int) && i < self.polls.len(),
                None => locate(self@, id@).is_none(),
            },
    {
        let mut i: usize = 0;
        while i < self.polls.len()
            invariant
                i <= self.polls.len(),
                forall|j: int| 0 <= j < i ==> (#[trigger] self@[j]).id != Some(id@),
            decreases self.polls.len() - i,
        {
            if self.polls[i].has_id(id) {
                proof {
                    lemma_locate(self@, id@);
                    assert(self@[i as int].id == Some(id@));
                }
                return Some(i);
            }
            i = i + 1;
        }
        proof {
            lemma_locate(self@, id@);
        }
        None
    }

    /// The poll with an identifier, if the store holds one.
    pub fn find_one(&self, id: &PollId) -> (r: Option<Poll>)
        ensures
            match r {
                Some(poll) => fetch(self@, id@) == Some(poll@) && poll@.id == Some(id@),
                None => fetch(self@, id@).is_none(),
            },
    {
        proof {
            lemma_locate(self@, id@);
        }
        match self.find_index(id) {
            Some(i) => Some(self.polls[i].duplicate()),
            None => None,
        }
    }

    /// Stores a poll under a new identifier, behind the others. Refuses, and
    /// changes nothing, where the identifier is taken.
    pub fn insert_one(&mut self, poll: Poll, id: PollId) -> (stored: bool)
        requires
            old(self).well_formed(),
            poll@.well_formed(),
        ensures
            stored == fetch(old(self)@, id@).is_none(),
            stored ==> final(self)@ == old(self)@.push(PollView { id: Some(id@), ..poll@ }),
            !stored ==> final(self)@ == old(self)@,
            final(self).well_formed(),
    {
        if self.find_index(&id).is_some() {
            return false;
        }
        proof {
            lemma_locate(self@, id@);
        }
        let mut poll = poll;
        poll.id = Some(id);
        self.polls.push(poll);
        true
    }

    /// Puts a poll in the place of another.
    fn put(&mut self, index: usize, poll: Poll)
        requires
            index < old(self)@.len(),
        ensures
            final(self)@ == old(self)@.update(index as int, poll@),
    {
        self.polls.set(index, poll);
    }

    /// The conditional increment: one vote for an option of a poll, applied
    /// only where the poll exists, is open and has the option. `Some` says
    /// whether it matched; `None` that the tally is full, and nothing changed.
    pub fn increment_vote(&mut self, id: &PollId, option_id: i32) -> (r: Option<bool>)
        requires
            old(self).well_formed(),
        ensures
            r.is_none() == tally_full(old(self)@, id@, option_id as int),
            r matches Some(matched) ==> matched == vote_matches(old(self)@, id@, option_id as int),
            final(self)@ == if r.is_none() {
                old(self)@
            } else {
                after_vote(old(self)@, id@, option_id as int)
            },
            final(self).well_formed(),
    {
        match self.find_index(id) {
            None => Some(false),
            Some(i) => {
                let mut poll = self.polls[i].duplicate();
                if !poll.is_closed && 1 <= option_id && option_id as usize <= poll.options.len()
                    && poll.options[(option_id - 1) as usize].votes == i32::MAX {
                    return None;
                }
                let matched = poll.apply_vote(option_id);
                proof {
                    lemma_locate(self@, id@);
                }
                self.put(i, poll);
                Some(matched)
            },
        }
    }

    /// Closes a poll for its creator. Says whether the write matched.
    pub fn close(&mut self, id: &PollId, user: u128) -> (matched: bool)
        requires
            old(self).well_formed(),
        ensures
            matched == owner_matches(old(self)@, id@, user),
            final(self)@ == after_close(old(self)@, id@, user),
            final(self).well_formed(),
    {
        match self.find_index(id) {
            None => false,
            Some(i) => {
                if self.polls[i].creator_id != user {
                    return false;
                }
                let mut poll = self.polls[i].duplicate();
                poll.close();
                proof {
                    lemma_locate(self@, id@);
                }
                self.put(i, poll);
                true
            },
        }
    }

    /// Puts the tallies of a poll back to zero for its creator. Says whether
    /// the write matched.
    pub fn reset(&mut self, id: &PollId, user: u128) -> (matched: bool)
        requires
            old(self).well_formed(),
        ensures
            matched == owner_matches(old(self)@, id@, user),
            final(self)@ == after_reset(old(self)@, id@, user),
            final(self).well_formed(),
    {
        match self.find_index(id) {
            None => false,
            Some(i) => {
                if self.polls[i].creator_id != user {
                    return false;
                }
                let mut poll = self.polls[i].duplicate();
                poll.reset_votes();
                proof {
                    lemma_locate(self@, id@);
                }
                self.put(i, poll);
                true
            },
        }
    }

    /// Gives a poll a new title and new options for its creator. Says whether
    /// the write matched.
    pub fn edit(&mut self, id: &PollId, user: u128, title: String, options: Vec<PollOption>) -> (matched:
        bool)
        requires
            old(self).well_formed(),
            well_numbered(option_views(options@)),
        ensures
            matched == owner_matches(old(self)@, id@, user),
            matched ==> final(self)@ == old(self)@.update(
                locate(old(self)@, id@).unwrap(),
                PollView {
                    title: title@,
                    options: option_views(options@),
                    ..fetch(old(self)@, id@).unwrap()
                },
            ),
            !matched ==> final(self)@ == old(self)@,
            final(self).well_formed(),
    {
        match self.find_index(id) {
            None => false,
            Some(i) => {
                if self.polls[i].creator_id != user {
                    return false;
                }
                let poll = Poll {
                    id: self.polls[i].id,
                    title,
                    options,
                    creator_id: self.polls[i].creator_id,
                    is_closed: self.polls[i].is_closed,
                    created_at: self.polls[i].created_at,
                };
                proof {
                    lemma_locate(self@, id@);
                }
                self.put(i, poll);
                true
            },
        }
    }

    /// Deletes a poll for its creator. Says whether a poll was deleted.
    pub fn delete_one(&mut self, id: &PollId, user: u128) -> (deleted: bool)
        requires
            old(self).well_formed(),
        ensures
            deleted == owner_matches(old(self)@, id@, user),
            final(self)@ == after_delete(old(self)@, id@, user),
            final(self).well_formed(),
    {
        match self.find_index(id) {
            None => false,
            Some(i) => {
                if self.polls[i].creator_id != user {
                    return false;
                }
                proof {
                    lemma_locate(self@, id@);
                }
                let _ = self.polls.remove(i);
                assert(self@ =~= old(self)@.remove(i as int));
                true
            },
        }
    }

    /// Every poll, in the order of the store.
    pub fn find_all(&self) -> (polls: Vec<Poll>)
        ensures
            poll_views(polls@) == self@,
            self.well_formed() ==> forall|i: int|
                0 <= i < polls.len() ==> (#[trigger] polls@[i])@.id.is_some(),
    {
        let mut polls: Vec<Poll> = Vec::new();
        let mut i: usize = 0;
        while i < self.polls.len()
            invariant
                i <= self.polls.len(),
                polls@.len() == i,
                poll_views(polls@) == self@.take(i as int),
                self.well_formed() ==> forall|j: int|
                    0 <= j < polls.len() ==> (#[trigger] polls@[j])@.id.is_some(),
            decreases self.polls.len() - i,
        {
            let poll = self.polls[i].duplicate();
            assert(poll@ == self@[i as int]);
            polls.push(poll);
            assert(poll_views(polls@) =~= self@.take(i + 1));
            i = i + 1;
        }
        polls
    }

    /// The polls that a user created, in the order of the store.
    pub fn find_by_creator(&self, user: u128) -> (polls: Vec<Poll>)
        ensures
            poll_views(polls@) == created_by(self@, user),
            self.well_formed() ==> forall|i: int|
                0 <= i < polls.len() ==> (#[trigger] polls@[i])@.id.is_some(),
    {
        let ghost wanted = |poll: PollView| poll.creator_id == user;
        let mut polls: Vec<Poll> = Vec::new();
        let mut i: usize = 0;
        proof {
            reveal(Seq::filter);
        }
        while i < self.polls.len()
            invariant
                i <= self.polls.len(),
                wanted == |poll: PollView| poll.creator_id == user,
                poll_views(polls@) == self@.take(i as int).filter(wanted),
                self.well_formed() ==> forall|j: int|
                    0 <= j < polls.len() ==> (#[trigger] polls@[j])@.id.is_some(),
            decreases self.polls.len() - i,
        {
            proof {
                reveal(Seq::filter);
                assert(self@.take(i + 1).drop_last() =~= self@.take(i as int));
            }
            if self.polls[i].creator_id == user {
                polls.push(self.polls[i].duplicate());
            }
            i = i + 1;
        }
        assert(self@.take(i as int) =~= self@);
        polls
    }
}

} // verus!

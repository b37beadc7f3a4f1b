use crate::error::WebauthnError;
use crate::ident::{hex_text, PollId};
use vstd::prelude::*;
use vstd::string::StringExecFns;

verus! {

/// What a session is: the user it was established for, if any, and the polls
/// on which it has voted.
pub struct SessionView {
    pub user_id: Option<u128>,
    pub voted: Set<Seq<u8>>,
}

/// The identifiers that occur in a list.
pub open spec fn id_set(ids: Seq<PollId>) -> Set<Seq<u8>> {
    Set::new(|b: Seq<u8>| exists|i: int| 0 <= i < ids.len() && (#[trigger] ids[i])@ == b)
}

/// With one more identifier behind the others, a list holds that identifier
/// and what it held.
pub proof fn lemma_id_set_push(ids: Seq<PollId>, id: PollId)
    ensures
        id_set(ids.push(id)) == id_set(ids).insert(id@),
{
    let more = ids.push(id);
    assert forall|b: Seq<u8>| id_set(more).contains(b) == id_set(ids).insert(id@).contains(b) by {
        if id_set(ids).contains(b) {
            let i = choose|i: int| 0 <= i < ids.len() && (#[trigger] ids[i])@ == b;
            assert(more[i]@ == b);
        }
        if b == id@ {
            assert(more[ids.len() as int]@ == b);
        }
        if id_set(more).contains(b) {
            let i = choose|i: int| 0 <= i < more.len() && (#[trigger] more[i])@ == b;
            if i < ids.len() {
                assert(ids[i]@ == b);
            }
        }
    }
    assert(id_set(more) =~= id_set(ids).insert(id@));
}

/// The state that one browser session carries between requests.
#[derive(Debug)]
pub struct Session {
    user_id: Option<u128>,
    voted: Vec<PollId>,
}

impl View for Session {
    type V = SessionView;

    closed spec fn view(&self) -> SessionView {
        SessionView { user_id: self.user_id, voted: id_set(self.voted@) }
    }
}

impl Session {
    /// A session of nobody, which has voted nowhere.
    pub fn anonymous() -> (session: Session)
        ensures
            session@ == (SessionView { user_id: None, voted: Set::empty() }),
    {
        let session = Session { user_id: None, voted: Vec::new() };
        assert(session@.voted =~= Set::empty());
        session
    }

    /// The session that a completed authentication establishes for a user.
    pub fn establish(user_id: u128) -> (session: Session)
        ensures
            session@ == (SessionView { user_id: Some(user_id), voted: Set::empty() }),
    {
        let session = Session { user_id: Some(user_id), voted: Vec::new() };
        assert(session@.voted =~= Set::empty());
        session
    }

    /// A session as the session store holds it: the user, if any, and the
    /// polls whose mark is set.
    pub fn from_parts(user_id: Option<u128>, voted: Vec<PollId>) -> (session: Session)
        ensures
            session@ == (SessionView { user_id, voted: id_set(voted@) }),
    {
        Session { user_id, voted }
    }

    /// The user of the session, if it has one.
    pub fn user_id(&self) -> (user_id: Option<u128>)
        ensures
            user_id == self@.user_id,
    {
        self.user_id
    }

    /// The user on whose behalf the session may change polls. An anonymous
    /// session has none, and is refused.
    pub fn require_user(&self) -> (r: Result<u128, WebauthnError>)
        ensures
            r == match self@.user_id {
                Some(user_id) => Ok::<u128, WebauthnError>(user_id),
                None => Err::<u128, WebauthnError>(WebauthnError::NoActiveSession),
            },
    {
        match self.user_id {
            Some(user_id) => Ok(user_id),
            None => Err(WebauthnError::NoActiveSession),
        }
    }

    /// Whether the session has voted on a poll.
    pub fn has_voted(&self, poll: &PollId) -> (b: bool)
        ensures
            b == self@.voted.contains(poll@),
    {
        let mut i: usize = 0;
        while i < self.voted.len()
            invariant
                i <= self.voted.len(),
                forall|j: int| 0 <= j < i ==> (#[trigger] self.voted@[j])@ != poll@,
            decreases self.voted.len() - i,
        {
            if self.voted[i].same(poll) {
                return true;
            }
            i = i + 1;
        }
        false
    }

    /// Sets the mark of a poll, and says whether it was newly set: `false`
    /// means that the session had voted on the poll already. Marks are never
    /// taken back.
    pub fn mark_voted(&mut self, poll: PollId) -> (newly: bool)
        ensures
            newly == !old(self)@.voted.contains(poll@),
            final(self)@ == (SessionView {
                voted: old(self)@.voted.insert(poll@),
                ..old(self)@
            }),
    {
        if self.has_voted(&poll) {
            assert(self@.voted.insert(poll@) =~= self@.voted);
            return false;
        }
        proof {
            lemma_id_set_push(self.voted@, poll);
        }
        self.voted.push(poll);
        true
    }

    /// The key under which the session store keeps the mark of a poll: the
    /// word `voted_` and the identifier's text.
    pub fn voted_key(poll: &PollId) -> (key: String)
        ensures
            key@ == "voted_"@ + hex_text(poll@),
    {
        let mut key = String::from_str("voted_");
        let hex = poll.to_hex();
        key.append(hex.as_str());
        key
    }
}

} // verus!

use crate::ident::{new_uuid_v4, utc_now_millis, PollId};
use vstd::prelude::*;

verus! {

/// What an option of a poll is: its number, its text and its tally.
pub struct OptionView {
    pub id: int,
    pub text: Seq<char>,
    pub votes: int,
}

/// What a poll is.
pub struct PollView {
    pub id: Option<Seq<u8>>,
    pub title: Seq<char>,
    pub options: Seq<OptionView>,
    pub creator_id: u128,
    pub is_closed: bool,
    pub created_at: i64,
}

/// The options that a list of texts makes: numbered from one in the order of
/// the texts, each with no votes.
pub open spec fn numbered(texts: Seq<Seq<char>>) -> Seq<OptionView> {
    Seq::new(texts.len(), |i: int| OptionView { id: i + 1, text: texts[i], votes: 0 })
}

/// The options are numbered from one without a gap, and no tally is negative.
pub open spec fn well_numbered(options: Seq<OptionView>) -> bool {
    &&& options.len() < i32::MAX
    &&& forall|i: int|
        0 <= i < options.len() ==> {
            &&& (#[trigger] options[i]).id == i + 1
            &&& 0 <= options[i].votes <= i32::MAX
        }
}

impl PollView {
    /// The poll's options are well numbered.
    pub open spec fn well_formed(self) -> bool {
        well_numbered(self.options)
    }

    /// Whether the poll has an option of this number.
    pub open spec fn has_option(self, option_id: int) -> bool {
        1 <= option_id <= self.options.len()
    }

    /// The tally of an option that the poll has.
    pub open spec fn votes_of(self, option_id: int) -> int
        recommends
            self.has_option(option_id),
    {
        self.options[option_id - 1].votes
    }

    /// The condition of the conditional increment: the poll is open and has
    /// the option.
    pub open spec fn accepts_vote(self, option_id: int) -> bool {
        !self.is_closed && self.has_option(option_id)
    }

    /// The poll after one vote for an option that it has: that tally is one
    /// higher, and nothing else differs.
    pub open spec fn with_vote(self, option_id: int) -> PollView
        recommends
            self.has_option(option_id),
    {
        PollView {
            options: self.options.update(
                option_id - 1,
                OptionView { votes: self.options[option_id - 1].votes + 1, ..self.options[option_id - 1] },
            ),
            ..self
        }
    }

    /// The poll after `n` votes for one option.
    pub open spec fn with_votes(self, option_id: int, n: nat) -> PollView
        decreases n,
    {
        if n == 0 {
            self
        } else {
            self.with_votes(option_id, (n - 1) as nat).with_vote(option_id)
        }
    }

    /// The poll under an identifier.
    pub open spec fn under(self, id: Seq<u8>) -> PollView {
        PollView { id: Some(id), ..self }
    }

    /// The poll, closed.
    pub open spec fn closed(self) -> PollView {
        PollView { is_closed: true, ..self }
    }

    /// The poll with every tally back at zero.
    pub open spec fn reset(self) -> PollView {
        PollView {
            options: Seq::new(
                self.options.len(),
                |i: int| OptionView { votes: 0, ..self.options[i] },
            ),
            ..self
        }
    }

    /// The poll with a new title and new options, numbered afresh and without
    /// votes.
    pub open spec fn edited(self, title: Seq<char>, texts: Seq<Seq<char>>) -> PollView {
        PollView { title, options: numbered(texts), ..self }
    }
}

/// One option of a poll.
#[derive(Debug)]
pub struct PollOption {
    pub id: i32,
    pub text: String,
    pub votes: i32,
}

impl View for PollOption {
    type V = OptionView;

    open spec fn view(&self) -> OptionView {
        OptionView { id: self.id as int, text: self.text@, votes: self.votes as int }
    }
}

impl PollOption {
    /// An option without votes.
    pub fn new(id: i32, text: String) -> (option: PollOption)
        ensures
            option@ == (OptionView { id: id as int, text: text@, votes: 0 }),
    {
        PollOption { id, text, votes: 0 }
    }

    /// A copy of the option.
    pub fn duplicate(&self) -> (option: PollOption)
        ensures
            option@ == self@,
    {
        PollOption { id: self.id, text: self.text.clone(), votes: self.votes }
    }
}

/// The views of a list of options.
pub open spec fn option_views(options: Seq<PollOption>) -> Seq<OptionView> {
    Seq::new(options.len(), |i: int| options[i]@)
}

/// A copy of a list of options.
pub fn duplicate_options(options: &Vec<PollOption>) -> (copy: Vec<PollOption>)
    ensures
        option_views(copy@) == option_views(options@),
{
    let mut copy: Vec<PollOption> = Vec::new();
    let mut i: usize = 0;
    while i < options.len()
        invariant
            i <= options.len(),
            copy.len() == i,
            forall|j: int| 0 <= j < i ==> copy@[j]@ == options@[j]@,
        decreases options.len() - i,
    {
        copy.push(options[i].duplicate());
        i = i + 1;
    }
    copy
}

/// A poll: a question, its options with their tallies, and who asked it.
#[derive(Debug)]
pub struct Poll {
    /// `None` until the document store has given the poll an identifier.
    pub id: Option<PollId>,
    pub title: String,
    pub options: Vec<PollOption>,
    pub creator_id: u128,
    pub is_closed: bool,
    /// Milliseconds since the epoch.
    pub created_at: i64,
}

impl View for Poll {
    type V = PollView;

    open spec fn view(&self) -> PollView {
        PollView {
            id: match self.id {
                Some(id) => Some(id@),
                None => None,
            },
            title: self.title@,
            options: option_views(self.options@),
            creator_id: self.creator_id,
            is_closed: self.is_closed,
            created_at: self.created_at,
        }
    }
}

impl Poll {
    /// An open poll of the given moment, not yet stored.
    pub fn with_timestamp(
        creator_id: u128,
        title: String,
        options: Vec<PollOption>,
        created_at: i64,
    ) -> (poll: Poll)
        ensures
            poll@ == (PollView {
                id: None,
                title: title@,
                options: option_views(options@),
                creator_id,
                is_closed: false,
                created_at,
            }),
    {
        Poll { id: None, title, options, creator_id, is_closed: false, created_at }
    }

    /// An open poll of this moment, not yet stored.
    pub fn new(creator_id: u128, title: String, options: Vec<PollOption>) -> (poll: Poll)
        ensures
            poll@ == (PollView {
                id: None,
                title: title@,
                options: option_views(options@),
                creator_id,
                is_closed: false,
                created_at: poll.created_at,
            }),
    {
        let now: i64 = utc_now_millis();
        Poll::with_timestamp(creator_id, title, options, now)
    }

    /// A copy of the poll.
    pub fn duplicate(&self) -> (poll: Poll)
        ensures
            poll@ == self@,
    {
        Poll {
            id: self.id,
            title: self.title.clone(),
            options: duplicate_options(&self.options),
            creator_id: self.creator_id,
            is_closed: self.is_closed,
            created_at: self.created_at,
        }
    }

    /// The poll under an identifier.
    pub fn under(self, id: PollId) -> (poll: Poll)
        ensures
            poll@ == self@.under(id@),
    {
        let mut poll = self;
        poll.id = Some(id);
        poll
    }

    /// Whether the poll carries this identifier.
    pub fn has_id(&self, id: &PollId) -> (b: bool)
        ensures
            b == (self@.id == Some(id@)),
    {
        match &self.id {
            Some(own) => own.same(id),
            None => false,
        }
    }

    /// The conditional increment on one poll: where the poll is open and has
    /// the option, that option's tally goes up by one; otherwise nothing
    /// changes. Says whether the condition matched.
    pub fn apply_vote(&mut self, option_id: i32) -> (matched: bool)
        requires
            old(self)@.well_formed(),
            old(self)@.accepts_vote(option_id as int) ==> old(self)@.votes_of(option_id as int)
                < i32::MAX,
        ensures
            matched == old(self)@.accepts_vote(option_id as int),
            matched ==> final(self)@ == old(self)@.with_vote(option_id as int),
            !matched ==> final(self)@ == old(self)@,
            final(self)@.well_formed(),
    {
        if self.is_closed || option_id < 1 || option_id as usize > self.options.len() {
            return false;
        }
        let index: usize = (option_id - 1) as usize;
        let ghost before = self@;
        let mut option = self.options.remove(index);
        option.votes = option.votes + 1;
        self.options.insert(index, option);
        assert(self@.options =~= before.with_vote(option_id as int).options);
        true
    }

    /// Closes the poll.
    pub fn close(&mut self)
        ensures
            final(self)@ == old(self)@.closed(),
    {
        self.is_closed = true;
    }

    /// Puts every tally back to zero.
    pub fn reset_votes(&mut self)
        ensures
            final(self)@ == old(self)@.reset(),
    {
        let ghost before = self@;
        let n: usize = self.options.len();
        let mut i: usize = 0;
        while i < n
            invariant
                i <= n,
                n == self.options.len(),
                self@.options.len() == before.options.len(),
                self@ == (PollView { options: self@.options, ..before }),
                forall|j: int| 0 <= j < i ==> self@.options[j] == before.reset().options[j],
                forall|j: int| i <= j < n ==> self@.options[j] == before.options[j],
            decreases n - i,
        {
            let mut option = self.options.remove(i);
            option.votes = 0;
            self.options.insert(i, option);
            i = i + 1;
        }
        assert(self@.options =~= before.reset().options);
    }
}

/// A registered user.
#[derive(Debug)]
pub struct User {
    pub id: u128,
    pub username: String,
    /// Milliseconds since the epoch.
    pub created_at: i64,
}

/// What a user is.
pub struct UserView {
    pub id: u128,
    pub username: Seq<char>,
    pub created_at: i64,
}

impl View for User {
    type V = UserView;

    open spec fn view(&self) -> UserView {
        UserView { id: self.id, username: self.username@, created_at: self.created_at }
    }
}

impl User {
    /// The record of a user with a given identifier and moment of creation.
    pub fn with_identity(id: u128, username: String, created_at: i64) -> (user: User)
        ensures
            user@ == (UserView { id, username: username@, created_at }),
    {
        User { id, username, created_at }
    }

    /// A user of this moment under a new identifier.
    pub fn new(username: String) -> (user: User)
        ensures
            user@.username == username@,
    {
        let id: u128 = new_uuid_v4();
        let now: i64 = utc_now_millis();
        User::with_identity(id, username, now)
    }

    /// A copy of the record.
    pub fn duplicate(&self) -> (user: User)
        ensures
            user@ == self@,
    {
        User { id: self.id, username: self.username.clone(), created_at: self.created_at }
    }
}

/// What a client sends to register.
#[derive(Debug)]
pub struct NewUser {
    pub username: String,
}

/// What a client sends to ask a question: the title and the options' texts.
#[derive(Debug)]
pub struct NewPoll {
    pub title: String,
    pub options: Vec<String>,
}

} // verus!

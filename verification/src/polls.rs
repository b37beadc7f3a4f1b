use crate::error::WebauthnError;
use crate::ident::{hex_text, is_poll_id_text, poll_id_bytes, utc_now_millis, PollId};
use crate::models::{
    duplicate_options, numbered, option_views, OptionView, Poll, PollOption, PollView,
};
use crate::session::{Session, SessionView};
use crate::store::{
    after_close, after_delete, after_edit, after_reset, after_vote, created_by, fetch,
    lemma_locate, lemma_locate_after_update, locate, owner_matches, poll_views, tally_full,
    vote_matches, PollStore,
};
use crate::text::{is_blank, is_blank_text};
use vstd::prelude::*;

verus! {

/// What a client sends to create a poll.
#[derive(Debug)]
pub struct CreatePollRequest {
    pub title: String,
    pub options: Vec<String>,
}

/// What a client sends to vote: the number of the option.
#[derive(Debug, Clone, Copy, PartialEq, Eq, Structural)]
pub struct VoteRequest {
    pub option_id: i32,
}

/// What a client sends to edit a poll.
#[derive(Debug)]
pub struct EditPollRequest {
    pub title: String,
    pub options: Vec<String>,
}

/// What a client is shown of a poll.
#[derive(Debug)]
pub struct PollResponse {
    pub id: String,
    pub title: String,
    pub options: Vec<PollOption>,
    pub is_closed: bool,
}

/// What a response is.
pub struct ResponseView {
    pub id: Seq<char>,
    pub title: Seq<char>,
    pub options: Seq<OptionView>,
    pub is_closed: bool,
}

impl View for PollResponse {
    type V = ResponseView;

    open spec fn view(&self) -> ResponseView {
        ResponseView {
            id: self.id@,
            title: self.title@,
            options: option_views(self.options@),
            is_closed: self.is_closed,
        }
    }
}

/// What is shown of a stored poll: the identifier's text, the title, the
/// options and whether it is closed.
pub open spec fn response_of(poll: PollView) -> ResponseView
    recommends
        poll.id.is_some(),
{
    ResponseView {
        id: hex_text(poll.id.unwrap()),
        title: poll.title,
        options: poll.options,
        is_closed: poll.is_closed,
    }
}

/// What is shown of a list of stored polls.
pub open spec fn responses_of(polls: Seq<PollView>) -> Seq<ResponseView> {
    Seq::new(polls.len(), |i: int| response_of(polls[i]))
}

/// The views of a list of responses.
pub open spec fn response_views(responses: Seq<PollResponse>) -> Seq<ResponseView> {
    Seq::new(responses.len(), |i: int| responses[i]@)
}

/// The texts of a list of strings.
pub open spec fn texts_of(options: Seq<String>) -> Seq<Seq<char>> {
    Seq::new(options.len(), |i: int| options[i]@)
}

/// The test that keeps an option's text: it is not blank.
pub open spec fn not_blank() -> spec_fn(Seq<char>) -> bool {
    |text: Seq<char>| !is_blank(text)
}

/// The texts that are kept as options: those that are not blank, unchanged
/// and in order.
pub open spec fn kept(texts: Seq<Seq<char>>) -> Seq<Seq<char>> {
    texts.filter(not_blank())
}

/// A poll needs a title that is not blank and two options that are not.
pub open spec fn acceptable(title: Seq<char>, texts: Seq<Seq<char>>) -> bool {
    !is_blank(title) && kept(texts).len() >= 2
}

/// The texts whose flag is not set, in order.
pub open spec fn unflagged(texts: Seq<Seq<char>>, blank: Seq<bool>) -> Seq<Seq<char>>
    decreases texts.len(),
{
    if texts.len() == 0 || blank.len() == 0 {
        Seq::empty()
    } else {
        let earlier = unflagged(texts.drop_last(), blank.drop_last());
        if blank.last() {
            earlier
        } else {
            earlier.push(texts.last())
        }
    }
}

/// Where each flag says whether its text is blank, the texts without a flag
/// are the texts that are kept.
pub proof fn lemma_unflagged_are_kept(texts: Seq<Seq<char>>, blank: Seq<bool>)
    requires
        texts.len() == blank.len(),
        forall|i: int| 0 <= i < texts.len() ==> blank[i] == is_blank(#[trigger] texts[i]),
    ensures
        unflagged(texts, blank) == kept(texts),
    decreases texts.len(),
{
    reveal(Seq::filter);
    if texts.len() > 0 {
        lemma_unflagged_are_kept(texts.drop_last(), blank.drop_last());
    }
}

/// Says of each text whether it is blank.
pub fn blank_flags(options: &Vec<String>) -> (blank: Vec<bool>)
    ensures
        blank.len() == options.len(),
        forall|i: int| 0 <= i < options.len() ==> blank[i] == is_blank(#[trigger] options[i]@),
{
    let mut blank: Vec<bool> = Vec::new();
    let mut i: usize = 0;
    while i < options.len()
        invariant
            i <= options.len(),
            blank.len() == i,
            forall|j: int| 0 <= j < i ==> blank[j] == is_blank(#[trigger] options[j]@),
        decreases options.len() - i,
    {
        blank.push(is_blank_text(options[i].as_str()));
        i = i + 1;
    }
    blank
}

/// The options that a list of texts makes, given which of them are blank:
/// the texts without a flag, unchanged and in order, numbered from one,
/// without votes.
pub fn options_from(options: &Vec<String>, blank: &Vec<bool>) -> (kept_options: Vec<PollOption>)
    requires
        options.len() == blank.len(),
        options.len() < i32::MAX,
    ensures
        option_views(kept_options@) == numbered(unflagged(texts_of(options@), blank@)),
{
    let ghost texts = texts_of(options@);
    let mut out: Vec<PollOption> = Vec::new();
    let mut i: usize = 0;
    while i < options.len()
        invariant
            i <= options.len() < i32::MAX,
            options.len() == blank.len(),
            texts == texts_of(options@),
            out@.len() == unflagged(texts.take(i as int), blank@.take(i as int)).len(),
            out@.len() <= i,
            option_views(out@) == numbered(
                unflagged(texts.take(i as int), blank@.take(i as int)),
            ),
        decreases options.len() - i,
    {
        proof {
            assert(texts.take(i + 1).drop_last() =~= texts.take(i as int));
            assert(blank@.take(i + 1).drop_last() =~= blank@.take(i as int));
        }
        if !blank[i] {
            let id: i32 = (out.len() + 1) as i32;
            let option = PollOption::new(id, options[i].clone());
            let ghost before = out@;
            out.push(option);
            assert(option_views(out@) =~= option_views(before).push(option@));
        }
        i = i + 1;
    }
    assert(texts.take(i as int) =~= texts);
    assert(blank@.take(i as int) =~= blank@);
    out
}

/// Decides on a poll's input, given whether the title is blank and the
/// options that were kept: the options are handed back where the title is
/// not blank and there are two of them at least.
pub fn check_input(title_blank: bool, kept_options: Vec<PollOption>) -> (r: Result<
    Vec<PollOption>,
    WebauthnError,
>)
    ensures
        r == if title_blank || kept_options.len() < 2 {
            Err::<Vec<PollOption>, WebauthnError>(WebauthnError::Unknown)
        } else {
            Ok::<Vec<PollOption>, WebauthnError>(kept_options)
        },
{
    if title_blank || kept_options.len() < 2 {
        Err(WebauthnError::Unknown)
    } else {
        Ok(kept_options)
    }
}

/// The options of a poll made from a list of texts: the texts that are not
/// blank, numbered from one, without votes.
pub fn numbered_options(options: &Vec<String>) -> (kept_options: Vec<PollOption>)
    requires
        options.len() < i32::MAX,
    ensures
        option_views(kept_options@) == numbered(kept(texts_of(options@))),
{
    let blank = blank_flags(options);
    proof {
        lemma_unflagged_are_kept(texts_of(options@), blank@);
    }
    options_from(options, &blank)
}

/// Checks what a client sends for a new or an edited poll, and hands out the
/// options that it makes.
pub fn validate(title: &str, options: &Vec<String>) -> (r: Result<Vec<PollOption>, WebauthnError>)
    requires
        options.len() < i32::MAX,
    ensures
        match r {
            Ok(kept_options) => acceptable(title@, texts_of(options@)) && option_views(
                kept_options@,
            ) == numbered(kept(texts_of(options@))),
            Err(e) => !acceptable(title@, texts_of(options@)) && e == WebauthnError::Unknown,
        },
{
    let kept_options = numbered_options(options);
    assert(option_views(kept_options@).len() == kept_options@.len());
    check_input(is_blank_text(title), kept_options)
}

impl PollResponse {
    /// What is shown of a stored poll.
    pub fn from_poll(poll: &Poll) -> (response: PollResponse)
        requires
            poll@.id.is_some(),
        ensures
            response@ == response_of(poll@),
    {
        let id = match &poll.id {
            Some(id) => id.to_hex(),
            None => String::new(),
        };
        PollResponse {
            id,
            title: poll.title.clone(),
            options: duplicate_options(&poll.options),
            is_closed: poll.is_closed,
        }
    }
}

/// What is shown of a list of stored polls.
pub fn responses(polls: &Vec<Poll>) -> (list: Vec<PollResponse>)
    requires
        forall|i: int| 0 <= i < polls.len() ==> (#[trigger] polls@[i])@.id.is_some(),
    ensures
        response_views(list@) == responses_of(poll_views(polls@)),
{
    let mut list: Vec<PollResponse> = Vec::new();
    let mut i: usize = 0;
    while i < polls.len()
        invariant
            i <= polls.len(),
            list@.len() == i,
            forall|j: int| 0 <= j < polls.len() ==> (#[trigger] polls@[j])@.id.is_some(),
            forall|j: int| 0 <= j < i ==> (#[trigger] list@[j])@ == response_of(polls@[j]@),
        decreases polls.len() - i,
    {
        list.push(PollResponse::from_poll(&polls[i]));
        i = i + 1;
    }
    list
}

/// The poll that a request to create one makes, before the store has given
/// it an identifier: open, with the texts that are kept as its options.
pub open spec fn drafted_poll(
    user: u128,
    title: Seq<char>,
    texts: Seq<Seq<char>>,
    created_at: i64,
) -> PollView {
    PollView {
        id: None,
        title,
        options: numbered(kept(texts)),
        creator_id: user,
        is_closed: false,
        created_at,
    }
}

/// The poll that a request to create one asks for, under its identifier.
pub open spec fn requested_poll(
    user: u128,
    title: Seq<char>,
    texts: Seq<Seq<char>>,
    id: Seq<u8>,
    created_at: i64,
) -> PollView {
    drafted_poll(user, title, texts, created_at).under(id)
}

/// What becomes of a request to create a poll: the poll that is stored, or the
/// reason why none is. An anonymous session is refused first, then a title or
/// options that are not acceptable, then an identifier that is taken.
pub open spec fn create_outcome(
    polls: Seq<PollView>,
    session: SessionView,
    title: Seq<char>,
    texts: Seq<Seq<char>>,
    id: Seq<u8>,
    created_at: i64,
) -> Result<PollView, WebauthnError> {
    if session.user_id.is_none() {
        Err(WebauthnError::NoActiveSession)
    } else if !acceptable(title, texts) {
        Err(WebauthnError::Unknown)
    } else if fetch(polls, id).is_some() {
        Err(WebauthnError::MongoDBError)
    } else {
        Ok(requested_poll(session.user_id.unwrap(), title, texts, id, created_at))
    }
}

/// What creating a poll under a given identifier at a given moment does to
/// the store and answers: the poll is put behind the others and shown, or
/// nothing changes and the reason is given.
pub open spec fn creates(
    before: Seq<PollView>,
    after: Seq<PollView>,
    session: SessionView,
    title: Seq<char>,
    texts: Seq<Seq<char>>,
    id: Seq<u8>,
    created_at: i64,
    answer: Result<PollResponse, WebauthnError>,
) -> bool {
    match create_outcome(before, session, title, texts, id, created_at) {
        Ok(poll) => after == before.push(poll) && (answer matches Ok(response) && response@
            == response_of(poll)),
        Err(e) => after == before && (answer matches Err(given) && given == e),
    }
}

/// Checks a request to create a poll and makes the poll that is to be
/// stored: open, without an identifier, of the given moment, for the user of
/// the session. An anonymous session is refused first, then a title or
/// options that are not acceptable.
pub fn create_request(session: &Session, poll_data: CreatePollRequest, created_at: i64) -> (r:
    Result<Poll, WebauthnError>)
    requires
        poll_data.options.len() < i32::MAX,
    ensures
        match r {
            Ok(poll) => session@.user_id.is_some() && acceptable(
                poll_data.title@,
                texts_of(poll_data.options@),
            ) && poll@ == drafted_poll(
                session@.user_id.unwrap(),
                poll_data.title@,
                texts_of(poll_data.options@),
                created_at,
            ),
            Err(e) => e == if session@.user_id.is_none() {
                WebauthnError::NoActiveSession
            } else {
                WebauthnError::Unknown
            } && (session@.user_id.is_none() || !acceptable(
                poll_data.title@,
                texts_of(poll_data.options@),
            )),
        },
{
    let user = match session.require_user() {
        Ok(user) => user,
        Err(e) => {
            return Err(e);
        },
    };
    match validate(poll_data.title.as_str(), &poll_data.options) {
        Ok(options) => Ok(Poll::with_timestamp(user, poll_data.title, options, created_at)),
        Err(e) => Err(e),
    }
}

/// What is shown of a poll once the store holds it under an identifier.
pub fn poll_created(poll: &Poll, id: PollId) -> (response: PollResponse)
    ensures
        response@ == response_of(poll@.under(id@)),
{
    PollResponse::from_poll(&poll.duplicate().under(id))
}

/// Creates a poll under a given identifier and moment of creation.
pub fn create_poll_as(
    store: &mut PollStore,
    session: &Session,
    poll_data: CreatePollRequest,
    id: PollId,
    created_at: i64,
) -> (r: Result<PollResponse, WebauthnError>)
    requires
        old(store).well_formed(),
        poll_data.options.len() < i32::MAX,
    ensures
        creates(
            old(store)@,
            final(store)@,
            session@,
            poll_data.title@,
            texts_of(poll_data.options@),
            id@,
            created_at,
            r,
        ),
        final(store).well_formed(),
{
    let poll = match create_request(session, poll_data, created_at) {
        Ok(poll) => poll,
        Err(e) => {
            return Err(e);
        },
    };
    let response = poll_created(&poll, id);
    if store.insert_one(poll, id) {
        Ok(response)
    } else {
        Err(WebauthnError::MongoDBError)
    }
}

/// Creates a poll for the user of the session, under a new identifier, at
/// this moment.
pub fn create_poll(store: &mut PollStore, session: &Session, poll_data: CreatePollRequest) -> (r:
    Result<PollResponse, WebauthnError>)
    requires
        old(store).well_formed(),
        poll_data.options.len() < i32::MAX,
    ensures
        exists|id: Seq<u8>, created_at: i64|
            id.len() == 12 && creates(
                old(store)@,
                final(store)@,
                session@,
                poll_data.title@,
                texts_of(poll_data.options@),
                id,
                created_at,
                r,
            ),
        final(store).well_formed(),
{
    let id = PollId::generate();
    let created_at: i64 = utc_now_millis();
    let r = create_poll_as(store, session, poll_data, id, created_at);
    assert(id@.len() == 12 && creates(
        old(store)@,
        store@,
        session@,
        poll_data.title@,
        texts_of(poll_data.options@),
        id@,
        created_at,
        r,
    ));
    r
}

/// Reads the identifier of a poll from its text. A text that is no
/// identifier is refused.
pub fn poll_request(poll_id: &str) -> (r: Result<PollId, WebauthnError>)
    ensures
        match r {
            Ok(id) => is_poll_id_text(poll_id@) && id@ == poll_id_bytes(poll_id@),
            Err(e) => !is_poll_id_text(poll_id@) && e == WebauthnError::Unknown,
        },
{
    match PollId::parse_str(poll_id) {
        Some(id) => Ok(id),
        None => Err(WebauthnError::Unknown),
    }
}

/// What is shown of the poll that the store found under an identifier; where
/// it found none, the request is refused.
pub fn shown_poll(found: Option<Poll>, id: PollId) -> (r: Result<PollResponse, WebauthnError>)
    ensures
        match found {
            Some(poll) => r matches Ok(response) && response@ == response_of(poll@.under(id@)),
            None => r matches Err(e) && e == WebauthnError::Unknown,
        },
{
    match found {
        Some(poll) => Ok(PollResponse::from_poll(&poll.under(id))),
        None => Err(WebauthnError::Unknown),
    }
}

/// Shows the poll with an identifier, given as text. A text that is no
/// identifier, or one of no poll, is refused.
pub fn get_poll(store: &PollStore, poll_id: &str) -> (r: Result<PollResponse, WebauthnError>)
    requires
        store.well_formed(),
    ensures
        match r {
            Ok(response) => is_poll_id_text(poll_id@) && (fetch(store@, poll_id_bytes(poll_id@))
                matches Some(poll) && response@ == response_of(poll)),
            Err(e) => e == WebauthnError::Unknown && (!is_poll_id_text(poll_id@) || fetch(
                store@,
                poll_id_bytes(poll_id@),
            ).is_none()),
        },
{
    let id = match poll_request(poll_id) {
        Ok(id) => id,
        Err(e) => {
            return Err(e);
        },
    };
    shown_poll(store.find_one(&id), id)
}

/// Why a vote is refused, if it is: the text is no identifier; the session
/// has voted on the poll; the tally is full; or the conditional increment
/// matches nothing, because the poll does not exist, is closed or lacks the
/// option.
pub open spec fn vote_refusal(
    polls: Seq<PollView>,
    session: SessionView,
    poll_id: Seq<char>,
    option_id: int,
) -> Option<WebauthnError> {
    if !is_poll_id_text(poll_id) {
        Some(WebauthnError::Unknown)
    } else if session.voted.contains(poll_id_bytes(poll_id)) {
        Some(WebauthnError::Unknown)
    } else if tally_full(polls, poll_id_bytes(poll_id), option_id) {
        Some(WebauthnError::MongoDBError)
    } else if !vote_matches(polls, poll_id_bytes(poll_id), option_id) {
        Some(WebauthnError::Unknown)
    } else {
        None
    }
}

/// Checks a vote before the store is asked: the text must be an identifier,
/// and the session must not have voted on that poll.
pub fn vote_request(session: &Session, poll_id: &str) -> (r: Result<PollId, WebauthnError>)
    ensures
        match r {
            Ok(id) => is_poll_id_text(poll_id@) && id@ == poll_id_bytes(poll_id@)
                && !session@.voted.contains(id@),
            Err(e) => e == WebauthnError::Unknown && (!is_poll_id_text(poll_id@)
                || session@.voted.contains(poll_id_bytes(poll_id@))),
        },
{
    let id = match poll_request(poll_id) {
        Ok(id) => id,
        Err(e) => {
            return Err(e);
        },
    };
    if session.has_voted(&id) {
        Err(WebauthnError::Unknown)
    } else {
        Ok(id)
    }
}

/// Takes in what the conditional increment gave: the poll as it now stands,
/// or nothing where the increment matched nothing. A vote that was counted
/// marks the session and hands out the poll for the viewers; one that was
/// not is refused and leaves no mark.
pub fn vote_outcome(session: &mut Session, id: PollId, updated: Option<Poll>) -> (r: Result<
    Poll,
    WebauthnError,
>)
    ensures
        match updated {
            Some(poll) => {
                &&& final(session)@ == (SessionView {
                    voted: old(session)@.voted.insert(id@),
                    ..old(session)@
                })
                &&& r matches Ok(published) && published@ == poll@.under(id@)
            },
            None => final(session)@ == old(session)@ && (r matches Err(e) && e
                == WebauthnError::Unknown),
        },
{
    match updated {
        Some(poll) => {
            session.mark_voted(id);
            Ok(poll.under(id))
        },
        None => Err(WebauthnError::Unknown),
    }
}

/// Casts the vote of a session. An accepted vote raises the one tally by one,
/// marks the session as having voted on the poll, and hands out the poll as
/// it now stands, for the viewers. A refused vote changes nothing.
pub fn vote_on_poll(
    store: &mut PollStore,
    session: &mut Session,
    poll_id: &str,
    vote: &VoteRequest,
) -> (r: Result<Poll, WebauthnError>)
    requires
        old(store).well_formed(),
    ensures
        match vote_refusal(old(store)@, old(session)@, poll_id@, vote.option_id as int) {
            None => {
                &&& final(store)@ == after_vote(
                    old(store)@,
                    poll_id_bytes(poll_id@),
                    vote.option_id as int,
                )
                &&& final(session)@ == (SessionView {
                    voted: old(session)@.voted.insert(poll_id_bytes(poll_id@)),
                    ..old(session)@
                })
                &&& r matches Ok(poll) && Some(poll@) == fetch(
                    final(store)@,
                    poll_id_bytes(poll_id@),
                )
            },
            Some(e) => {
                &&& final(store)@ == old(store)@
                &&& final(session)@ == old(session)@
                &&& r matches Err(given) && given == e
            },
        },
        final(store).well_formed(),
{
    let id = match vote_request(session, poll_id) {
        Ok(id) => id,
        Err(e) => {
            return Err(e);
        },
    };
    let updated = match store.increment_vote(&id, vote.option_id) {
        None => {
            return Err(WebauthnError::MongoDBError);
        },
        Some(true) => {
            proof {
                lemma_locate(old(store)@, id@);
                lemma_locate_after_update(
                    old(store)@,
                    locate(old(store)@, id@).unwrap(),
                    fetch(old(store)@, id@).unwrap().with_vote(vote.option_id as int),
                    id@,
                );
            }
            store.find_one(&id)
        },
        Some(false) => None,
    };
    vote_outcome(session, id, updated)
}

/// Why a write that only the creator may make is refused, if it is: the
/// session is anonymous; the text is no identifier; or the write matches
/// nothing, because the poll does not exist or belongs to another user. The
/// last two are told apart by nobody.
pub open spec fn owner_refusal(polls: Seq<PollView>, session: SessionView, poll_id: Seq<char>) -> Option<
    WebauthnError,
> {
    if session.user_id.is_none() {
        Some(WebauthnError::NoActiveSession)
    } else if !is_poll_id_text(poll_id) {
        Some(WebauthnError::Unknown)
    } else if !owner_matches(polls, poll_id_bytes(poll_id), session.user_id.unwrap()) {
        Some(WebauthnError::Unknown)
    } else {
        None
    }
}

/// The user and the poll of a write that only the creator may make.
pub fn owner_request(session: &Session, poll_id: &str) -> (r: Result<(u128, PollId), WebauthnError>)
    ensures
        match r {
            Ok((user, id)) => session@.user_id == Some(user) && is_poll_id_text(poll_id@) && id@
                == poll_id_bytes(poll_id@),
            Err(e) => e == if session@.user_id.is_none() {
                WebauthnError::NoActiveSession
            } else {
                WebauthnError::Unknown
            } && (session@.user_id.is_none() || !is_poll_id_text(poll_id@)),
        },
{
    let user = match session.require_user() {
        Ok(user) => user,
        Err(e) => {
            return Err(e);
        },
    };
    match poll_request(poll_id) {
        Ok(id) => Ok((user, id)),
        Err(e) => Err(e),
    }
}

/// Takes in what a write of the creator's gave: the poll that it matched, or
/// nothing where it matched none. The poll is handed out for the viewers; a
/// write that matched nothing is refused.
pub fn owner_outcome(id: PollId, changed: Option<Poll>) -> (r: Result<Poll, WebauthnError>)
    ensures
        match changed {
            Some(poll) => r matches Ok(published) && published@ == poll@.under(id@),
            None => r matches Err(e) && e == WebauthnError::Unknown,
        },
{
    match changed {
        Some(poll) => Ok(poll.under(id)),
        None => Err(WebauthnError::Unknown),
    }
}

/// Closes a poll for its creator, and hands out the poll as it now stands,
/// for the viewers.
pub fn close_poll(store: &mut PollStore, session: &Session, poll_id: &str) -> (r: Result<
    Poll,
    WebauthnError,
>)
    requires
        old(store).well_formed(),
    ensures
        match owner_refusal(old(store)@, session@, poll_id@) {
            None => {
                &&& final(store)@ == after_close(
                    old(store)@,
                    poll_id_bytes(poll_id@),
                    session@.user_id.unwrap(),
                )
                &&& r matches Ok(poll) && Some(poll@) == fetch(
                    final(store)@,
                    poll_id_bytes(poll_id@),
                )
            },
            Some(e) => final(store)@ == old(store)@ && (r matches Err(given) && given == e),
        },
        final(store).well_formed(),
{
    let (user, id) = match owner_request(session, poll_id) {
        Ok(request) => request,
        Err(e) => {
            return Err(e);
        },
    };
    let changed = if store.close(&id, user) {
        proof {
            lemma_locate(old(store)@, id@);
            lemma_locate_after_update(
                old(store)@,
                locate(old(store)@, id@).unwrap(),
                fetch(old(store)@, id@).unwrap().closed(),
                id@,
            );
        }
        store.find_one(&id)
    } else {
        None
    };
    owner_outcome(id, changed)
}

/// Puts the tallies of a poll back to zero for its creator, and hands out
/// the poll as it now stands, for the viewers.
pub fn reset_poll(store: &mut PollStore, session: &Session, poll_id: &str) -> (r: Result<
    Poll,
    WebauthnError,
>)
    requires
        old(store).well_formed(),
    ensures
        match owner_refusal(old(store)@, session@, poll_id@) {
            None => {
                &&& final(store)@ == after_reset(
                    old(store)@,
                    poll_id_bytes(poll_id@),
                    session@.user_id.unwrap(),
                )
                &&& r matches Ok(poll) && Some(poll@) == fetch(
                    final(store)@,
                    poll_id_bytes(poll_id@),
                )
            },
            Some(e) => final(store)@ == old(store)@ && (r matches Err(given) && given == e),
        },
        final(store).well_formed(),
{
    let (user, id) = match owner_request(session, poll_id) {
        Ok(request) => request,
        Err(e) => {
            return Err(e);
        },
    };
    let changed = if store.reset(&id, user) {
        proof {
            lemma_locate(old(store)@, id@);
            lemma_locate_after_update(
                old(store)@,
                locate(old(store)@, id@).unwrap(),
                fetch(old(store)@, id@).unwrap().reset(),
                id@,
            );
        }
        store.find_one(&id)
    } else {
        None
    };
    owner_outcome(id, changed)
}

/// Deletes a poll for its creator, and hands out the poll as it last stood,
/// for the viewers.
pub fn delete_poll(store: &mut PollStore, session: &Session, poll_id: &str) -> (r: Result<
    Poll,
    WebauthnError,
>)
    requires
        old(store).well_formed(),
    ensures
        match owner_refusal(old(store)@, session@, poll_id@) {
            None => {
                &&& final(store)@ == after_delete(
                    old(store)@,
                    poll_id_bytes(poll_id@),
                    session@.user_id.unwrap(),
                )
                &&& r matches Ok(poll) && Some(poll@) == fetch(
                    old(store)@,
                    poll_id_bytes(poll_id@),
                )
            },
            Some(e) => final(store)@ == old(store)@ && (r matches Err(given) && given == e),
        },
        final(store).well_formed(),
{
    let (user, id) = match owner_request(session, poll_id) {
        Ok(request) => request,
        Err(e) => {
            return Err(e);
        },
    };
    let last = store.find_one(&id);
    let changed = if store.delete_one(&id, user) {
        last
    } else {
        None
    };
    owner_outcome(id, changed)
}

/// Why an edit is refused, if it is: as any write of the creator's, and, once
/// the text is known to be an identifier, for a title or options that are not
/// acceptable.
pub open spec fn edit_refusal(
    polls: Seq<PollView>,
    session: SessionView,
    poll_id: Seq<char>,
    title: Seq<char>,
    texts: Seq<Seq<char>>,
) -> Option<WebauthnError> {
    if session.user_id.is_none() {
        Some(WebauthnError::NoActiveSession)
    } else if !is_poll_id_text(poll_id) {
        Some(WebauthnError::Unknown)
    } else if !acceptable(title, texts) {
        Some(WebauthnError::Unknown)
    } else if !owner_matches(polls, poll_id_bytes(poll_id), session.user_id.unwrap()) {
        Some(WebauthnError::Unknown)
    } else {
        None
    }
}

/// An edit that may be issued to the store: who asks, for which poll, and
/// the new title and options.
#[derive(Debug)]
pub struct EditCommand {
    pub user: u128,
    pub poll: PollId,
    pub title: String,
    pub options: Vec<PollOption>,
}

/// Checks an edit before the store is asked. An anonymous session is refused
/// first, then a text that is no identifier, then a title or options that
/// are not acceptable. The new options are numbered afresh and have no
/// votes.
pub fn edit_request(session: &Session, poll_id: &str, edit_data: EditPollRequest) -> (r: Result<
    EditCommand,
    WebauthnError,
>)
    requires
        edit_data.options.len() < i32::MAX,
    ensures
        match r {
            Ok(command) => {
                &&& session@.user_id == Some(command.user)
                &&& is_poll_id_text(poll_id@)
                &&& command.poll@ == poll_id_bytes(poll_id@)
                &&& acceptable(edit_data.title@, texts_of(edit_data.options@))
                &&& command.title@ == edit_data.title@
                &&& option_views(command.options@) == numbered(
                    kept(texts_of(edit_data.options@)),
                )
            },
            Err(e) => e == if session@.user_id.is_none() {
                WebauthnError::NoActiveSession
            } else {
                WebauthnError::Unknown
            } && (session@.user_id.is_none() || !is_poll_id_text(poll_id@) || !acceptable(
                edit_data.title@,
                texts_of(edit_data.options@),
            )),
        },
{
    let (user, poll) = match owner_request(session, poll_id) {
        Ok(request) => request,
        Err(e) => {
            return Err(e);
        },
    };
    match validate(edit_data.title.as_str(), &edit_data.options) {
        Ok(options) => Ok(EditCommand { user, poll, title: edit_data.title, options }),
        Err(e) => Err(e),
    }
}

/// Takes in what an edit gave: the poll as it now stands, or nothing where
/// the edit matched none. The poll is shown to the client and handed out for
/// the viewers; an edit that matched nothing is refused.
pub fn edit_outcome(id: PollId, updated: Option<Poll>) -> (r: Result<
    (PollResponse, Poll),
    WebauthnError,
>)
    ensures
        match updated {
            Some(poll) => r matches Ok((response, published)) && published@ == poll@.under(id@)
                && response@ == response_of(poll@.under(id@)),
            None => r matches Err(e) && e == WebauthnError::Unknown,
        },
{
    match updated {
        Some(poll) => {
            let published = poll.under(id);
            Ok((PollResponse::from_poll(&published), published))
        },
        None => Err(WebauthnError::Unknown),
    }
}

/// Gives a poll a new title and new options for its creator, shows the poll
/// as it now stands, and hands it out for the viewers. The new options are
/// numbered afresh and have no votes.
pub fn edit_poll(
    store: &mut PollStore,
    session: &Session,
    poll_id: &str,
    edit_data: EditPollRequest,
) -> (r: Result<(PollResponse, Poll), WebauthnError>)
    requires
        old(store).well_formed(),
        edit_data.options.len() < i32::MAX,
    ensures
        match edit_refusal(
            old(store)@,
            session@,
            poll_id@,
            edit_data.title@,
            texts_of(edit_data.options@),
        ) {
            None => {
                &&& final(store)@ == after_edit(
                    old(store)@,
                    poll_id_bytes(poll_id@),
                    session@.user_id.unwrap(),
                    edit_data.title@,
                    kept(texts_of(edit_data.options@)),
                )
                &&& r matches Ok((response, poll)) && Some(poll@) == fetch(
                    final(store)@,
                    poll_id_bytes(poll_id@),
                ) && response@ == response_of(poll@)
            },
            Some(e) => final(store)@ == old(store)@ && (r matches Err(given) && given == e),
        },
        final(store).well_formed(),
{
    let command = match edit_request(session, poll_id, edit_data) {
        Ok(command) => command,
        Err(e) => {
            return Err(e);
        },
    };
    let id = command.poll;
    let updated = if store.edit(&id, command.user, command.title, command.options) {
        proof {
            lemma_locate(old(store)@, id@);
            lemma_locate_after_update(
                old(store)@,
                locate(old(store)@, id@).unwrap(),
                fetch(old(store)@, id@).unwrap().edited(
                    edit_data.title@,
                    kept(texts_of(edit_data.options@)),
                ),
                id@,
            );
        }
        store.find_one(&id)
    } else {
        None
    };
    edit_outcome(id, updated)
}

/// Shows the polls that the user of the session created, in the order of the
/// store.
pub fn get_user_polls(store: &PollStore, session: &Session) -> (r: Result<
    Vec<PollResponse>,
    WebauthnError,
>)
    requires
        store.well_formed(),
    ensures
        match r {
            Ok(list) => session@.user_id.is_some() && response_views(list@) == responses_of(
                created_by(store@, session@.user_id.unwrap()),
            ),
            Err(e) => session@.user_id.is_none() && e == WebauthnError::NoActiveSession,
        },
{
    let user = match session.require_user() {
        Ok(user) => user,
        Err(e) => {
            return Err(e);
        },
    };
    let polls = store.find_by_creator(user);
    Ok(responses(&polls))
}

/// Shows every poll, in the order of the store.
pub fn get_all_polls(store: &PollStore) -> (list: Vec<PollResponse>)
    requires
        store.well_formed(),
    ensures
        response_views(list@) == responses_of(store@),
{
    let polls = store.find_all();
    responses(&polls)
}

} // verus!

use crate::auth::{after_finish, can_finish, finish_refusal, still_fresh};
use crate::error::WebauthnError;
use crate::ident::{hex_digit, hex_text, hex_value, is_poll_id_text, poll_id_bytes};
use crate::live::{join_request, step, ActionView, ConnectionView, EventView};
use crate::models::PollView;
use crate::polls::{owner_refusal, vote_refusal};
use crate::session::SessionView;
use crate::store::{
    after_delete, after_vote, consistent, fetch, lemma_locate, lemma_locate_after_update, locate,
    vote_matches,
};
use vstd::prelude::*;

verus! {

/// The text of an identifier reads back as the identifier: what `to_hex`
/// writes of twelve bytes, `parse_str` accepts and turns into those bytes.
pub proof fn identifier_text_reads_back(bytes: Seq<u8>)
    requires
        bytes.len() == 12,
    ensures
        is_poll_id_text(hex_text(bytes)),
        poll_id_bytes(hex_text(bytes)) == bytes,
{
    assert forall|n: int| 0 <= n < 16 implies hex_value(#[trigger] hex_digit(n)) == Some(n) by {
        if n < 10 {
            assert(hex_digit(n) as int == '0' as int + n);
        } else {
            assert(hex_digit(n) as int == 'a' as int + n - 10);
        }
    }
    let text = hex_text(bytes);
    assert forall|i: int| 0 <= i < 24 implies (#[trigger] hex_value(text[i])).is_some() by {
        let n = if i % 2 == 0 {
            bytes[i / 2] as int / 16
        } else {
            bytes[i / 2] as int % 16
        };
        assert(text[i] == hex_digit(n));
        assert(hex_value(hex_digit(n)) == Some(n));
    }
    assert forall|i: int| 0 <= i < 12 implies poll_id_bytes(text)[i] == bytes[i] by {
        let high = bytes[i] as int / 16;
        let low = bytes[i] as int % 16;
        assert(text[2 * i] == hex_digit(high));
        assert(text[2 * i + 1] == hex_digit(low));
        assert(hex_value(hex_digit(high)) == Some(high));
        assert(hex_value(hex_digit(low)) == Some(low));
    }
    assert(poll_id_bytes(text) =~= bytes);
}

/// A frame made of the word `join_poll:` and an identifier's text asks to
/// join the poll of that identifier.
pub proof fn join_frame_names_its_poll(bytes: Seq<u8>)
    requires
        bytes.len() == 12,
    ensures
        join_request("join_poll:"@ + hex_text(bytes)) == Some(bytes),
{
    reveal_strlit("join_poll:");
    identifier_text_reads_back(bytes);
    let frame = "join_poll:"@ + hex_text(bytes);
    assert(frame.subrange(0, 10) =~= "join_poll:"@);
    assert(frame.skip(10) =~= hex_text(bytes));
}

/// A ceremony is finished once. Finishing a pending ceremony in time, with a
/// response that the verifier accepts, succeeds; finishing it again is
/// refused with `NoChallengeFound`, at whatever moment, whatever the verifier
/// would say of the response, and however the first attempt ended.
pub proof fn ceremony_finishes_once(
    pending: Map<u128, i64>,
    lifetime: i64,
    ceremony_id: u128,
    now: i64,
    later: i64,
    again: bool,
)
    ensures
        can_finish(pending, lifetime, ceremony_id, now) ==> finish_refusal(
            pending,
            lifetime,
            ceremony_id,
            now,
            true,
        ).is_none(),
        finish_refusal(after_finish(pending, ceremony_id), lifetime, ceremony_id, later, again)
            == Some(WebauthnError::NoChallengeFound),
{
}

/// A stale ceremony is not finished: once more than the lifetime has passed
/// since its start, the answer is `NoChallengeFound`, whatever the verifier
/// would say of the response.
pub proof fn stale_ceremony_is_refused(
    pending: Map<u128, i64>,
    lifetime: i64,
    ceremony_id: u128,
    now: i64,
    verified: bool,
)
    requires
        pending.contains_key(ceremony_id),
        now - pending[ceremony_id] > lifetime,
    ensures
        finish_refusal(pending, lifetime, ceremony_id, now, verified) == Some(
            WebauthnError::NoChallengeFound,
        ),
{
}

/// Dropping the stale ceremonies changes no answer: a ceremony can be
/// finished at a moment after the purge of that moment exactly if it could
/// before.
pub proof fn purge_changes_no_answer(
    pending: Map<u128, i64>,
    lifetime: i64,
    ceremony_id: u128,
    now: i64,
    verified: bool,
)
    ensures
        finish_refusal(still_fresh(pending, now, lifetime), lifetime, ceremony_id, now, verified)
            == finish_refusal(pending, lifetime, ceremony_id, now, verified),
{
}

/// The polls after `n` conditional increments for one option of one poll, one
/// after the other.
pub open spec fn after_votes(polls: Seq<PollView>, id: Seq<u8>, option_id: int, n: nat) -> Seq<
    PollView,
>
    decreases n,
{
    if n == 0 {
        polls
    } else {
        after_vote(after_votes(polls, id, option_id, (n - 1) as nat), id, option_id)
    }
}

/// The tally after `n` votes for an option is `n` higher, and the votes
/// leave the rest of the poll alone.
pub proof fn lemma_with_votes(poll: PollView, option_id: int, n: nat)
    requires
        poll.has_option(option_id),
    ensures
        poll.with_votes(option_id, n).votes_of(option_id) == poll.votes_of(option_id) + n,
        poll.with_votes(option_id, n).options.len() == poll.options.len(),
        poll.with_votes(option_id, n).is_closed == poll.is_closed,
        poll.with_votes(option_id, n).id == poll.id,
        forall|other: int|
            poll.has_option(other) && other != option_id ==> poll.with_votes(
                option_id,
                n,
            ).votes_of(other) == poll.votes_of(other),
    decreases n,
{
    if n > 0 {
        lemma_with_votes(poll, option_id, (n - 1) as nat);
    }
}

/// No vote is lost. On an open poll that has the option, `n` conditional
/// increments for that option, in whatever order the store applies them,
/// raise its tally by exactly `n`; every one of them matches; and no other
/// tally and no other poll changes.
pub proof fn votes_are_all_counted(polls: Seq<PollView>, id: Seq<u8>, option_id: int, n: nat)
    requires
        vote_matches(polls, id, option_id),
    ensures
        after_votes(polls, id, option_id, n) == polls.update(
            locate(polls, id).unwrap(),
            fetch(polls, id).unwrap().with_votes(option_id, n),
        ),
        vote_matches(after_votes(polls, id, option_id, n), id, option_id),
        fetch(after_votes(polls, id, option_id, n), id).unwrap().votes_of(option_id) == fetch(
            polls,
            id,
        ).unwrap().votes_of(option_id) + n,
        forall|other: int|
            fetch(polls, id).unwrap().has_option(other) && other != option_id ==> fetch(
                after_votes(polls, id, option_id, n),
                id,
            ).unwrap().votes_of(other) == fetch(polls, id).unwrap().votes_of(other),
    decreases n,
{
    let i = locate(polls, id).unwrap();
    let poll = fetch(polls, id).unwrap();
    lemma_locate(polls, id);
    lemma_with_votes(poll, option_id, n);
    if n == 0 {
        assert(polls.update(i, poll) =~= polls);
    } else {
        let m = (n - 1) as nat;
        votes_are_all_counted(polls, id, option_id, m);
        lemma_with_votes(poll, option_id, m);
        let before = after_votes(polls, id, option_id, m);
        lemma_locate_after_update(polls, i, poll.with_votes(option_id, m), id);
        assert(locate(before, id) == Some(i));
        assert(before[i] == poll.with_votes(option_id, m));
        assert(after_votes(polls, id, option_id, n) =~= polls.update(
            i,
            poll.with_votes(option_id, n),
        ));
        lemma_locate_after_update(polls, i, poll.with_votes(option_id, n), id);
    }
}

/// Every vote in turn is accepted. While the tally stays within what the
/// store can hold, each of `n` votes for an option of an open poll, cast by a
/// session that has not voted on the poll, is accepted, however many of the
/// others were counted before it.
pub proof fn each_vote_is_accepted(
    polls: Seq<PollView>,
    session: SessionView,
    poll_id: Seq<char>,
    option_id: int,
    n: nat,
    counted: nat,
)
    requires
        is_poll_id_text(poll_id),
        vote_matches(polls, poll_id_bytes(poll_id), option_id),
        fetch(polls, poll_id_bytes(poll_id)).unwrap().votes_of(option_id) + n <= i32::MAX,
        counted < n,
        !session.voted.contains(poll_id_bytes(poll_id)),
    ensures
        vote_refusal(
            after_votes(polls, poll_id_bytes(poll_id), option_id, counted),
            session,
            poll_id,
            option_id,
        ).is_none(),
{
    votes_are_all_counted(polls, poll_id_bytes(poll_id), option_id, counted);
}

/// A closed poll takes no vote. Whatever the option, there or not, and
/// whoever asks, the vote is refused and no tally of any poll changes.
pub proof fn closed_poll_takes_no_vote(
    polls: Seq<PollView>,
    session: SessionView,
    poll_id: Seq<char>,
    option_id: int,
)
    requires
        is_poll_id_text(poll_id),
        fetch(polls, poll_id_bytes(poll_id)) matches Some(poll) && poll.is_closed,
    ensures
        !vote_matches(polls, poll_id_bytes(poll_id), option_id),
        after_vote(polls, poll_id_bytes(poll_id), option_id) == polls,
        vote_refusal(polls, session, poll_id, option_id) == Some(WebauthnError::Unknown),
{
}

/// A session votes once on a poll. After an accepted vote, a vote of the same
/// session on the same poll is refused, for whatever option, and changes
/// nothing.
pub proof fn session_votes_once(
    polls: Seq<PollView>,
    session: SessionView,
    poll_id: Seq<char>,
    first: int,
    second: int,
)
    requires
        vote_refusal(polls, session, poll_id, first).is_none(),
    ensures
        vote_refusal(
            after_vote(polls, poll_id_bytes(poll_id), first),
            SessionView { voted: session.voted.insert(poll_id_bytes(poll_id)), ..session },
            poll_id,
            second,
        ) == Some(WebauthnError::Unknown),
{
}

/// Only the creator deletes a poll. Asked by another user, the deletion is
/// refused with the answer that a poll which does not exist gets, the store
/// is unchanged, and the poll is still there to fetch.
pub proof fn foreign_delete_is_refused(
    polls: Seq<PollView>,
    session: SessionView,
    poll_id: Seq<char>,
    missing: Seq<char>,
)
    requires
        is_poll_id_text(poll_id),
        is_poll_id_text(missing),
        session.user_id.is_some(),
        fetch(polls, poll_id_bytes(poll_id)) matches Some(poll) && Some(poll.creator_id)
            != session.user_id,
        fetch(polls, poll_id_bytes(missing)).is_none(),
    ensures
        owner_refusal(polls, session, poll_id) == Some(WebauthnError::Unknown),
        owner_refusal(polls, session, poll_id) == owner_refusal(polls, session, missing),
        after_delete(polls, poll_id_bytes(poll_id), session.user_id.unwrap()) == polls,
        fetch(
            after_delete(polls, poll_id_bytes(poll_id), session.user_id.unwrap()),
            poll_id_bytes(poll_id),
        ) == fetch(polls, poll_id_bytes(poll_id)),
{
}

/// A poll on its way to the client: a snapshot, which answers a fetch, or a
/// broadcast, which passes on what the hub published.
pub struct Frame {
    pub is_snapshot: bool,
    pub poll: PollView,
}

/// The frame that an event puts on a connection, if it puts one there.
pub open spec fn emitted(connection: ConnectionView, event: EventView) -> Option<Frame> {
    match (event, step(connection, event).1) {
        (EventView::Fetched(_, _), ActionView::SendPoll(poll)) => Some(
            Frame { is_snapshot: true, poll },
        ),
        (EventView::Published(_), ActionView::SendPoll(poll)) => Some(
            Frame { is_snapshot: false, poll },
        ),
        _ => None,
    }
}

/// The connection after a run of events.
pub open spec fn after(connection: ConnectionView, events: Seq<EventView>) -> ConnectionView
    decreases events.len(),
{
    if events.len() == 0 {
        connection
    } else {
        step(after(connection, events.drop_last()), events.last()).0
    }
}

/// The frames that a run of events puts on a connection, in order.
pub open spec fn frames(connection: ConnectionView, events: Seq<EventView>) -> Seq<Frame>
    decreases events.len(),
{
    if events.len() == 0 {
        Seq::empty()
    } else {
        let earlier = frames(connection, events.drop_last());
        match emitted(after(connection, events.drop_last()), events.last()) {
            Some(frame) => earlier.push(frame),
            None => earlier,
        }
    }
}

/// Whether a frame is a snapshot of the poll with an identifier.
pub open spec fn is_snapshot_of(frame: Frame, id: Seq<u8>) -> bool {
    frame.is_snapshot && frame.poll.id == Some(id)
}

/// Whether a snapshot of a poll stands among the first `upto` frames.
pub open spec fn snapshot_sent(frames: Seq<Frame>, id: Seq<u8>, upto: int) -> bool {
    exists|j: int| 0 <= j < upto && j < frames.len() && is_snapshot_of(#[trigger] frames[j], id)
}

/// What one event does: it puts at most one frame on the connection; a
/// snapshot is of the poll that the connection joins with it, a broadcast is
/// of a poll that the connection had joined; and the connection joins
/// nothing without a snapshot.
pub proof fn lemma_step(connection: ConnectionView, event: EventView)
    ensures
        match emitted(connection, event) {
            Some(frame) => if frame.is_snapshot {
                frame.poll.id.is_some() && step(connection, event).0.joined
                    == connection.joined.insert(frame.poll.id.unwrap())
            } else {
                frame.poll.id.is_some() && connection.joined.contains(frame.poll.id.unwrap())
                    && step(connection, event).0.joined == connection.joined
            },
            None => step(connection, event).0.joined == connection.joined,
        },
{
}

/// A snapshot comes first. On a connection that starts without a joined
/// poll, a snapshot of every poll that the connection has joined has been
/// sent, and every broadcast frame of a poll comes after a snapshot frame of
/// that poll.
pub proof fn snapshot_precedes_broadcast(connection: ConnectionView, events: Seq<EventView>)
    requires
        connection.joined == Set::<Seq<u8>>::empty(),
    ensures
        forall|id: Seq<u8>| #[trigger]
            after(connection, events).joined.contains(id) ==> snapshot_sent(
                frames(connection, events),
                id,
                frames(connection, events).len() as int,
            ),
        forall|i: int|
            0 <= i < frames(connection, events).len() && !(#[trigger] frames(
                connection,
                events,
            )[i]).is_snapshot ==> frames(connection, events)[i].poll.id.is_some() && snapshot_sent(
                frames(connection, events),
                frames(connection, events)[i].poll.id.unwrap(),
                i,
            ),
    decreases events.len(),
{
    if events.len() > 0 {
        let head = events.drop_last();
        snapshot_precedes_broadcast(connection, head);
        let earlier = frames(connection, head);
        let now = after(connection, head);
        let all = frames(connection, events);
        lemma_step(now, events.last());
        assert forall|id: Seq<u8>, upto: int| #[trigger]
            snapshot_sent(earlier, id, upto) implies snapshot_sent(all, id, upto) by {
            let j = choose|j: int|
                0 <= j < upto && j < earlier.len() && is_snapshot_of(#[trigger] earlier[j], id);
            assert(all[j] == earlier[j]);
        }
        assert forall|id: Seq<u8>| #[trigger]
            after(connection, events).joined.contains(id) implies snapshot_sent(
            all,
            id,
            all.len() as int,
        ) by {
            if now.joined.contains(id) {
                assert(snapshot_sent(earlier, id, earlier.len() as int));
                assert(snapshot_sent(all, id, earlier.len() as int));
                let j = choose|j: int|
                    0 <= j < earlier.len() && j < all.len() && is_snapshot_of(#[trigger] all[j], id);
                assert(is_snapshot_of(all[j], id));
            } else {
                let frame = emitted(now, events.last()).unwrap();
                assert(all[earlier.len() as int] == frame);
                assert(is_snapshot_of(all[earlier.len() as int], id));
            }
        }
        assert forall|i: int| 0 <= i < all.len() && !(#[trigger] all[i]).is_snapshot implies all[i].poll.id.is_some()
            && snapshot_sent(all, all[i].poll.id.unwrap(), i) by {
            if i < earlier.len() {
                assert(all[i] == earlier[i]);
                assert(snapshot_sent(earlier, earlier[i].poll.id.unwrap(), i));
            } else {
                let id = all[i].poll.id.unwrap();
                assert(now.joined.contains(id));
                assert(snapshot_sent(earlier, id, earlier.len() as int));
                assert(snapshot_sent(all, id, i));
            }
        }
    }
}

/// A request to join an existing poll is answered by one snapshot. On a
/// connection that is up, the request has the poll fetched; the fetched poll
/// is sent once, under the identifier that was asked for; and from then on
/// what the hub publishes of that poll is passed on.
pub proof fn join_is_answered_by_one_snapshot(
    connection: ConnectionView,
    text: Seq<char>,
    poll: PollView,
    published: PollView,
)
    requires
        connection.open,
        join_request(text).is_some(),
        poll.id == join_request(text),
        published.id == join_request(text),
    ensures
        step(connection, EventView::Text(text)) == (
            connection,
            ActionView::Fetch(join_request(text).unwrap()),
        ),
        emitted(connection, EventView::Text(text)).is_none(),
        emitted(connection, EventView::Fetched(join_request(text).unwrap(), Some(poll))) == Some(
            Frame { is_snapshot: true, poll },
        ),
        step(
            step(connection, EventView::Fetched(join_request(text).unwrap(), Some(poll))).0,
            EventView::Published(published),
        ).1 == ActionView::SendPoll(published),
{
}

} // verus!

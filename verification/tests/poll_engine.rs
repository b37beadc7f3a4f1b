use live_polls::error::WebauthnError;
use live_polls::ident::PollId;
use live_polls::models::{Poll, PollOption, User};
use live_polls::polls::{
    close_poll, create_poll, create_poll_as, create_request, delete_poll, edit_outcome,
    edit_poll, edit_request, get_all_polls, get_poll, owner_outcome, poll_created, poll_request,
    shown_poll, vote_outcome, vote_request,
    blank_flags, check_input, get_user_polls, numbered_options, options_from, owner_request,
    reset_poll, validate, vote_on_poll, CreatePollRequest, EditPollRequest, PollResponse,
    VoteRequest,
};
use live_polls::session::Session;
use live_polls::store::PollStore;

const ALICE: u128 = 1;
const BOB: u128 = 2;

fn texts(options: &[&str]) -> Vec<String> {
    options.iter().map(|o| o.to_string()).collect()
}

fn request(title: &str, options: &[&str]) -> CreatePollRequest {
    CreatePollRequest { title: title.to_string(), options: texts(options) }
}

fn edit(title: &str, options: &[&str]) -> EditPollRequest {
    EditPollRequest { title: title.to_string(), options: texts(options) }
}

fn id(last: u8) -> PollId {
    let mut bytes = [0u8; 12];
    bytes[11] = last;
    PollId { bytes }
}

fn store_with_poll(creator: u128, poll: PollId) -> PollStore {
    let mut store = PollStore::new();
    let made = create_poll_as(
        &mut store,
        &Session::establish(creator),
        request("Pick", &["a", "b", "c"]),
        poll,
        1000,
    );
    assert!(made.is_ok());
    store
}

fn tallies(store: &PollStore, poll: &PollId) -> Vec<i32> {
    store.find_one(poll).unwrap().options.iter().map(|o| o.votes).collect()
}

#[test]
fn create_poll_with_empty_title_is_refused() {
    let mut store = PollStore::new();
    let r = create_poll(&mut store, &Session::establish(ALICE), request("", &["a", "b"]));
    assert_eq!(r.err(), Some(WebauthnError::Unknown));
    assert_eq!(WebauthnError::Unknown.status_code(), 400);
    assert_eq!(store.len(), 0);
}

#[test]
fn create_poll_with_blank_title_is_refused() {
    let mut store = PollStore::new();
    let r = create_poll(&mut store, &Session::establish(ALICE), request(" \t ", &["a", "b"]));
    assert_eq!(r.err(), Some(WebauthnError::Unknown));
    assert_eq!(store.len(), 0);
}

#[test]
fn create_poll_with_one_option_after_trim_is_refused() {
    let mut store = PollStore::new();
    let r = create_poll(&mut store, &Session::establish(ALICE), request("Pick", &["  ", "a"]));
    assert_eq!(r.err(), Some(WebauthnError::Unknown));
    assert_eq!(WebauthnError::Unknown.status_code(), 400);
    assert_eq!(store.len(), 0);
}

#[test]
fn create_poll_numbers_options_from_one_without_votes() {
    let mut store = PollStore::new();
    let r = create_poll(&mut store, &Session::establish(ALICE), request("Pick", &["a", "b"]));
    let response = r.unwrap();
    assert_eq!(response.title, "Pick");
    assert!(!response.is_closed);
    assert_eq!(response.options.len(), 2);
    assert_eq!(response.options[0].id, 1);
    assert_eq!(response.options[0].text, "a");
    assert_eq!(response.options[0].votes, 0);
    assert_eq!(response.options[1].id, 2);
    assert_eq!(response.options[1].text, "b");
    assert_eq!(response.options[1].votes, 0);
    assert_eq!(store.len(), 1);
    let stored = get_poll(&store, &response.id).unwrap();
    assert_eq!(stored.id, response.id);
    assert_eq!(stored.title, "Pick");
    assert_eq!(stored.options.len(), 2);
}

#[test]
fn create_poll_by_anonymous_session_is_refused() {
    let mut store = PollStore::new();
    let r = create_poll(&mut store, &Session::anonymous(), request("Pick", &["a", "b"]));
    assert_eq!(r.err(), Some(WebauthnError::NoActiveSession));
    assert_eq!(WebauthnError::NoActiveSession.status_code(), 401);
    assert_eq!(store.len(), 0);
}

#[test]
fn create_poll_skips_blank_options_and_keeps_the_rest_as_sent() {
    let mut store = PollStore::new();
    let r = create_poll_as(
        &mut store,
        &Session::establish(ALICE),
        request(" Pick ", &["", " a ", "   ", "b", "\n"]),
        id(7),
        1234,
    );
    let response = r.unwrap();
    assert_eq!(response.id, "000000000000000000000007");
    assert_eq!(response.title, " Pick ");
    assert_eq!(response.options.len(), 2);
    assert_eq!((response.options[0].id, response.options[0].text.as_str()), (1, " a "));
    assert_eq!((response.options[1].id, response.options[1].text.as_str()), (2, "b"));
    let stored = store.find_one(&id(7)).unwrap();
    assert_eq!(stored.creator_id, ALICE);
    assert_eq!(stored.created_at, 1234);
    assert_eq!(stored.id, Some(id(7)));
    assert!(!stored.is_closed);
}

#[test]
fn create_poll_under_a_taken_identifier_is_a_store_failure() {
    let mut store = store_with_poll(ALICE, id(1));
    let r = create_poll_as(&mut store, &Session::establish(BOB), request("Other", &["x", "y"]), id(1), 5);
    assert_eq!(r.err(), Some(WebauthnError::MongoDBError));
    assert_eq!(store.len(), 1);
    assert_eq!(store.find_one(&id(1)).unwrap().title, "Pick");
}

#[test]
fn numbered_options_drop_blank_texts() {
    let options = numbered_options(&texts(&["x", " ", "y", "", "z"]));
    let seen: Vec<(i32, String, i32)> =
        options.iter().map(|o| (o.id, o.text.clone(), o.votes)).collect();
    assert_eq!(
        seen,
        vec![(1, "x".to_string(), 0), (2, "y".to_string(), 0), (3, "z".to_string(), 0)]
    );
    assert!(numbered_options(&texts(&[" ", ""])).is_empty());
}

#[test]
fn options_are_made_of_the_texts_without_a_flag() {
    let options = options_from(&texts(&["x", "y", "z", "w"]), &vec![true, false, false, true]);
    let seen: Vec<(i32, String, i32)> =
        options.iter().map(|o| (o.id, o.text.clone(), o.votes)).collect();
    assert_eq!(seen, vec![(1, "y".to_string(), 0), (2, "z".to_string(), 0)]);
    assert!(options_from(&texts(&["x"]), &vec![true]).is_empty());
    assert!(options_from(&texts(&[]), &vec![]).is_empty());
}

#[test]
fn blank_flags_mark_the_blank_texts() {
    assert_eq!(
        blank_flags(&texts(&["x", " ", "", " y", "\t\n"])),
        vec![false, true, true, false, true]
    );
    assert!(blank_flags(&texts(&[])).is_empty());
}

#[test]
fn input_needs_a_title_and_two_kept_options() {
    let two = || vec![PollOption::new(1, "a".to_string()), PollOption::new(2, "b".to_string())];
    assert_eq!(check_input(false, two()).map(|o| o.len()), Ok(2));
    assert_eq!(check_input(true, two()).err(), Some(WebauthnError::Unknown));
    let one = vec![PollOption::new(1, "a".to_string())];
    assert_eq!(check_input(false, one).err(), Some(WebauthnError::Unknown));
    assert_eq!(check_input(false, Vec::new()).err(), Some(WebauthnError::Unknown));
}

#[test]
fn validate_asks_for_a_title_and_two_options() {
    assert!(validate("t", &texts(&["a", "b"])).is_ok());
    assert_eq!(validate("t", &texts(&["a"])).err(), Some(WebauthnError::Unknown));
    assert_eq!(validate("t", &texts(&[])).err(), Some(WebauthnError::Unknown));
    assert_eq!(validate(" ", &texts(&["a", "b"])).err(), Some(WebauthnError::Unknown));
    assert_eq!(validate("t", &texts(&["a", " ", ""])).err(), Some(WebauthnError::Unknown));
}

#[test]
fn get_poll_refuses_malformed_and_unknown_identifiers() {
    let store = store_with_poll(ALICE, id(1));
    assert_eq!(get_poll(&store, "nonsense").err(), Some(WebauthnError::Unknown));
    assert_eq!(
        get_poll(&store, "000000000000000000000002").err(),
        Some(WebauthnError::Unknown)
    );
    let shown = get_poll(&store, "000000000000000000000001").unwrap();
    assert_eq!(shown.id, "000000000000000000000001");
    assert_eq!(shown.title, "Pick");
    assert_eq!(shown.options.len(), 3);
}

#[test]
fn vote_raises_one_tally_by_one() {
    let mut store = store_with_poll(ALICE, id(1));
    let mut session = Session::anonymous();
    let poll = vote_on_poll(&mut store, &mut session, &id(1).to_hex(), &VoteRequest { option_id: 2 })
        .unwrap();
    assert_eq!(poll.id, Some(id(1)));
    assert_eq!(poll.options.iter().map(|o| o.votes).collect::<Vec<i32>>(), vec![0, 1, 0]);
    assert_eq!(tallies(&store, &id(1)), vec![0, 1, 0]);
    assert!(session.has_voted(&id(1)));
}

#[test]
fn votes_of_many_sessions_are_all_counted() {
    let mut store = store_with_poll(ALICE, id(1));
    let other = create_poll_as(
        &mut store,
        &Session::establish(BOB),
        request("Other", &["x", "y"]),
        id(2),
        1,
    );
    assert!(other.is_ok());
    let n: i32 = 250;
    for _ in 0..n {
        let mut session = Session::anonymous();
        let r = vote_on_poll(&mut store, &mut session, &id(1).to_hex(), &VoteRequest { option_id: 3 });
        assert!(r.is_ok());
    }
    assert_eq!(tallies(&store, &id(1)), vec![0, 0, n]);
    assert_eq!(tallies(&store, &id(2)), vec![0, 0]);
}

#[test]
fn vote_on_closed_poll_changes_no_tally() {
    let mut store = store_with_poll(ALICE, id(1));
    let mut first = Session::anonymous();
    assert!(vote_on_poll(&mut store, &mut first, &id(1).to_hex(), &VoteRequest { option_id: 1 }).is_ok());
    assert!(close_poll(&mut store, &Session::establish(ALICE), &id(1).to_hex()).is_ok());
    for option_id in [-1, 0, 1, 2, 3, 4, i32::MAX, i32::MIN] {
        let mut session = Session::anonymous();
        let r = vote_on_poll(&mut store, &mut session, &id(1).to_hex(), &VoteRequest { option_id });
        assert_eq!(r.err(), Some(WebauthnError::Unknown));
        assert!(!session.has_voted(&id(1)));
        assert_eq!(tallies(&store, &id(1)), vec![1, 0, 0]);
    }
    assert!(get_poll(&store, &id(1).to_hex()).unwrap().is_closed);
}

#[test]
fn session_cannot_vote_twice_on_a_poll() {
    let mut store = store_with_poll(ALICE, id(1));
    let mut session = Session::establish(BOB);
    assert!(vote_on_poll(&mut store, &mut session, &id(1).to_hex(), &VoteRequest { option_id: 1 }).is_ok());
    let same = vote_on_poll(&mut store, &mut session, &id(1).to_hex(), &VoteRequest { option_id: 1 });
    assert_eq!(same.err(), Some(WebauthnError::Unknown));
    let other = vote_on_poll(&mut store, &mut session, &id(1).to_hex(), &VoteRequest { option_id: 2 });
    assert_eq!(other.err(), Some(WebauthnError::Unknown));
    assert_eq!(tallies(&store, &id(1)), vec![1, 0, 0]);
}

#[test]
fn session_that_voted_on_one_poll_may_vote_on_another() {
    let mut store = store_with_poll(ALICE, id(1));
    assert!(create_poll_as(&mut store, &Session::establish(ALICE), request("Two", &["x", "y"]), id(2), 1).is_ok());
    let mut session = Session::anonymous();
    assert!(vote_on_poll(&mut store, &mut session, &id(1).to_hex(), &VoteRequest { option_id: 1 }).is_ok());
    assert!(vote_on_poll(&mut store, &mut session, &id(2).to_hex(), &VoteRequest { option_id: 2 }).is_ok());
    assert_eq!(tallies(&store, &id(1)), vec![1, 0, 0]);
    assert_eq!(tallies(&store, &id(2)), vec![0, 1]);
}

#[test]
fn vote_for_missing_option_or_poll_is_refused_and_leaves_no_mark() {
    let mut store = store_with_poll(ALICE, id(1));
    let mut session = Session::anonymous();
    for option_id in [0, 4, -3] {
        let r = vote_on_poll(&mut store, &mut session, &id(1).to_hex(), &VoteRequest { option_id });
        assert_eq!(r.err(), Some(WebauthnError::Unknown));
    }
    let r = vote_on_poll(&mut store, &mut session, &id(9).to_hex(), &VoteRequest { option_id: 1 });
    assert_eq!(r.err(), Some(WebauthnError::Unknown));
    let r = vote_on_poll(&mut store, &mut session, "not-an-id", &VoteRequest { option_id: 1 });
    assert_eq!(r.err(), Some(WebauthnError::Unknown));
    assert!(!session.has_voted(&id(1)));
    assert!(!session.has_voted(&id(9)));
    assert_eq!(tallies(&store, &id(1)), vec![0, 0, 0]);
    assert!(vote_on_poll(&mut store, &mut session, &id(1).to_hex(), &VoteRequest { option_id: 3 }).is_ok());
}

#[test]
fn vote_on_a_full_tally_is_a_store_failure() {
    let mut store = PollStore::new();
    let poll = Poll {
        id: None,
        title: "Full".to_string(),
        options: vec![
            PollOption { id: 1, text: "a".to_string(), votes: i32::MAX },
            PollOption { id: 2, text: "b".to_string(), votes: i32::MAX - 1 },
        ],
        creator_id: ALICE,
        is_closed: false,
        created_at: 0,
    };
    assert!(store.insert_one(poll, id(1)));
    let mut session = Session::anonymous();
    let r = vote_on_poll(&mut store, &mut session, &id(1).to_hex(), &VoteRequest { option_id: 1 });
    assert_eq!(r.err(), Some(WebauthnError::MongoDBError));
    assert!(!session.has_voted(&id(1)));
    assert_eq!(tallies(&store, &id(1)), vec![i32::MAX, i32::MAX - 1]);
    assert!(vote_on_poll(&mut store, &mut session, &id(1).to_hex(), &VoteRequest { option_id: 2 }).is_ok());
    assert_eq!(tallies(&store, &id(1)), vec![i32::MAX, i32::MAX]);
}

#[test]
fn delete_by_another_user_is_refused_and_poll_stays() {
    let mut store = store_with_poll(ALICE, id(1));
    let foreign = delete_poll(&mut store, &Session::establish(BOB), &id(1).to_hex());
    let missing = delete_poll(&mut store, &Session::establish(BOB), &id(2).to_hex());
    assert_eq!(foreign.as_ref().err(), Some(&WebauthnError::Unknown));
    assert_eq!(foreign.err(), missing.err());
    assert_eq!(store.len(), 1);
    assert_eq!(get_poll(&store, &id(1).to_hex()).unwrap().title, "Pick");
    let mine = get_user_polls(&store, &Session::establish(ALICE)).unwrap();
    assert_eq!(mine.len(), 1);
    assert_eq!(mine[0].id, id(1).to_hex());
}

#[test]
fn delete_by_creator_removes_the_poll() {
    let mut store = store_with_poll(ALICE, id(1));
    assert!(create_poll_as(&mut store, &Session::establish(ALICE), request("Two", &["x", "y"]), id(2), 1).is_ok());
    assert!(delete_poll(&mut store, &Session::establish(ALICE), &id(1).to_hex()).is_ok());
    assert_eq!(store.len(), 1);
    assert_eq!(get_poll(&store, &id(1).to_hex()).err(), Some(WebauthnError::Unknown));
    assert_eq!(get_poll(&store, &id(2).to_hex()).unwrap().title, "Two");
    assert_eq!(
        delete_poll(&mut store, &Session::establish(ALICE), &id(1).to_hex()).err(),
        Some(WebauthnError::Unknown)
    );
}

#[test]
fn owner_writes_need_a_user_and_a_well_written_identifier() {
    let mut store = store_with_poll(ALICE, id(1));
    let text = id(1).to_hex();
    assert_eq!(close_poll(&mut store, &Session::anonymous(), &text).err(), Some(WebauthnError::NoActiveSession));
    assert_eq!(reset_poll(&mut store, &Session::anonymous(), &text).err(), Some(WebauthnError::NoActiveSession));
    assert_eq!(delete_poll(&mut store, &Session::anonymous(), &text).err(), Some(WebauthnError::NoActiveSession));
    assert_eq!(close_poll(&mut store, &Session::anonymous(), "zz").err(), Some(WebauthnError::NoActiveSession));
    assert_eq!(close_poll(&mut store, &Session::establish(ALICE), "zz").err(), Some(WebauthnError::Unknown));
    assert_eq!(close_poll(&mut store, &Session::establish(BOB), &text).err(), Some(WebauthnError::Unknown));
    assert_eq!(reset_poll(&mut store, &Session::establish(BOB), &text).err(), Some(WebauthnError::Unknown));
    assert!(!get_poll(&store, &text).unwrap().is_closed);
    assert_eq!(owner_request(&Session::establish(ALICE), &text), Ok((ALICE, id(1))));
    assert_eq!(owner_request(&Session::anonymous(), &text), Err(WebauthnError::NoActiveSession));
    assert_eq!(owner_request(&Session::establish(ALICE), "x"), Err(WebauthnError::Unknown));
}

#[test]
fn close_keeps_tallies_and_is_repeatable() {
    let mut store = store_with_poll(ALICE, id(1));
    let mut session = Session::anonymous();
    assert!(vote_on_poll(&mut store, &mut session, &id(1).to_hex(), &VoteRequest { option_id: 2 }).is_ok());
    assert!(close_poll(&mut store, &Session::establish(ALICE), &id(1).to_hex()).is_ok());
    assert!(close_poll(&mut store, &Session::establish(ALICE), &id(1).to_hex()).is_ok());
    let shown = get_poll(&store, &id(1).to_hex()).unwrap();
    assert!(shown.is_closed);
    assert_eq!(tallies(&store, &id(1)), vec![0, 1, 0]);
}

#[test]
fn reset_puts_every_tally_to_zero() {
    let mut store = store_with_poll(ALICE, id(1));
    for option_id in [1, 1, 3] {
        let mut session = Session::anonymous();
        assert!(vote_on_poll(&mut store, &mut session, &id(1).to_hex(), &VoteRequest { option_id }).is_ok());
    }
    assert_eq!(tallies(&store, &id(1)), vec![2, 0, 1]);
    assert!(reset_poll(&mut store, &Session::establish(ALICE), &id(1).to_hex()).is_ok());
    assert_eq!(tallies(&store, &id(1)), vec![0, 0, 0]);
    let shown = get_poll(&store, &id(1).to_hex()).unwrap();
    assert_eq!(shown.title, "Pick");
    assert_eq!(shown.options.iter().map(|o| o.text.clone()).collect::<Vec<String>>(), texts(&["a", "b", "c"]));
}

#[test]
fn edit_replaces_title_and_options_and_drops_votes() {
    let mut store = store_with_poll(ALICE, id(1));
    let mut session = Session::anonymous();
    assert!(vote_on_poll(&mut store, &mut session, &id(1).to_hex(), &VoteRequest { option_id: 2 }).is_ok());
    let (shown, published) = edit_poll(
        &mut store,
        &Session::establish(ALICE),
        &id(1).to_hex(),
        edit("Choose", &["x", " ", "y", "z", "w"]),
    )
    .unwrap();
    assert_eq!(published.id, Some(id(1)));
    assert_eq!(published.title, "Choose");
    assert_eq!(published.options.iter().map(|o| o.votes).collect::<Vec<i32>>(), vec![0, 0, 0, 0]);
    assert_eq!(shown.id, id(1).to_hex());
    assert_eq!(shown.title, "Choose");
    let seen: Vec<(i32, String, i32)> =
        shown.options.iter().map(|o| (o.id, o.text.clone(), o.votes)).collect();
    assert_eq!(
        seen,
        vec![
            (1, "x".to_string(), 0),
            (2, "y".to_string(), 0),
            (3, "z".to_string(), 0),
            (4, "w".to_string(), 0)
        ]
    );
    let stored = store.find_one(&id(1)).unwrap();
    assert_eq!(stored.creator_id, ALICE);
    assert_eq!(stored.created_at, 1000);
    assert_eq!(stored.options.len(), 4);
}

#[test]
fn edit_is_refused_for_bad_input_and_for_strangers() {
    let mut store = store_with_poll(ALICE, id(1));
    let text = id(1).to_hex();
    let anonymous = edit_poll(&mut store, &Session::anonymous(), &text, edit("Choose", &["x", "y"]));
    assert_eq!(anonymous.err(), Some(WebauthnError::NoActiveSession));
    let stranger = edit_poll(&mut store, &Session::establish(BOB), &text, edit("Choose", &["x", "y"]));
    assert_eq!(stranger.err(), Some(WebauthnError::Unknown));
    let untitled = edit_poll(&mut store, &Session::establish(ALICE), &text, edit(" ", &["x", "y"]));
    assert_eq!(untitled.err(), Some(WebauthnError::Unknown));
    let thin = edit_poll(&mut store, &Session::establish(ALICE), &text, edit("Choose", &["x", ""]));
    assert_eq!(thin.err(), Some(WebauthnError::Unknown));
    let malformed = edit_poll(&mut store, &Session::establish(ALICE), "12", edit("Choose", &["x", "y"]));
    assert_eq!(malformed.err(), Some(WebauthnError::Unknown));
    let shown = get_poll(&store, &text).unwrap();
    assert_eq!(shown.title, "Pick");
    assert_eq!(shown.options.len(), 3);
}

#[test]
fn lists_keep_the_order_of_the_store() {
    let mut store = PollStore::new();
    for (n, creator, title) in [(1u8, ALICE, "one"), (2, BOB, "two"), (3, ALICE, "three")] {
        let made = create_poll_as(
            &mut store,
            &Session::establish(creator),
            request(title, &["a", "b"]),
            id(n),
            0,
        );
        assert!(made.is_ok());
    }
    let all: Vec<String> = get_all_polls(&store).into_iter().map(|p| p.title).collect();
    assert_eq!(all, vec!["one", "two", "three"]);
    let mine: Vec<PollResponse> = get_user_polls(&store, &Session::establish(ALICE)).unwrap();
    assert_eq!(mine.iter().map(|p| p.title.as_str()).collect::<Vec<&str>>(), vec!["one", "three"]);
    assert_eq!(mine[1].id, id(3).to_hex());
    let nobody = get_user_polls(&store, &Session::establish(77)).unwrap();
    assert!(nobody.is_empty());
    assert_eq!(
        get_user_polls(&store, &Session::anonymous()).err(),
        Some(WebauthnError::NoActiveSession)
    );
}

#[test]
fn poll_apply_vote_is_conditional() {
    let mut poll = Poll::with_timestamp(
        ALICE,
        "Pick".to_string(),
        vec![PollOption::new(1, "a".to_string()), PollOption::new(2, "b".to_string())],
        5,
    );
    assert!(poll.id.is_none());
    assert!(poll.apply_vote(2));
    assert!(!poll.apply_vote(3));
    assert!(!poll.apply_vote(0));
    poll.close();
    assert!(!poll.apply_vote(2));
    assert_eq!(poll.options[0].votes, 0);
    assert_eq!(poll.options[1].votes, 1);
    poll.reset_votes();
    assert_eq!(poll.options[1].votes, 0);
    assert!(poll.is_closed);
    let copy = poll.duplicate();
    assert_eq!(copy.title, "Pick");
    assert_eq!(copy.created_at, 5);
    assert_eq!(copy.options.len(), 2);
}

#[test]
fn new_poll_and_user_carry_what_they_are_given() {
    let poll = Poll::new(BOB, "Now".to_string(), vec![PollOption::new(1, "a".to_string())]);
    assert_eq!(poll.creator_id, BOB);
    assert_eq!(poll.title, "Now");
    assert!(poll.id.is_none());
    assert!(!poll.is_closed);
    assert!(poll.created_at > 1_600_000_000_000);
    let first = User::new("carol".to_string());
    let second = User::new("carol".to_string());
    assert_eq!(first.username, "carol");
    assert_ne!(first.id, second.id);
    assert!(first.created_at > 1_600_000_000_000);
    let fixed = User::with_identity(5, "dave".to_string(), 6);
    assert_eq!((fixed.id, fixed.username.as_str(), fixed.created_at), (5, "dave", 6));
}

#[test]
fn every_change_of_a_poll_hands_out_the_poll_for_the_viewers() {
    let mut store = store_with_poll(ALICE, id(1));
    let owner = Session::establish(ALICE);
    let text = id(1).to_hex();
    let mut voter = Session::anonymous();
    let voted = vote_on_poll(&mut store, &mut voter, &text, &VoteRequest { option_id: 1 }).unwrap();
    assert_eq!(voted.options.iter().map(|o| o.votes).collect::<Vec<i32>>(), vec![1, 0, 0]);
    let closed = close_poll(&mut store, &owner, &text).unwrap();
    assert_eq!((closed.id, closed.is_closed), (Some(id(1)), true));
    assert_eq!(closed.options[0].votes, 1);
    let reset = reset_poll(&mut store, &owner, &text).unwrap();
    assert_eq!((reset.id, reset.is_closed), (Some(id(1)), true));
    assert_eq!(reset.options.iter().map(|o| o.votes).collect::<Vec<i32>>(), vec![0, 0, 0]);
    let (_, edited) = edit_poll(&mut store, &owner, &text, edit("New", &["x", "y"])).unwrap();
    assert_eq!((edited.id, edited.title.as_str(), edited.options.len()), (Some(id(1)), "New", 2));
    let deleted = delete_poll(&mut store, &owner, &text).unwrap();
    assert_eq!((deleted.id, deleted.title.as_str(), deleted.is_closed), (Some(id(1)), "New", true));
    assert_eq!(store.len(), 0);
}

#[test]
fn refused_changes_hand_out_nothing() {
    let mut store = store_with_poll(ALICE, id(1));
    let stranger = Session::establish(BOB);
    let text = id(1).to_hex();
    assert!(close_poll(&mut store, &stranger, &text).is_err());
    assert!(reset_poll(&mut store, &stranger, &text).is_err());
    assert!(delete_poll(&mut store, &stranger, &text).is_err());
    assert!(edit_poll(&mut store, &stranger, &text, edit("New", &["x", "y"])).is_err());
}

#[test]
fn create_request_makes_the_poll_to_store() {
    let poll = create_request(&Session::establish(ALICE), request("Pick", &["a", " ", "b"]), 77).unwrap();
    assert!(poll.id.is_none());
    assert_eq!((poll.title.as_str(), poll.creator_id, poll.is_closed, poll.created_at), ("Pick", ALICE, false, 77));
    assert_eq!(poll.options.iter().map(|o| (o.id, o.text.as_str(), o.votes)).collect::<Vec<_>>(), vec![(1, "a", 0), (2, "b", 0)]);
    let shown = poll_created(&poll, id(3));
    assert_eq!((shown.id.as_str(), shown.title.as_str(), shown.options.len()), ("000000000000000000000003", "Pick", 2));
    assert!(poll.id.is_none());
    let anonymous = create_request(&Session::anonymous(), request("Pick", &["a", "b"]), 77);
    assert_eq!(anonymous.err(), Some(WebauthnError::NoActiveSession));
    let both = create_request(&Session::anonymous(), request("", &[]), 77);
    assert_eq!(both.err(), Some(WebauthnError::NoActiveSession));
    let thin = create_request(&Session::establish(ALICE), request("Pick", &["a"]), 77);
    assert_eq!(thin.err(), Some(WebauthnError::Unknown));
}

#[test]
fn poll_request_reads_the_identifier() {
    assert_eq!(poll_request("0000000000000000000000ff"), Ok(id(255)));
    assert_eq!(poll_request("0000000000000000000000fg"), Err(WebauthnError::Unknown));
    assert_eq!(poll_request(""), Err(WebauthnError::Unknown));
}

#[test]
fn shown_poll_is_the_found_poll_under_the_identifier() {
    let bare = Poll::with_timestamp(ALICE, "t".to_string(), vec![PollOption::new(1, "a".to_string())], 0);
    let shown = shown_poll(Some(bare), id(4)).unwrap();
    assert_eq!((shown.id.as_str(), shown.title.as_str(), shown.is_closed), ("000000000000000000000004", "t", false));
    assert_eq!(shown_poll(None, id(4)).err(), Some(WebauthnError::Unknown));
}

#[test]
fn vote_request_refuses_a_session_that_has_voted() {
    let mut session = Session::anonymous();
    let text = id(1).to_hex();
    assert_eq!(vote_request(&session, &text), Ok(id(1)));
    assert_eq!(vote_request(&session, "x"), Err(WebauthnError::Unknown));
    assert!(session.mark_voted(id(1)));
    assert_eq!(vote_request(&session, &text), Err(WebauthnError::Unknown));
    assert_eq!(vote_request(&session, &id(2).to_hex()), Ok(id(2)));
}

#[test]
fn vote_outcome_marks_the_session_only_for_a_counted_vote() {
    let mut session = Session::establish(BOB);
    let missed = vote_outcome(&mut session, id(1), None);
    assert_eq!(missed.err(), Some(WebauthnError::Unknown));
    assert!(!session.has_voted(&id(1)));
    let poll = Poll::with_timestamp(ALICE, "t".to_string(), vec![PollOption { id: 1, text: "a".to_string(), votes: 5 }], 0);
    let published = vote_outcome(&mut session, id(1), Some(poll)).unwrap();
    assert_eq!((published.id, published.options[0].votes), (Some(id(1)), 5));
    assert!(session.has_voted(&id(1)));
    assert_eq!(session.user_id(), Some(BOB));
}

#[test]
fn owner_outcome_hands_out_the_matched_poll() {
    let poll = Poll::with_timestamp(ALICE, "t".to_string(), Vec::new(), 0);
    let published = owner_outcome(id(2), Some(poll)).unwrap();
    assert_eq!((published.id, published.title.as_str()), (Some(id(2)), "t"));
    assert_eq!(owner_outcome(id(2), None).err(), Some(WebauthnError::Unknown));
}

#[test]
fn edit_request_checks_session_identifier_and_input_in_that_order() {
    let text = id(1).to_hex();
    let command = edit_request(&Session::establish(ALICE), &text, edit("New", &["x", "", "y"])).unwrap();
    assert_eq!((command.user, command.poll, command.title.as_str()), (ALICE, id(1), "New"));
    assert_eq!(command.options.iter().map(|o| (o.id, o.text.as_str(), o.votes)).collect::<Vec<_>>(), vec![(1, "x", 0), (2, "y", 0)]);
    assert_eq!(edit_request(&Session::anonymous(), "x", edit("", &[])).err(), Some(WebauthnError::NoActiveSession));
    assert_eq!(edit_request(&Session::establish(ALICE), "x", edit("New", &["x", "y"])).err(), Some(WebauthnError::Unknown));
    assert_eq!(edit_request(&Session::establish(ALICE), &text, edit("New", &["x"])).err(), Some(WebauthnError::Unknown));
}

#[test]
fn edit_outcome_shows_and_hands_out_the_poll() {
    let poll = Poll::with_timestamp(ALICE, "t".to_string(), vec![PollOption::new(1, "a".to_string())], 0);
    let (shown, published) = edit_outcome(id(2), Some(poll)).unwrap();
    assert_eq!((shown.id.as_str(), shown.title.as_str()), ("000000000000000000000002", "t"));
    assert_eq!((published.id, published.options.len()), (Some(id(2)), 1));
    assert_eq!(edit_outcome(id(2), None).err(), Some(WebauthnError::Unknown));
}

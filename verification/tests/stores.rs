use live_polls::ident::PollId;
use live_polls::models::{Poll, PollOption, User};
use live_polls::store::PollStore;

fn id(last: u8) -> PollId {
    let mut bytes = [0u8; 12];
    bytes[11] = last;
    PollId { bytes }
}

fn poll(creator: u128, title: &str, texts: &[&str]) -> Poll {
    let options = texts
        .iter()
        .enumerate()
        .map(|(i, text)| PollOption::new(i as i32 + 1, text.to_string()))
        .collect();
    Poll::with_timestamp(creator, title.to_string(), options, 42)
}

fn tallies(store: &PollStore, poll: &PollId) -> Vec<i32> {
    store.find_one(poll).unwrap().options.iter().map(|o| o.votes).collect()
}

#[test]
fn new_store_is_empty() {
    let store = PollStore::new();
    assert_eq!(store.len(), 0);
    assert!(store.find_one(&id(1)).is_none());
    assert!(store.find_all().is_empty());
    assert!(store.find_by_creator(1).is_empty());
}

#[test]
fn stored_poll_carries_its_identifier() {
    let mut store = PollStore::new();
    assert!(store.insert_one(poll(1, "one", &["a", "b"]), id(1)));
    assert!(!store.insert_one(poll(2, "other", &["x", "y"]), id(1)));
    assert!(store.insert_one(poll(2, "two", &["x", "y"]), id(2)));
    assert_eq!(store.len(), 2);
    let found = store.find_one(&id(1)).unwrap();
    assert_eq!(found.id, Some(id(1)));
    assert_eq!((found.title.as_str(), found.creator_id, found.created_at), ("one", 1, 42));
    assert!(found.has_id(&id(1)));
    assert!(!found.has_id(&id(2)));
    assert!(!poll(1, "bare", &["a", "b"]).has_id(&id(1)));
}

#[test]
fn conditional_increment_says_whether_it_matched() {
    let mut store = PollStore::new();
    assert!(store.insert_one(poll(1, "one", &["a", "b"]), id(1)));
    assert_eq!(store.increment_vote(&id(1), 2), Some(true));
    assert_eq!(store.increment_vote(&id(1), 2), Some(true));
    assert_eq!(store.increment_vote(&id(1), 3), Some(false));
    assert_eq!(store.increment_vote(&id(1), 0), Some(false));
    assert_eq!(store.increment_vote(&id(1), -1), Some(false));
    assert_eq!(store.increment_vote(&id(2), 1), Some(false));
    assert_eq!(tallies(&store, &id(1)), vec![0, 2]);
    assert!(store.close(&id(1), 1));
    assert_eq!(store.increment_vote(&id(1), 2), Some(false));
    assert_eq!(tallies(&store, &id(1)), vec![0, 2]);
}

#[test]
fn writes_of_the_owner_match_only_for_the_owner() {
    let mut store = PollStore::new();
    assert!(store.insert_one(poll(1, "one", &["a", "b"]), id(1)));
    assert_eq!(store.increment_vote(&id(1), 1), Some(true));
    assert!(!store.close(&id(1), 2));
    assert!(!store.reset(&id(1), 2));
    assert!(!store.delete_one(&id(1), 2));
    assert!(!store.edit(&id(1), 2, "mine".to_string(), vec![PollOption::new(1, "z".to_string())]));
    assert!(!store.close(&id(9), 1));
    let kept = store.find_one(&id(1)).unwrap();
    assert_eq!((kept.title.as_str(), kept.is_closed), ("one", false));
    assert_eq!(tallies(&store, &id(1)), vec![1, 0]);
    assert!(store.reset(&id(1), 1));
    assert_eq!(tallies(&store, &id(1)), vec![0, 0]);
    assert!(store.edit(
        &id(1),
        1,
        "new".to_string(),
        vec![
            PollOption::new(1, "x".to_string()),
            PollOption::new(2, "y".to_string()),
            PollOption::new(3, "z".to_string())
        ]
    ));
    let edited = store.find_one(&id(1)).unwrap();
    assert_eq!(edited.title, "new");
    assert_eq!(edited.options.len(), 3);
    assert_eq!(edited.id, Some(id(1)));
    assert!(store.delete_one(&id(1), 1));
    assert_eq!(store.len(), 0);
}

#[test]
fn copies_hold_what_the_first_held() {
    let option = PollOption { id: 3, text: "c".to_string(), votes: 7 };
    let copy = option.duplicate();
    assert_eq!((copy.id, copy.text.as_str(), copy.votes), (3, "c", 7));
    let user = User::with_identity(1, "alice".to_string(), 2);
    let copy = user.duplicate();
    assert_eq!((copy.id, copy.username.as_str(), copy.created_at), (1, "alice", 2));
}

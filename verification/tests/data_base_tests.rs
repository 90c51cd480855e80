use jira_clone::data_base::edits::position_of;
use jira_clone::data_base::test_utils::MockDatabase;
use jira_clone::data_base::{Database, DbError, JiraDatabase};
use jira_clone::models::{DataBaseState, Epic, Status, Story};
use std::collections::HashMap;

fn epic(name: &str) -> Epic {
    Epic::new(name.to_owned(), format!("about {}", name))
}

fn story(name: &str) -> Story {
    Story::new(name.to_owned(), format!("about {}", name))
}

/// Epic 3 owns the stories 5 and 7; epic 4 owns the story 6.
fn two_epics() -> DataBaseState {
    let mut epics = HashMap::new();
    epics.insert(
        3,
        Epic {
            name: "three".to_owned(),
            description: "".to_owned(),
            status: Status::Open,
            stories: vec![5, 7],
        },
    );
    epics.insert(
        4,
        Epic {
            name: "four".to_owned(),
            description: "".to_owned(),
            status: Status::InProgress,
            stories: vec![6],
        },
    );
    let mut stories = HashMap::new();
    stories.insert(5, story("five"));
    stories.insert(6, story("six"));
    stories.insert(7, story("seven"));
    DataBaseState { last_item_id: 7, epics, stories }
}

#[test]
fn new_state_is_empty() {
    let state = DataBaseState::new();
    assert_eq!(state.last_item_id, 0);
    assert!(state.epics.is_empty());
    assert!(state.stories.is_empty());
}

#[test]
fn new_items_start_open() {
    let e = Epic::new("name".to_owned(), "description".to_owned());
    assert_eq!(e.name, "name");
    assert_eq!(e.description, "description");
    assert_eq!(e.status, Status::Open);
    assert_eq!(e.stories, Vec::<u32>::new());
    let s = Story::new("name".to_owned(), "description".to_owned());
    assert_eq!(s.name, "name");
    assert_eq!(s.description, "description");
    assert_eq!(s.status, Status::Open);
}

#[test]
fn status_labels() {
    assert_eq!(Status::Open.label(), "OPEN");
    assert_eq!(Status::InProgress.label(), "IN PROGRESS");
    assert_eq!(Status::Resolved.label(), "RESOLVED");
    assert_eq!(Status::Closed.label(), "CLOSED");
}

#[test]
fn error_messages() {
    assert_eq!(DbError::ReadError.message(), "Could not read the database!");
    assert_eq!(DbError::WriteError.message(), "Could not write the database!");
    assert_eq!(DbError::EpicNotFound.message(), "Could not find epic in database!");
    assert_eq!(DbError::StoryNotFound.message(), "Could not find story in database!");
}

#[test]
fn copies_are_equal_to_what_they_copy() {
    let state = two_epics();
    assert_eq!(state.clone(), state);
    assert_eq!(epic("a").clone(), epic("a"));
    assert_eq!(story("a").clone(), story("a"));
}

#[test]
fn state_create_epic_takes_the_next_id() {
    let mut state = two_epics();
    let id = state.create_epic(epic("new"));
    assert_eq!(id, 8);
    assert_eq!(state.last_item_id, 8);
    assert_eq!(state.epics.get(&8), Some(&epic("new")));
    assert_eq!(state.epics.len(), 3);
    assert_eq!(state.stories, two_epics().stories);
}

#[test]
fn state_create_story_is_listed_last() {
    let mut state = two_epics();
    let id = state.create_story(story("new"), 3);
    assert_eq!(id, Ok(8));
    assert_eq!(state.last_item_id, 8);
    assert_eq!(state.stories.get(&8), Some(&story("new")));
    assert_eq!(state.epics.get(&3).unwrap().stories, vec![5, 7, 8]);
    assert_eq!(state.epics.get(&4).unwrap().stories, vec![6]);
}

#[test]
fn state_create_story_without_epic_changes_nothing() {
    let mut state = two_epics();
    let result = state.create_story(story("new"), 99);
    assert_eq!(result, Err(DbError::EpicNotFound));
    assert_eq!(state, two_epics());
}

#[test]
fn state_update_epic_status() {
    let mut state = two_epics();
    assert_eq!(state.update_epic_status(3, Status::Closed), Ok(()));
    assert_eq!(state.epics.get(&3).unwrap().status, Status::Closed);
    assert_eq!(state.epics.get(&3).unwrap().name, "three");
    assert_eq!(state.epics.get(&3).unwrap().stories, vec![5, 7]);
    assert_eq!(state.epics.get(&4), two_epics().epics.get(&4));
    assert_eq!(state.update_epic_status(5, Status::Closed), Err(DbError::EpicNotFound));
}

#[test]
fn state_update_story_status() {
    let mut state = two_epics();
    assert_eq!(state.update_story_status(6, Status::Resolved), Ok(()));
    assert_eq!(state.stories.get(&6).unwrap().status, Status::Resolved);
    assert_eq!(state.stories.get(&6).unwrap().name, "six");
    assert_eq!(state.stories.get(&5), Some(&story("five")));
    let before = state.clone();
    assert_eq!(state.update_story_status(3, Status::Resolved), Err(DbError::StoryNotFound));
    assert_eq!(state, before);
}

#[test]
fn state_delete_epic_takes_its_stories_along() {
    let mut state = two_epics();
    assert_eq!(state.delete_epic(3), Ok(()));
    assert!(!state.epics.contains_key(&3));
    assert!(!state.stories.contains_key(&5));
    assert!(!state.stories.contains_key(&7));
    assert_eq!(state.stories.get(&6), Some(&story("six")));
    assert_eq!(state.epics.get(&4), two_epics().epics.get(&4));
    assert_eq!(state.last_item_id, 7);
    let before = state.clone();
    assert_eq!(state.delete_epic(3), Err(DbError::EpicNotFound));
    assert_eq!(state, before);
}

#[test]
fn state_delete_epic_leaves_a_story_with_the_epics_own_id() {
    let mut epics = HashMap::new();
    epics.insert(
        1,
        Epic { name: "e".to_owned(), description: "".to_owned(), status: Status::Open, stories: vec![2] },
    );
    epics.insert(
        3,
        Epic { name: "f".to_owned(), description: "".to_owned(), status: Status::Open, stories: vec![4] },
    );
    let mut stories = HashMap::new();
    stories.insert(2, story("two"));
    stories.insert(4, story("four"));
    let mut state = DataBaseState { last_item_id: 4, epics, stories };
    assert_eq!(state.delete_epic(1), Ok(()));
    assert!(!state.stories.contains_key(&2));
    assert_eq!(state.stories.get(&4), Some(&story("four")));
}

#[test]
fn state_delete_story() {
    let mut state = two_epics();
    assert_eq!(state.delete_story(3, 5), Ok(()));
    assert_eq!(state.epics.get(&3).unwrap().stories, vec![7]);
    assert!(!state.stories.contains_key(&5));
    assert_eq!(state.stories.len(), 2);
    assert_eq!(state.last_item_id, 7);
}

#[test]
fn state_delete_story_failures_change_nothing() {
    let mut state = two_epics();
    assert_eq!(state.delete_story(9, 5), Err(DbError::EpicNotFound));
    assert_eq!(state, two_epics());
    // the story exists, but another epic owns it
    assert_eq!(state.delete_story(3, 6), Err(DbError::StoryNotFound));
    assert_eq!(state, two_epics());
    assert_eq!(state.delete_story(3, 42), Err(DbError::StoryNotFound));
    assert_eq!(state, two_epics());
}

#[test]
fn ids_are_issued_in_order_however_creations_are_mixed() {
    let mut state = two_epics();
    let mut issued = Vec::new();
    issued.push(state.create_epic(epic("a")));
    issued.push(state.create_story(story("b"), 3).unwrap());
    issued.push(state.create_story(story("c"), 8).unwrap());
    assert_eq!(state.create_story(story("nowhere"), 100), Err(DbError::EpicNotFound));
    issued.push(state.create_epic(epic("d")));
    state.delete_epic(8).unwrap();
    issued.push(state.create_epic(epic("e")));
    assert_eq!(issued, vec![8, 9, 10, 11, 12]);
    assert_eq!(state.last_item_id, 12);
}

#[test]
fn position_of_finds_the_first_mention() {
    assert_eq!(position_of(&vec![4, 9, 4], 4), Some(0));
    assert_eq!(position_of(&vec![4, 9, 4], 9), Some(1));
    assert_eq!(position_of(&vec![4, 9, 4], 5), None);
    assert_eq!(position_of(&vec![], 5), None);
}

#[test]
fn mock_starts_with_the_empty_state() {
    let store = MockDatabase::new();
    assert_eq!(store.read_db(), Ok(DataBaseState::new()));
}

#[test]
fn mock_write_then_read_gives_the_state_back() {
    let mut store = MockDatabase::new();
    let story = Story { name: "epic 1".to_owned(), description: "epic 1".to_owned(), status: Status::Open };
    let epic = Epic {
        name: "epic 1".to_owned(),
        description: "epic 1".to_owned(),
        status: Status::Open,
        stories: vec![2],
    };
    let mut stories = HashMap::new();
    stories.insert(2, story);
    let mut epics = HashMap::new();
    epics.insert(1, epic);
    let state = DataBaseState { last_item_id: 2, epics, stories };

    let write_result = store.write_db(&state);
    let read_result = store.read_db().unwrap();

    assert_eq!(write_result.is_ok(), true);
    assert_eq!(read_result, state);
}

#[test]
fn mock_round_trip_of_the_empty_state() {
    let mut store = MockDatabase::holding(two_epics());
    let state = DataBaseState { last_item_id: 0, epics: HashMap::new(), stories: HashMap::new() };
    assert_eq!(store.write_db(&state), Ok(()));
    assert_eq!(store.read_db(), Ok(state));
}

#[test]
fn unreadable_store_fails_to_read_and_stays_unreadable() {
    let store = MockDatabase::unreadable();
    assert_eq!(store.read_db(), Err(DbError::ReadError));
    assert_eq!(store.read_db(), Err(DbError::ReadError));
}

#[test]
fn unreadable_store_can_be_written() {
    let mut store = MockDatabase::unreadable();
    assert_eq!(store.write_db(&two_epics()), Ok(()));
    assert_eq!(store.read_db(), Ok(two_epics()));
}

#[test]
fn write_protected_store_keeps_what_it_held() {
    let mut store = MockDatabase::write_protected(two_epics());
    assert_eq!(store.write_db(&DataBaseState::new()), Err(DbError::WriteError));
    assert_eq!(store.read_db(), Ok(two_epics()));
}

#[test]
fn repository_read_db_gives_the_stored_state() {
    let db = JiraDatabase::new(MockDatabase::holding(two_epics()));
    assert_eq!(db.read_db(), Ok(two_epics()));
}

#[test]
fn repository_create_epic() {
    let mut db = JiraDatabase::new(MockDatabase::new());
    assert_eq!(db.create_epic(epic("a")), Ok(1));
    assert_eq!(db.create_epic(epic("b")), Ok(2));
    let state = db.read_db().unwrap();
    assert_eq!(state.last_item_id, 2);
    assert_eq!(state.epics.get(&1), Some(&epic("a")));
    assert_eq!(state.epics.get(&2), Some(&epic("b")));
    assert!(state.stories.is_empty());
}

#[test]
fn repository_create_story() {
    let mut db = JiraDatabase::new(MockDatabase::new());
    assert_eq!(db.create_epic(epic("a")), Ok(1));
    assert_eq!(db.create_story(story("s"), 1), Ok(2));
    assert_eq!(db.create_story(story("t"), 1), Ok(3));
    let state = db.read_db().unwrap();
    assert_eq!(state.last_item_id, 3);
    assert_eq!(state.epics.get(&1).unwrap().stories, vec![2, 3]);
    assert_eq!(state.stories.get(&2), Some(&story("s")));
    assert_eq!(state.stories.get(&3), Some(&story("t")));
}

#[test]
fn repository_create_story_without_epic_writes_nothing() {
    let mut db = JiraDatabase::new(MockDatabase::holding(two_epics()));
    assert_eq!(db.create_story(story("s"), 999), Err(DbError::EpicNotFound));
    assert_eq!(db.read_db(), Ok(two_epics()));
    // the counter did not move: the next epic gets the next id
    assert_eq!(db.create_epic(epic("a")), Ok(8));
}

#[test]
fn repository_delete_epic_cascades_and_fails_the_second_time() {
    let mut db = JiraDatabase::new(MockDatabase::holding(two_epics()));
    assert_eq!(db.delete_epic(3), Ok(()));
    let state = db.read_db().unwrap();
    assert!(!state.epics.contains_key(&3));
    assert!(!state.stories.contains_key(&5));
    assert!(!state.stories.contains_key(&7));
    assert!(state.stories.contains_key(&6));
    assert_eq!(db.delete_epic(3), Err(DbError::EpicNotFound));
    assert_eq!(db.read_db(), Ok(state));
}

#[test]
fn repository_delete_story() {
    let mut db = JiraDatabase::new(MockDatabase::holding(two_epics()));
    assert_eq!(db.delete_story(3, 7), Ok(()));
    let state = db.read_db().unwrap();
    assert_eq!(state.epics.get(&3).unwrap().stories, vec![5]);
    assert!(!state.stories.contains_key(&7));
    assert_eq!(db.delete_story(3, 7), Err(DbError::StoryNotFound));
    assert_eq!(db.delete_story(8, 5), Err(DbError::EpicNotFound));
    assert_eq!(db.read_db(), Ok(state));
}

#[test]
fn repository_update_status() {
    let mut db = JiraDatabase::new(MockDatabase::holding(two_epics()));
    assert_eq!(db.update_epic_status(4, Status::Resolved), Ok(()));
    assert_eq!(db.update_story_status(5, Status::Closed), Ok(()));
    let state = db.read_db().unwrap();
    assert_eq!(state.epics.get(&4).unwrap().status, Status::Resolved);
    assert_eq!(state.stories.get(&5).unwrap().status, Status::Closed);
    assert_eq!(db.update_epic_status(5, Status::Resolved), Err(DbError::EpicNotFound));
    assert_eq!(db.update_story_status(4, Status::Closed), Err(DbError::StoryNotFound));
    assert_eq!(db.read_db(), Ok(state));
}

#[test]
fn repository_on_unreadable_store_fails_every_operation() {
    let mut db = JiraDatabase::new(MockDatabase::unreadable());
    assert_eq!(db.read_db(), Err(DbError::ReadError));
    assert_eq!(db.create_epic(epic("a")), Err(DbError::ReadError));
    assert_eq!(db.create_story(story("a"), 1), Err(DbError::ReadError));
    assert_eq!(db.update_epic_status(1, Status::Open), Err(DbError::ReadError));
    assert_eq!(db.update_story_status(1, Status::Open), Err(DbError::ReadError));
    assert_eq!(db.delete_epic(1), Err(DbError::ReadError));
    assert_eq!(db.delete_story(1, 2), Err(DbError::ReadError));
    assert_eq!(db.read_db(), Err(DbError::ReadError));
}

#[test]
fn repository_on_write_protected_store_reports_the_write() {
    let mut db = JiraDatabase::new(MockDatabase::write_protected(two_epics()));
    assert_eq!(db.create_epic(epic("a")), Err(DbError::WriteError));
    assert_eq!(db.delete_epic(3), Err(DbError::WriteError));
    // what the edit itself refuses is reported before any write is tried
    assert_eq!(db.delete_epic(99), Err(DbError::EpicNotFound));
    assert_eq!(db.read_db(), Ok(two_epics()));
}

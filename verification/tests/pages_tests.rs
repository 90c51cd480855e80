use jira_clone::data_base::test_utils::MockDatabase;
use jira_clone::data_base::{DbError, JiraDatabase};
use jira_clone::models::{Action, DataBaseState, Epic, Status, Story};
use jira_clone::user_interface::input::{chars_of, parse_id, single_char};
use jira_clone::user_interface::listing::{keys_of, sorted_keys};
use jira_clone::user_interface::{
    AnyPage, EpicDetail, HomePage, Page, PageKind, Row, Screen, StoryDetail,
};
use std::collections::HashMap;

fn named(name: &str, status: Status, stories: Vec<u32>) -> Epic {
    Epic { name: name.to_owned(), description: format!("about {}", name), status, stories }
}

fn story(name: &str, status: Status) -> Story {
    Story { name: name.to_owned(), description: format!("about {}", name), status }
}

fn row(id: u32, name: &str, status: Status) -> Row {
    Row { id, name: name.to_owned(), status }
}

/// Epic 12 lists the stories 40, 7 and 13 in that order; epic 3 lists none.
fn state() -> DataBaseState {
    let mut epics = HashMap::new();
    epics.insert(12, named("twelve", Status::InProgress, vec![40, 7, 13]));
    epics.insert(3, named("three", Status::Open, vec![]));
    epics.insert(100, named("hundred", Status::Closed, vec![]));
    let mut stories = HashMap::new();
    stories.insert(40, story("forty", Status::Open));
    stories.insert(7, story("seven", Status::Resolved));
    stories.insert(13, story("thirteen", Status::Closed));
    stories.insert(50, story("stray", Status::Open));
    DataBaseState { last_item_id: 100, epics, stories }
}

fn db() -> JiraDatabase<MockDatabase> {
    JiraDatabase::new(MockDatabase::holding(state()))
}

fn parse(text: &str) -> Option<u32> {
    parse_id(&chars_of(text))
}

#[test]
fn numbers_are_read_as_decimal_numerals() {
    assert_eq!(parse("0"), Some(0));
    assert_eq!(parse("7"), Some(7));
    assert_eq!(parse("12"), Some(12));
    assert_eq!(parse("007"), Some(7));
    assert_eq!(parse("+5"), Some(5));
    assert_eq!(parse("4294967295"), Some(4294967295));
    assert_eq!(parse("0000000000004294967295"), Some(4294967295));
}

#[test]
fn what_is_no_number_is_refused() {
    assert_eq!(parse(""), None);
    assert_eq!(parse("+"), None);
    assert_eq!(parse("-1"), None);
    assert_eq!(parse("++1"), None);
    assert_eq!(parse(" 1"), None);
    assert_eq!(parse("1 "), None);
    assert_eq!(parse("1a"), None);
    assert_eq!(parse("q"), None);
    assert_eq!(parse("1.0"), None);
    assert_eq!(parse("٣"), None);
    assert_eq!(parse("4294967296"), None);
    assert_eq!(parse("99999999999999999999999999999999"), None);
}

#[test]
fn numbers_are_read_as_std_reads_them() {
    for text in ["0", "+0", "12", "+12", "0012", "", "+", "-0", "1_000", "4294967295", "4294967296", "१"] {
        assert_eq!(parse(text), text.parse::<u32>().ok(), "{}", text);
    }
}

#[test]
fn a_line_is_a_letter_only_if_it_is_one_character() {
    assert_eq!(single_char(&chars_of("q")), Some('q'));
    assert_eq!(single_char(&chars_of("é")), Some('é'));
    assert_eq!(single_char(&chars_of("")), None);
    assert_eq!(single_char(&chars_of("qq")), None);
    assert_eq!(chars_of("a+1"), vec!['a', '+', '1']);
}

#[test]
fn keys_come_each_once_and_sorted_keys_ascend() {
    let table = state().epics;
    let mut keys = keys_of(&table);
    keys.sort();
    assert_eq!(keys, vec![3, 12, 100]);
    assert_eq!(sorted_keys(&table), vec![3, 12, 100]);
    assert_eq!(sorted_keys(&HashMap::<u32, Epic>::new()), Vec::<u32>::new());
    let mut many = HashMap::new();
    for id in (0..200u32).rev() {
        many.insert(id * 7919 % 1000, id);
    }
    let sorted = sorted_keys(&many);
    assert_eq!(sorted.len(), many.len());
    assert!(sorted.windows(2).all(|pair| pair[0] < pair[1]));
}

#[test]
fn pages_tell_their_kind() {
    assert_eq!(HomePage {}.identity(), PageKind::Home);
    assert_eq!(EpicDetail { epic_id: 1 }.identity(), PageKind::EpicDetail);
    assert_eq!(StoryDetail { epic_id: 1, story_id: 2 }.identity(), PageKind::StoryDetail);
    assert_eq!(AnyPage::Home(HomePage {}).identity(), PageKind::Home);
    assert_eq!(AnyPage::Epic(EpicDetail { epic_id: 1 }).identity(), PageKind::EpicDetail);
    assert_eq!(
        AnyPage::Story(StoryDetail { epic_id: 1, story_id: 2 }).identity(),
        PageKind::StoryDetail
    );
}

#[test]
fn home_page_lists_epics_by_ascending_id() {
    let expected = Screen::Home {
        epics: vec![
            row(3, "three", Status::Open),
            row(12, "twelve", Status::InProgress),
            row(100, "hundred", Status::Closed),
        ],
    };
    assert_eq!(HomePage {}.draw_page(&db()), Ok(Screen::Home { epics: expected_rows(&expected) }));
    assert_eq!(AnyPage::Home(HomePage {}).draw_page(&db()), Ok(expected));
    assert_eq!(HomePage {}.render(&DataBaseState::new()), Ok(Screen::Home { epics: vec![] }));
}

fn expected_rows(screen: &Screen) -> Vec<Row> {
    match screen {
        Screen::Home { epics } => {
            epics.iter().map(|r| row(r.id, &r.name, r.status)).collect()
        }
        _ => panic!("not the home page"),
    }
}

#[test]
fn epic_page_lists_its_stories_by_ascending_id() {
    let expected = Screen::Epic {
        id: 12,
        name: "twelve".to_owned(),
        description: "about twelve".to_owned(),
        status: Status::InProgress,
        stories: vec![
            row(7, "seven", Status::Resolved),
            row(13, "thirteen", Status::Closed),
            row(40, "forty", Status::Open),
        ],
    };
    assert_eq!(AnyPage::Epic(EpicDetail { epic_id: 12 }).draw_page(&db()), Ok(expected));
    assert_eq!(
        EpicDetail { epic_id: 3 }.draw_page(&db()),
        Ok(Screen::Epic {
            id: 3,
            name: "three".to_owned(),
            description: "about three".to_owned(),
            status: Status::Open,
            stories: vec![],
        })
    );
}

#[test]
fn epic_page_of_a_missing_epic_cannot_be_drawn() {
    assert_eq!(EpicDetail { epic_id: 4 }.draw_page(&db()), Err(DbError::EpicNotFound));
    assert_eq!(EpicDetail { epic_id: 40 }.render(&state()), Err(DbError::EpicNotFound));
}

#[test]
fn epic_page_with_a_missing_story_cannot_be_drawn() {
    let mut broken = state();
    broken.stories.remove(&13);
    assert_eq!(EpicDetail { epic_id: 12 }.render(&broken), Err(DbError::StoryNotFound));
    assert!(EpicDetail { epic_id: 3 }.render(&broken).is_ok());
}

#[test]
fn story_page_shows_its_story() {
    assert_eq!(
        AnyPage::Story(StoryDetail { epic_id: 12, story_id: 7 }).draw_page(&db()),
        Ok(Screen::Story {
            id: 7,
            name: "seven".to_owned(),
            description: "about seven".to_owned(),
            status: Status::Resolved,
        })
    );
    assert_eq!(
        StoryDetail { epic_id: 12, story_id: 8 }.draw_page(&db()),
        Err(DbError::StoryNotFound)
    );
}

#[test]
fn pages_over_an_unreadable_store() {
    let db = JiraDatabase::new(MockDatabase::unreadable());
    assert_eq!(HomePage {}.draw_page(&db), Err(DbError::ReadError));
    assert_eq!(EpicDetail { epic_id: 1 }.draw_page(&db), Err(DbError::ReadError));
    assert_eq!(StoryDetail { epic_id: 1, story_id: 2 }.draw_page(&db), Err(DbError::ReadError));
    assert_eq!(HomePage {}.handle_input(&db, "q"), Err(DbError::ReadError));
    assert_eq!(EpicDetail { epic_id: 1 }.handle_input(&db, "p"), Err(DbError::ReadError));
    assert_eq!(
        StoryDetail { epic_id: 1, story_id: 2 }.handle_input(&db, "p"),
        Ok(Some(Action::NavigateToPreviousPage))
    );
}

#[test]
fn home_page_reads_a_line() {
    let page = AnyPage::Home(HomePage {});
    let db = db();
    assert_eq!(page.handle_input(&db, "q"), Ok(Some(Action::Exit)));
    assert_eq!(page.handle_input(&db, "c"), Ok(Some(Action::CreateEpic)));
    assert_eq!(page.handle_input(&db, "12"), Ok(Some(Action::NavigateToEpicDetail { epic_id: 12 })));
    assert_eq!(page.handle_input(&db, "+3"), Ok(Some(Action::NavigateToEpicDetail { epic_id: 3 })));
    assert_eq!(page.handle_input(&db, "0100"), Ok(Some(Action::NavigateToEpicDetail { epic_id: 100 })));
    // 7 is a story, 4 is nothing
    assert_eq!(page.handle_input(&db, "7"), Ok(None));
    assert_eq!(page.handle_input(&db, "4"), Ok(None));
    assert_eq!(page.handle_input(&db, ""), Ok(None));
    assert_eq!(page.handle_input(&db, "p"), Ok(None));
    assert_eq!(page.handle_input(&db, "Q"), Ok(None));
    assert_eq!(page.handle_input(&db, "q "), Ok(None));
    assert_eq!(page.handle_input(&db, "junk"), Ok(None));
    assert_eq!(page.handle_input(&db, "-12"), Ok(None));
}

#[test]
fn epic_page_reads_a_line() {
    let page = AnyPage::Epic(EpicDetail { epic_id: 12 });
    let db = db();
    assert_eq!(page.handle_input(&db, "p"), Ok(Some(Action::NavigateToPreviousPage)));
    assert_eq!(page.handle_input(&db, "u"), Ok(Some(Action::UpdateEpicStatus { epic_id: 12 })));
    assert_eq!(page.handle_input(&db, "d"), Ok(Some(Action::DeleteEpic { epic_id: 12 })));
    assert_eq!(page.handle_input(&db, "c"), Ok(Some(Action::CreateStory { epic_id: 12 })));
    assert_eq!(
        page.handle_input(&db, "7"),
        Ok(Some(Action::NavigateToStoryDetail { epic_id: 12, story_id: 7 }))
    );
    assert_eq!(
        page.handle_input(&db, "40"),
        Ok(Some(Action::NavigateToStoryDetail { epic_id: 12, story_id: 40 }))
    );
    // 50 is a story that this epic does not list; 3 is an epic
    assert_eq!(page.handle_input(&db, "50"), Ok(None));
    assert_eq!(page.handle_input(&db, "3"), Ok(None));
    assert_eq!(page.handle_input(&db, "q"), Ok(None));
    assert_eq!(page.handle_input(&db, ""), Ok(None));
    assert_eq!(page.handle_input(&db, "pp"), Ok(None));
}

#[test]
fn epic_page_of_a_missing_epic_still_reads_letters() {
    let page = EpicDetail { epic_id: 4 };
    let db = db();
    assert_eq!(page.handle_input(&db, "d"), Ok(Some(Action::DeleteEpic { epic_id: 4 })));
    assert_eq!(page.handle_input(&db, "7"), Ok(None));
}

#[test]
fn story_page_reads_a_line() {
    let page = AnyPage::Story(StoryDetail { epic_id: 12, story_id: 7 });
    let db = db();
    assert_eq!(page.handle_input(&db, "p"), Ok(Some(Action::NavigateToPreviousPage)));
    assert_eq!(page.handle_input(&db, "u"), Ok(Some(Action::UpdateStoryStatus { story_id: 7 })));
    assert_eq!(
        page.handle_input(&db, "d"),
        Ok(Some(Action::DeleteStory { epic_id: 12, story_id: 7 }))
    );
    assert_eq!(page.handle_input(&db, "c"), Ok(None));
    assert_eq!(page.handle_input(&db, "7"), Ok(None));
    assert_eq!(page.handle_input(&db, ""), Ok(None));
}

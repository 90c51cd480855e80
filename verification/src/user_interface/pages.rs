//! The pages of the tracker: what each shows and how it reads a line.
//!
//! A page holds identifiers only. What it shows and what a line means are
//! worked out from the state of the store each time.

use crate::data_base::{Database, DbError, JiraDatabase};
use crate::models::{Action, DataBaseState, EpicView, StateView, Status, StoryView};
use crate::user_interface::input::{chars_of, number, parse_id, single_char};
use crate::user_interface::listing::{
    ascending, lemma_ascending_is_unique, lemma_sorted_is_unique, lemma_sorted_same_members,
    sorted_from, sorted_ids, sorted_keys,
};
use vstd::prelude::*;
use vstd::std_specs::hash::group_hash_axioms;

verus! {

/// The list of all epics.
#[derive(Clone, Copy, Debug, PartialEq, Eq, Structural)]
pub struct HomePage {}

/// One epic with its stories.
#[derive(Clone, Copy, Debug, PartialEq, Eq, Structural)]
pub struct EpicDetail {
    pub epic_id: u32,
}

/// One story of one epic.
#[derive(Clone, Copy, Debug, PartialEq, Eq, Structural)]
pub struct StoryDetail {
    pub epic_id: u32,
    pub story_id: u32,
}

/// A page of any of the three kinds, as the navigator stacks it.
#[derive(Clone, Copy, Debug, PartialEq, Eq, Structural)]
pub enum AnyPage {
    Home(HomePage),
    Epic(EpicDetail),
    Story(StoryDetail),
}

/// The kind of a page, without what it points at.
#[derive(Clone, Copy, Debug, PartialEq, Eq, Structural)]
pub enum PageKind {
    Home,
    EpicDetail,
    StoryDetail,
}

/// The kind of a page.
pub open spec fn kind_of(page: AnyPage) -> PageKind {
    match page {
        AnyPage::Home(_) => PageKind::Home,
        AnyPage::Epic(_) => PageKind::EpicDetail,
        AnyPage::Story(_) => PageKind::StoryDetail,
    }
}

/// One line of a table of epics or of stories.
#[derive(Debug, PartialEq)]
pub struct Row {
    pub id: u32,
    pub name: String,
    pub status: Status,
}

/// What a line of a table says.
pub struct RowView {
    pub id: u32,
    pub name: Seq<char>,
    pub status: Status,
}

impl View for Row {
    type V = RowView;

    open spec fn view(&self) -> RowView {
        RowView { id: self.id, name: self.name@, status: self.status }
    }
}

/// What a page shows, before it is laid out in columns.
#[derive(Debug, PartialEq)]
pub enum Screen {
    /// Every epic, one line each.
    Home { epics: Vec<Row> },
    /// One epic in full, and its stories, one line each.
    Epic { id: u32, name: String, description: String, status: Status, stories: Vec<Row> },
    /// One story in full.
    Story { id: u32, name: String, description: String, status: Status },
}

/// What a page shows, as plain values.
pub enum ScreenView {
    Home { epics: Seq<RowView> },
    Epic {
        id: u32,
        name: Seq<char>,
        description: Seq<char>,
        status: Status,
        stories: Seq<RowView>,
    },
    Story { id: u32, name: Seq<char>, description: Seq<char>, status: Status },
}

/// The lines of a table, each by what it says.
pub open spec fn row_views(rows: Seq<Row>) -> Seq<RowView> {
    Seq::new(rows.len(), |i: int| rows[i]@)
}

/// The identifiers of the lines of a table, from the top.
pub open spec fn row_ids(rows: Seq<RowView>) -> Seq<u32> {
    Seq::new(rows.len(), |i: int| rows[i].id)
}

impl View for Screen {
    type V = ScreenView;

    open spec fn view(&self) -> ScreenView {
        match *self {
            Screen::Home { epics } => ScreenView::Home { epics: row_views(epics@) },
            Screen::Epic { id, name, description, status, stories } => ScreenView::Epic {
                id,
                name: name@,
                description: description@,
                status,
                stories: row_views(stories@),
            },
            Screen::Story { id, name, description, status } => ScreenView::Story {
                id,
                name: name@,
                description: description@,
                status,
            },
        }
    }
}

/// The line that stands for an epic.
pub open spec fn epic_row(id: u32, epic: EpicView) -> RowView {
    RowView { id, name: epic.name, status: epic.status }
}

/// The line that stands for a story.
pub open spec fn story_row(id: u32, story: StoryView) -> RowView {
    RowView { id, name: story.name, status: story.status }
}

/// Why a page cannot be shown in a state, if it cannot: an epic page needs
/// its epic and every story that the epic lists, a story page its story.
pub open spec fn page_error(page: AnyPage, state: StateView) -> Option<DbError> {
    match page {
        AnyPage::Home(_) => None,
        AnyPage::Epic(EpicDetail { epic_id }) => if !state.epics.contains_key(epic_id) {
            Some(DbError::EpicNotFound)
        } else if exists|story_id: u32| #[trigger]
            state.epics[epic_id].stories.contains(story_id) && !state.stories.contains_key(
                story_id,
            ) {
            Some(DbError::StoryNotFound)
        } else {
            None
        },
        AnyPage::Story(StoryDetail { story_id, .. }) => if !state.stories.contains_key(story_id) {
            Some(DbError::StoryNotFound)
        } else {
            None
        },
    }
}

/// Whether `screen` is what `page` shows in `state`.
///
/// The home page has one line for every epic, by ascending identifier. An
/// epic page has the fields of its epic and one line for every mention of a
/// story in the epic's list, by ascending identifier. A story page has the
/// fields of its story.
pub open spec fn shows(page: AnyPage, state: StateView, screen: ScreenView) -> bool {
    match (page, screen) {
        (AnyPage::Home(_), ScreenView::Home { epics }) => {
            &&& ascending(row_ids(epics))
            &&& row_ids(epics).no_duplicates()
            &&& row_ids(epics).to_set() == state.epics.dom()
            &&& forall|i: int|
                0 <= i < epics.len() ==> #[trigger] epics[i] == epic_row(
                    epics[i].id,
                    state.epics[epics[i].id],
                )
        },
        (
            AnyPage::Epic(EpicDetail { epic_id }),
            ScreenView::Epic { id, name, description, status, stories },
        ) => {
            let epic = state.epics[epic_id];
            &&& id == epic_id
            &&& name == epic.name
            &&& description == epic.description
            &&& status == epic.status
            &&& sorted_from(row_ids(stories), epic.stories)
            &&& forall|i: int|
                0 <= i < stories.len() ==> #[trigger] stories[i] == story_row(
                    stories[i].id,
                    state.stories[stories[i].id],
                )
        },
        (
            AnyPage::Story(StoryDetail { story_id, .. }),
            ScreenView::Story { id, name, description, status },
        ) => {
            let story = state.stories[story_id];
            &&& id == story_id
            &&& name == story.name
            &&& description == story.description
            &&& status == story.status
        },
        _ => false,
    }
}

/// A page drawn from a state: the screen that the page shows there, or the
/// reason why it cannot be shown.
pub open spec fn rendered(page: AnyPage, state: StateView, result: Result<Screen, DbError>) -> bool {
    match result {
        Ok(screen) => page_error(page, state) is None && shows(page, state, screen@),
        Err(error) => page_error(page, state) == Some(error),
    }
}

/// A page drawn from a store: the page is rendered from the state that the
/// store holds, and where the store holds nothing readable the error is
/// `ReadError`.
pub open spec fn drawn(page: AnyPage, stored: Option<StateView>, result: Result<Screen, DbError>) -> bool {
    match result {
        Err(DbError::ReadError) => stored is None,
        _ => stored matches Some(state) && rendered(page, state, result),
    }
}

/// What a line of input means on a page.
///
/// On the home page `q` leaves, `c` creates an epic, and the number of an
/// epic opens it. On an epic page `p` steps back, `u` updates the epic, `d`
/// deletes it, `c` creates a story in it, and the number of a story that the
/// epic lists opens that story. On a story page `p` steps back, `u` updates
/// the story and `d` deletes it. Anything else means nothing.
pub open spec fn interpret(page: AnyPage, state: StateView, input: Seq<char>) -> Option<Action> {
    match page {
        AnyPage::Home(_) => if input == seq!['q'] {
            Some(Action::Exit)
        } else if input == seq!['c'] {
            Some(Action::CreateEpic)
        } else {
            match number(input) {
                Some(epic_id) => if state.epics.contains_key(epic_id) {
                    Some(Action::NavigateToEpicDetail { epic_id })
                } else {
                    None
                },
                None => None,
            }
        },
        AnyPage::Epic(EpicDetail { epic_id }) => if input == seq!['p'] {
            Some(Action::NavigateToPreviousPage)
        } else if input == seq!['u'] {
            Some(Action::UpdateEpicStatus { epic_id })
        } else if input == seq!['d'] {
            Some(Action::DeleteEpic { epic_id })
        } else if input == seq!['c'] {
            Some(Action::CreateStory { epic_id })
        } else {
            match number(input) {
                Some(story_id) => if state.owns(epic_id, story_id) {
                    Some(Action::NavigateToStoryDetail { epic_id, story_id })
                } else {
                    None
                },
                None => None,
            }
        },
        AnyPage::Story(StoryDetail { epic_id, story_id }) => if input == seq!['p'] {
            Some(Action::NavigateToPreviousPage)
        } else if input == seq!['u'] {
            Some(Action::UpdateStoryStatus { story_id })
        } else if input == seq!['d'] {
            Some(Action::DeleteStory { epic_id, story_id })
        } else {
            None
        },
    }
}

/// A line read on a page over a store: a story page needs no state; the
/// other pages read the store first, fail with `ReadError` where it holds
/// nothing readable, and else give what the line means in the state that
/// the store holds.
pub open spec fn interpreted(
    page: AnyPage,
    stored: Option<StateView>,
    input: Seq<char>,
    result: Result<Option<Action>, DbError>,
) -> bool {
    match result {
        Ok(action) => if page is Story {
            action == interpret(page, StateView::empty(), input)
        } else {
            stored matches Some(state) && action == interpret(page, state, input)
        },
        Err(error) => error == DbError::ReadError && !(page is Story) && stored is None,
    }
}

/// A page shows one thing only in a state: two screens that both are what
/// the page shows are the same screen, line for line.
pub proof fn law_one_screen(page: AnyPage, state: StateView, first: ScreenView, second: ScreenView)
    requires
        shows(page, state, first),
        shows(page, state, second),
    ensures
        first == second,
{
    match (first, second) {
        (ScreenView::Home { epics: a }, ScreenView::Home { epics: b }) => {
            lemma_ascending_is_unique(row_ids(a), row_ids(b));
            assert(a.len() == row_ids(a).len() && b.len() == row_ids(b).len());
            assert forall|i: int| 0 <= i < a.len() implies a[i] == b[i] by {
                assert(a[i].id == row_ids(a)[i]);
                assert(b[i].id == row_ids(b)[i]);
            }
            assert(a =~= b);
        },
        (ScreenView::Epic { stories: a, .. }, ScreenView::Epic { stories: b, .. }) => {
            let listed = state.epics[page->Epic_0.epic_id].stories;
            lemma_sorted_is_unique(row_ids(a), row_ids(b), listed);
            assert(a.len() == row_ids(a).len() && b.len() == row_ids(b).len());
            assert forall|i: int| 0 <= i < a.len() implies a[i] == b[i] by {
                assert(a[i].id == row_ids(a)[i]);
                assert(b[i].id == row_ids(b)[i]);
            }
            assert(a =~= b);
        },
        _ => {},
    }
}

/// What every page can do.
pub trait Page {
    /// The page as the navigator stacks it.
    spec fn stacked(&self) -> AnyPage;

    /// The kind of the page.
    fn identity(&self) -> (kind: PageKind)
        ensures
            kind == kind_of(self.stacked()),
    ;

    /// What the page shows, from what the store holds now.
    fn draw_page<D: Database>(&self, db: &JiraDatabase<D>) -> (result: Result<Screen, DbError>)
        ensures
            drawn(self.stacked(), db.stored(), result),
    ;

    /// What a line of input means on the page, from what the store holds now.
    fn handle_input<D: Database>(&self, db: &JiraDatabase<D>, input: &str) -> (result: Result<
        Option<Action>,
        DbError,
    >)
        ensures
            interpreted(self.stacked(), db.stored(), input@, result),
    ;
}

impl HomePage {
    /// The table of all epics in `state`.
    pub fn render(&self, state: &DataBaseState) -> (result: Result<Screen, DbError>)
        ensures
            rendered(AnyPage::Home(*self), state@, result),
            result is Ok,
    {
        broadcast use group_hash_axioms;

        let ids = sorted_keys(&state.epics);
        let mut epics: Vec<Row> = Vec::new();
        let mut at: usize = 0;
        while at < ids.len()
            invariant
                at <= ids.len(),
                epics@.len() == at,
                ids@.to_set() == state.epics@.dom(),
                forall|i: int|
                    0 <= i < at ==> (#[trigger] epics@[i])@ == epic_row(
                        ids@[i],
                        state@.epics[ids@[i]],
                    ),
            decreases ids.len() - at,
        {
            let id: u32 = ids[at];
            assert(ids@.to_set().contains(id));
            match state.epics.get(&id) {
                Some(epic) => {
                    epics.push(Row { id, name: epic.name.clone(), status: epic.status });
                },
                None => {
                    assert(false);
                },
            }
            at = at + 1;
        }
        let screen = Screen::Home { epics };
        proof {
            let rows = row_views(epics@);
            assert(row_ids(rows) =~= ids@);
            assert(state@.epics.dom() =~= state.epics@.dom());
        }
        Ok(screen)
    }

    /// What a line of input means on the home page in `state`.
    pub fn interpret(&self, state: &DataBaseState, input: &str) -> (action: Option<Action>)
        ensures
            action == interpret(AnyPage::Home(*self), state@, input@),
    {
        broadcast use group_hash_axioms;

        let chars = chars_of(input);
        match single_char(&chars) {
            Some('q') => {
                assert(input@ =~= seq!['q']);
                return Some(Action::Exit);
            },
            Some('c') => {
                assert(input@ =~= seq!['c']);
                return Some(Action::CreateEpic);
            },
            _ => {},
        }
        assert(input@ != seq!['q'] && input@ != seq!['c']) by {
            if input@ == seq!['q'] || input@ == seq!['c'] {
                assert(input@.len() == 1);
            }
        }
        match parse_id(&chars) {
            Some(epic_id) => if state.epics.contains_key(&epic_id) {
                Some(Action::NavigateToEpicDetail { epic_id })
            } else {
                None
            },
            None => None,
        }
    }
}

impl EpicDetail {
    /// The epic of the page and the table of its stories in `state`.
    pub fn render(&self, state: &DataBaseState) -> (result: Result<Screen, DbError>)
        ensures
            rendered(AnyPage::Epic(*self), state@, result),
    {
        broadcast use group_hash_axioms;

        let epic = match state.epics.get(&self.epic_id) {
            Some(epic) => epic,
            None => {
                return Err(DbError::EpicNotFound);
            },
        };
        let ids = sorted_ids(epic.stories.clone());
        let ghost listed = state@.epics[self.epic_id].stories;
        proof {
            lemma_sorted_same_members(ids@, listed);
        }
        let mut stories: Vec<Row> = Vec::new();
        let mut at: usize = 0;
        while at < ids.len()
            invariant
                at <= ids.len(),
                stories@.len() == at,
                listed == state@.epics[self.epic_id].stories,
                state@.epics.contains_key(self.epic_id),
                forall|id: u32| ids@.contains(id) <==> listed.contains(id),
                forall|i: int| 0 <= i < at ==> state@.stories.contains_key(#[trigger] ids@[i]),
                forall|i: int|
                    0 <= i < at ==> (#[trigger] stories@[i])@ == story_row(
                        ids@[i],
                        state@.stories[ids@[i]],
                    ),
            decreases ids.len() - at,
        {
            let id: u32 = ids[at];
            assert(ids@.contains(id));
            match state.stories.get(&id) {
                Some(story) => {
                    stories.push(Row { id, name: story.name.clone(), status: story.status });
                },
                None => {
                    assert(listed.contains(id) && !state@.stories.contains_key(id));
                    return Err(DbError::StoryNotFound);
                },
            }
            at = at + 1;
        }
        let screen = Screen::Epic {
            id: self.epic_id,
            name: epic.name.clone(),
            description: epic.description.clone(),
            status: epic.status,
            stories,
        };
        proof {
            let rows = row_views(stories@);
            assert(row_ids(rows) =~= ids@);
            assert forall|story_id: u32| #[trigger]
                listed.contains(story_id) implies state@.stories.contains_key(story_id) by {
                assert(ids@.contains(story_id));
                let i = choose|i: int| 0 <= i < ids@.len() && ids@[i] == story_id;
                assert(state@.stories.contains_key(ids@[i]));
            }
        }
        Ok(screen)
    }

    /// What a line of input means on the page of an epic in `state`.
    pub fn interpret(&self, state: &DataBaseState, input: &str) -> (action: Option<Action>)
        ensures
            action == interpret(AnyPage::Epic(*self), state@, input@),
    {
        broadcast use group_hash_axioms;

        let epic_id: u32 = self.epic_id;
        let chars = chars_of(input);
        match single_char(&chars) {
            Some('p') => {
                assert(input@ =~= seq!['p']);
                return Some(Action::NavigateToPreviousPage);
            },
            Some('u') => {
                assert(input@ =~= seq!['u']);
                return Some(Action::UpdateEpicStatus { epic_id });
            },
            Some('d') => {
                assert(input@ =~= seq!['d']);
                return Some(Action::DeleteEpic { epic_id });
            },
            Some('c') => {
                assert(input@ =~= seq!['c']);
                return Some(Action::CreateStory { epic_id });
            },
            _ => {},
        }
        assert(input@ != seq!['p'] && input@ != seq!['u'] && input@ != seq!['d'] && input@ != seq![
            'c',
        ]) by {
            if input@ == seq!['p'] || input@ == seq!['u'] || input@ == seq!['d'] || input@ == seq![
                'c',
            ] {
                assert(input@.len() == 1);
            }
        }
        let story_id: u32 = match parse_id(&chars) {
            Some(story_id) => story_id,
            None => {
                return None;
            },
        };
        match state.epics.get(&epic_id) {
            Some(epic) => {
                assert(epic.stories@ == state@.epics[epic_id].stories);
                match crate::data_base::edits::position_of(&epic.stories, story_id) {
                    Some(_) => {
                        proof {
                            epic.stories@.index_of_first_ensures(story_id);
                        }
                        Some(Action::NavigateToStoryDetail { epic_id, story_id })
                    },
                    None => None,
                }
            },
            None => None,
        }
    }
}

impl StoryDetail {
    /// The story of the page in `state`.
    pub fn render(&self, state: &DataBaseState) -> (result: Result<Screen, DbError>)
        ensures
            rendered(AnyPage::Story(*self), state@, result),
    {
        broadcast use group_hash_axioms;

        match state.stories.get(&self.story_id) {
            Some(story) => Ok(
                Screen::Story {
                    id: self.story_id,
                    name: story.name.clone(),
                    description: story.description.clone(),
                    status: story.status,
                },
            ),
            None => Err(DbError::StoryNotFound),
        }
    }

    /// What a line of input means on the page of a story.
    pub fn interpret(&self, input: &str) -> (action: Option<Action>)
        ensures
            forall|state: StateView| action == interpret(AnyPage::Story(*self), state, input@),
    {
        let chars = chars_of(input);
        let action = match single_char(&chars) {
            Some('p') => {
                assert(input@ =~= seq!['p']);
                Some(Action::NavigateToPreviousPage)
            },
            Some('u') => {
                assert(input@ =~= seq!['u']);
                Some(Action::UpdateStoryStatus { story_id: self.story_id })
            },
            Some('d') => {
                assert(input@ =~= seq!['d']);
                Some(Action::DeleteStory { epic_id: self.epic_id, story_id: self.story_id })
            },
            _ => {
                assert(input@ != seq!['p'] && input@ != seq!['u'] && input@ != seq!['d']) by {
                    if input@ == seq!['p'] || input@ == seq!['u'] || input@ == seq!['d'] {
                        assert(input@.len() == 1);
                    }
                }
                None
            },
        };
        action
    }
}

impl Page for HomePage {
    open spec fn stacked(&self) -> AnyPage {
        AnyPage::Home(*self)
    }

    fn identity(&self) -> (kind: PageKind) {
        PageKind::Home
    }

    fn draw_page<D: Database>(&self, db: &JiraDatabase<D>) -> (result: Result<Screen, DbError>) {
        match db.read_db() {
            Ok(state) => self.render(&state),
            Err(error) => Err(error),
        }
    }

    fn handle_input<D: Database>(&self, db: &JiraDatabase<D>, input: &str) -> (result: Result<
        Option<Action>,
        DbError,
    >) {
        match db.read_db() {
            Ok(state) => Ok(self.interpret(&state, input)),
            Err(error) => Err(error),
        }
    }
}

impl Page for EpicDetail {
    open spec fn stacked(&self) -> AnyPage {
        AnyPage::Epic(*self)
    }

    fn identity(&self) -> (kind: PageKind) {
        PageKind::EpicDetail
    }

    fn draw_page<D: Database>(&self, db: &JiraDatabase<D>) -> (result: Result<Screen, DbError>) {
        match db.read_db() {
            Ok(state) => self.render(&state),
            Err(error) => Err(error),
        }
    }

    fn handle_input<D: Database>(&self, db: &JiraDatabase<D>, input: &str) -> (result: Result<
        Option<Action>,
        DbError,
    >) {
        match db.read_db() {
            Ok(state) => Ok(self.interpret(&state, input)),
            Err(error) => Err(error),
        }
    }
}

impl Page for StoryDetail {
    open spec fn stacked(&self) -> AnyPage {
        AnyPage::Story(*self)
    }

    fn identity(&self) -> (kind: PageKind) {
        PageKind::StoryDetail
    }

    fn draw_page<D: Database>(&self, db: &JiraDatabase<D>) -> (result: Result<Screen, DbError>) {
        match db.read_db() {
            Ok(state) => self.render(&state),
            Err(error) => Err(error),
        }
    }

    fn handle_input<D: Database>(&self, db: &JiraDatabase<D>, input: &str) -> (result: Result<
        Option<Action>,
        DbError,
    >) {
        Ok(self.interpret(input))
    }
}

impl Page for AnyPage {
    open spec fn stacked(&self) -> AnyPage {
        *self
    }

    fn identity(&self) -> (kind: PageKind) {
        match self {
            AnyPage::Home(page) => page.identity(),
            AnyPage::Epic(page) => page.identity(),
            AnyPage::Story(page) => page.identity(),
        }
    }

    fn draw_page<D: Database>(&self, db: &JiraDatabase<D>) -> (result: Result<Screen, DbError>) {
        match self {
            AnyPage::Home(page) => page.draw_page(db),
            AnyPage::Epic(page) => page.draw_page(db),
            AnyPage::Story(page) => page.draw_page(db),
        }
    }

    fn handle_input<D: Database>(&self, db: &JiraDatabase<D>, input: &str) -> (result: Result<
        Option<Action>,
        DbError,
    >) {
        match self {
            AnyPage::Home(page) => page.handle_input(db, input),
            AnyPage::Epic(page) => page.handle_input(db, input),
            AnyPage::Story(page) => page.handle_input(db, input),
        }
    }
}

} // verus!

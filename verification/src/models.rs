//! The records that the tracker keeps, and what each of them means.

use std::collections::HashMap;
use vstd::prelude::*;

verus! {

/// Progress of an epic or of a story.
#[derive(Copy, Debug, PartialEq, Eq, Structural)]
pub enum Status {
    Open,
    InProgress,
    Resolved,
    Closed,
}

impl Clone for Status {
    fn clone(&self) -> (copy: Self)
        ensures
            copy == *self,
    {
        *self
    }
}

/// The text that stands for a status on a page.
pub open spec fn status_label(status: Status) -> Seq<char> {
    match status {
        Status::Open => "OPEN"@,
        Status::InProgress => "IN PROGRESS"@,
        Status::Resolved => "RESOLVED"@,
        Status::Closed => "CLOSED"@,
    }
}

impl Status {
    /// The text that stands for this status on a page.
    pub fn label(self) -> (text: &'static str)
        ensures
            text@ == status_label(self),
    {
        match self {
            Status::Open => "OPEN",
            Status::InProgress => "IN PROGRESS",
            Status::Resolved => "RESOLVED",
            Status::Closed => "CLOSED",
        }
    }
}

/// A leaf work item. Its identifier is the key under which the state holds it.
#[derive(Debug, PartialEq)]
pub struct Story {
    pub name: String,
    pub description: String,
    pub status: Status,
}

/// What a story says.
pub struct StoryView {
    pub name: Seq<char>,
    pub description: Seq<char>,
    pub status: Status,
}

impl View for Story {
    type V = StoryView;

    open spec fn view(&self) -> StoryView {
        StoryView { name: self.name@, description: self.description@, status: self.status }
    }
}

impl Clone for Story {
    fn clone(&self) -> (copy: Self)
        ensures
            copy@ == self@,
    {
        Story {
            name: self.name.clone(),
            description: self.description.clone(),
            status: self.status,
        }
    }
}

impl Story {
    /// A story that has just been opened.
    pub fn new(name: String, description: String) -> (story: Story)
        ensures
            story@ == (StoryView { name: name@, description: description@, status: Status::Open }),
    {
        Story { name, description, status: Status::Open }
    }
}

/// A top-level work item with the identifiers of its stories, oldest first.
#[derive(Debug, PartialEq)]
pub struct Epic {
    pub name: String,
    pub description: String,
    pub status: Status,
    pub stories: Vec<u32>,
}

/// What an epic says, and which stories it lists.
pub struct EpicView {
    pub name: Seq<char>,
    pub description: Seq<char>,
    pub status: Status,
    pub stories: Seq<u32>,
}

impl View for Epic {
    type V = EpicView;

    open spec fn view(&self) -> EpicView {
        EpicView {
            name: self.name@,
            description: self.description@,
            status: self.status,
            stories: self.stories@,
        }
    }
}

impl Clone for Epic {
    fn clone(&self) -> (copy: Self)
        ensures
            copy@ == self@,
    {
        Epic {
            name: self.name.clone(),
            description: self.description.clone(),
            status: self.status,
            stories: self.stories.clone(),
        }
    }
}

impl Epic {
    /// An epic that has just been opened and owns no story yet.
    pub fn new(name: String, description: String) -> (epic: Epic)
        ensures
            epic@ == (EpicView {
                name: name@,
                description: description@,
                status: Status::Open,
                stories: Seq::<u32>::empty(),
            }),
    {
        Epic { name, description, status: Status::Open, stories: Vec::new() }
    }
}

/// Everything that the store keeps: the counter and both tables.
#[derive(Debug, PartialEq)]
pub struct DataBaseState {
    pub last_item_id: u32,
    pub epics: HashMap<u32, Epic>,
    pub stories: HashMap<u32, Story>,
}

/// The state as a counter and two finite maps.
#[verifier::ext_equal]
pub struct StateView {
    pub last_item_id: u32,
    pub epics: Map<u32, EpicView>,
    pub stories: Map<u32, StoryView>,
}

/// The epics of a table, each by what it says.
pub open spec fn epic_views(table: Map<u32, Epic>) -> Map<u32, EpicView> {
    Map::new(|id: u32| table.contains_key(id), |id: u32| table[id]@)
}

/// The stories of a table, each by what it says.
pub open spec fn story_views(table: Map<u32, Story>) -> Map<u32, StoryView> {
    Map::new(|id: u32| table.contains_key(id), |id: u32| table[id]@)
}

impl View for DataBaseState {
    type V = StateView;

    open spec fn view(&self) -> StateView {
        StateView {
            last_item_id: self.last_item_id,
            epics: epic_views(self.epics@),
            stories: story_views(self.stories@),
        }
    }
}

impl Clone for DataBaseState {
    fn clone(&self) -> (copy: Self)
        ensures
            copy@ == self@,
    {
        DataBaseState {
            last_item_id: self.last_item_id,
            epics: self.epics.clone(),
            stories: self.stories.clone(),
        }
    }
}

impl StateView {
    /// The state before anything was created.
    pub open spec fn empty() -> StateView {
        StateView { last_item_id: 0, epics: Map::empty(), stories: Map::empty() }
    }

    /// Whether the epic `epic_id` lists the story `story_id`.
    pub open spec fn owns(self, epic_id: u32, story_id: u32) -> bool {
        self.epics.contains_key(epic_id) && self.epics[epic_id].stories.contains(story_id)
    }

    /// Every story that an epic lists is in the table of stories.
    pub open spec fn no_dangling_story(self) -> bool {
        forall|epic_id: u32, story_id: u32| #[trigger]
            self.owns(epic_id, story_id) ==> self.stories.contains_key(story_id)
    }

    /// No identifier in use is above the counter, and none names both an
    /// epic and a story.
    pub open spec fn ids_issued_once(self) -> bool {
        &&& forall|id: u32| #[trigger] self.epics.contains_key(id) ==> id <= self.last_item_id
        &&& forall|id: u32| #[trigger] self.stories.contains_key(id) ==> id <= self.last_item_id
        &&& forall|id: u32| self.epics.contains_key(id) ==> !#[trigger] self.stories.contains_key(id)
    }

    /// A story is listed by one epic only, and there only once.
    pub open spec fn one_owner_each(self) -> bool {
        &&& forall|first: u32, second: u32, story_id: u32|
            #[trigger] self.owns(first, story_id) && #[trigger] self.owns(second, story_id)
                ==> first == second
        &&& forall|epic_id: u32| #[trigger]
            self.epics.contains_key(epic_id) ==> self.epics[epic_id].stories.no_duplicates()
    }

    /// What the repository keeps true of the state from one operation to the
    /// next.
    pub open spec fn wf(self) -> bool {
        &&& self.epics.dom().finite()
        &&& self.stories.dom().finite()
        &&& self.no_dangling_story()
        &&& self.ids_issued_once()
        &&& self.one_owner_each()
    }
}

impl DataBaseState {
    /// The state before anything was created.
    pub fn new() -> (state: DataBaseState)
        ensures
            state@ == StateView::empty(),
            state@.wf(),
    {
        let state = DataBaseState { last_item_id: 0, epics: HashMap::new(), stories: HashMap::new() };
        assert(state@ =~= StateView::empty());
        state
    }
}

/// What a page asks the navigator to do.
#[derive(Clone, Copy, Debug, PartialEq, Eq, Structural)]
pub enum Action {
    NavigateToEpicDetail { epic_id: u32 },
    NavigateToStoryDetail { epic_id: u32, story_id: u32 },
    NavigateToPreviousPage,
    CreateEpic,
    UpdateEpicStatus { epic_id: u32 },
    DeleteEpic { epic_id: u32 },
    CreateStory { epic_id: u32 },
    UpdateStoryStatus { story_id: u32 },
    DeleteStory { epic_id: u32, story_id: u32 },
    Exit,
}

} // verus!

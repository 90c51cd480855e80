//! The navigator: a stack of pages, and what each action does to the stack
//! and to the store.

use crate::data_base::{transaction, well_kept, Database, DbError, JiraDatabase};
use crate::models::{Action, Epic, EpicView, StateView, Status, Story, StoryView};
use crate::user_interface::pages::{AnyPage, EpicDetail, HomePage, StoryDetail};
use crate::user_interface::prompts::Prompts;
use vstd::prelude::*;

verus! {

/// The edit that an action was after when it failed.
#[derive(Clone, Copy, Debug, PartialEq, Eq, Structural)]
pub enum Operation {
    CreateEpic,
    UpdateEpicStatus,
    DeleteEpic,
    CreateStory,
    UpdateStoryStatus,
    DeleteStory,
}

/// A failure of the repository together with what the navigator was doing.
#[derive(Clone, Copy, Debug, PartialEq, Eq, Structural)]
pub struct ActionError {
    pub operation: Operation,
    pub cause: DbError,
}

/// The sentence that names the edit that failed.
pub open spec fn failure_message(operation: Operation) -> Seq<char> {
    match operation {
        Operation::CreateEpic => "Failed to create Epic!"@,
        Operation::UpdateEpicStatus => "Failed to update Epic status!"@,
        Operation::DeleteEpic => "Failed to delete Epic!"@,
        Operation::CreateStory => "Failed to create Story!"@,
        Operation::UpdateStoryStatus => "Failed to update Story status!"@,
        Operation::DeleteStory => "Failed to delete Story!"@,
    }
}

impl ActionError {
    /// The sentence that names the edit that failed.
    pub fn message(&self) -> (text: &'static str)
        ensures
            text@ == failure_message(self.operation),
    {
        match self.operation {
            Operation::CreateEpic => "Failed to create Epic!",
            Operation::UpdateEpicStatus => "Failed to update Epic status!",
            Operation::DeleteEpic => "Failed to delete Epic!",
            Operation::CreateStory => "Failed to create Story!",
            Operation::UpdateStoryStatus => "Failed to update Story status!",
            Operation::DeleteStory => "Failed to delete Story!",
        }
    }
}

/// The navigator as its stack, bottom first, and what its store holds.
pub struct NavigatorView {
    pub pages: Seq<AnyPage>,
    pub stored: Option<StateView>,
}

/// What the user answered when an action made the navigator ask.
pub enum Answer {
    /// The action asks nothing.
    Nothing,
    /// The fields of a new epic.
    NewEpic(EpicView),
    /// The fields of a new story.
    NewStory(StoryView),
    /// Whether to delete.
    Confirmed(bool),
    /// The new status, if the user gave one.
    NewStatus(Option<Status>),
}

/// The stack after a step back: the page on top leaves, unless it is the
/// only one.
pub open spec fn stepped_back(pages: Seq<AnyPage>) -> Seq<AnyPage> {
    if pages.len() > 1 {
        pages.drop_last()
    } else {
        pages
    }
}

/// The cause of a failed action, if it failed.
pub open spec fn cause(result: Result<(), ActionError>) -> Option<DbError> {
    match result {
        Ok(()) => None,
        Err(error) => Some(error.cause),
    }
}

/// An action that edits: the store goes through one transaction with `edit`;
/// the stack steps back only where `steps_back` is set and the edit went
/// through, and is untouched otherwise; a failure names `operation`.
pub open spec fn edited(
    before: NavigatorView,
    edit: spec_fn(StateView) -> Result<StateView, DbError>,
    steps_back: bool,
    operation: Operation,
    after: NavigatorView,
    result: Result<(), ActionError>,
) -> bool {
    &&& transaction(before.stored, edit, after.stored, cause(result))
    &&& after.pages == if steps_back && result is Ok {
        stepped_back(before.pages)
    } else {
        before.pages
    }
    &&& result matches Err(error) ==> error.operation == operation
}

/// An action that leaves the store alone and makes `pages` the stack.
pub open spec fn moved(
    before: NavigatorView,
    pages: Seq<AnyPage>,
    after: NavigatorView,
    result: Result<(), ActionError>,
) -> bool {
    &&& result is Ok
    &&& after.pages == pages
    &&& after.stored == before.stored
}

/// What `action` does when the user answers `answer`: the navigator goes
/// from `before` to `after` and the caller gets `result`.
pub open spec fn handled(
    before: NavigatorView,
    action: Action,
    answer: Answer,
    after: NavigatorView,
    result: Result<(), ActionError>,
) -> bool {
    match action {
        Action::NavigateToEpicDetail { epic_id } => moved(
            before,
            before.pages.push(AnyPage::Epic(EpicDetail { epic_id })),
            after,
            result,
        ),
        Action::NavigateToStoryDetail { epic_id, story_id } => moved(
            before,
            before.pages.push(AnyPage::Story(StoryDetail { epic_id, story_id })),
            after,
            result,
        ),
        Action::NavigateToPreviousPage => moved(before, stepped_back(before.pages), after, result),
        Action::Exit => moved(before, Seq::empty(), after, result),
        Action::CreateEpic => answer matches Answer::NewEpic(epic) && edited(
            before,
            |state: StateView| Ok::<StateView, DbError>(state.create_epic(epic)),
            false,
            Operation::CreateEpic,
            after,
            result,
        ),
        Action::CreateStory { epic_id } => answer matches Answer::NewStory(story) && edited(
            before,
            |state: StateView| state.create_story(story, epic_id),
            false,
            Operation::CreateStory,
            after,
            result,
        ),
        Action::UpdateEpicStatus { epic_id } => answer matches Answer::NewStatus(choice) && (
        match choice {
            Some(status) => edited(
                before,
                |state: StateView| state.update_epic_status(epic_id, status),
                false,
                Operation::UpdateEpicStatus,
                after,
                result,
            ),
            None => moved(before, before.pages, after, result),
        }),
        Action::UpdateStoryStatus { story_id } => answer matches Answer::NewStatus(choice) && (
        match choice {
            Some(status) => edited(
                before,
                |state: StateView| state.update_story_status(story_id, status),
                false,
                Operation::UpdateStoryStatus,
                after,
                result,
            ),
            None => moved(before, before.pages, after, result),
        }),
        Action::DeleteEpic { epic_id } => answer matches Answer::Confirmed(confirmed) && (
        if confirmed {
            edited(
                before,
                |state: StateView| state.delete_epic(epic_id),
                true,
                Operation::DeleteEpic,
                after,
                result,
            )
        } else {
            moved(before, before.pages, after, result)
        }),
        Action::DeleteStory { epic_id, story_id } => answer matches Answer::Confirmed(confirmed)
            && (if confirmed {
            edited(
                before,
                |state: StateView| state.delete_story(epic_id, story_id),
                true,
                Operation::DeleteStory,
                after,
                result,
            )
        } else {
            moved(before, before.pages, after, result)
        }),
    }
}

/// Whether the counter of the stored state leaves room for the identifier
/// that `action` would issue.
pub open spec fn has_room(stored: Option<StateView>, action: Action) -> bool {
    match (stored, action) {
        (Some(state), Action::CreateEpic) => state.last_item_id < u32::MAX,
        (Some(state), Action::CreateStory { epic_id }) => state.epics.contains_key(epic_id)
            ==> state.last_item_id < u32::MAX,
        _ => true,
    }
}

/// The navigator keeps the store well formed: whatever the action and the
/// answer, where the store held a well-formed state with room for the next
/// identifier, and the new epic, if one was described, lists no story, the
/// store holds a well-formed state afterwards, unless a write failed.
pub proof fn law_handled_keeps_well_formed(
    before: NavigatorView,
    action: Action,
    answer: Answer,
    after: NavigatorView,
    result: Result<(), ActionError>,
)
    requires
        handled(before, action, answer, after, result),
        well_kept(before.stored),
        has_room(before.stored, action),
        answer matches Answer::NewEpic(epic) ==> epic.stories.len() == 0,
        cause(result) != Some(DbError::WriteError),
    ensures
        well_kept(after.stored),
{
    if before.stored is Some && result is Ok {
        let state = before.stored->0;
        match (action, answer) {
            (Action::CreateEpic, Answer::NewEpic(epic)) => {
                state.create_epic_keeps_wf(epic);
            },
            (Action::CreateStory { epic_id }, Answer::NewStory(story)) => {
                state.create_story_keeps_wf(story, epic_id);
            },
            (Action::UpdateEpicStatus { epic_id }, Answer::NewStatus(Some(status))) => {
                state.update_epic_status_keeps_wf(epic_id, status);
            },
            (Action::UpdateStoryStatus { story_id }, Answer::NewStatus(Some(status))) => {
                state.update_story_status_keeps_wf(story_id, status);
            },
            (Action::DeleteEpic { epic_id }, Answer::Confirmed(true)) => {
                state.delete_epic_keeps_wf(epic_id);
            },
            (Action::DeleteStory { epic_id, story_id }, Answer::Confirmed(true)) => {
                state.delete_story_keeps_wf(epic_id, story_id);
            },
            _ => {},
        }
    }
}

/// The page stack has a floor: no action but `Exit` takes the bottom page
/// away, `Exit` leaves no page, and an action that fails leaves the stack as
/// it was.
pub proof fn law_stack_has_a_floor(
    before: NavigatorView,
    action: Action,
    answer: Answer,
    after: NavigatorView,
    result: Result<(), ActionError>,
)
    requires
        handled(before, action, answer, after, result),
    ensures
        before.pages.len() > 0 && !(action is Exit) ==> after.pages.len() > 0 && after.pages[0]
            == before.pages[0],
        action is Exit ==> after.pages.len() == 0,
        result is Err ==> after.pages == before.pages,
{
}

/// The pages that are open, the prompts, and the repository.
pub struct Navigator<D: Database> {
    pages: Vec<AnyPage>,
    prompts: Prompts,
    db: JiraDatabase<D>,
}

impl<D: Database> View for Navigator<D> {
    type V = NavigatorView;

    closed spec fn view(&self) -> NavigatorView {
        NavigatorView { pages: self.pages@, stored: self.db.stored() }
    }
}

impl<D: Database> Navigator<D> {
    /// The prompts that the navigator asks.
    pub closed spec fn prompts(&self) -> Prompts {
        self.prompts
    }

    /// A navigator that shows the home page.
    pub fn new(db: JiraDatabase<D>, prompts: Prompts) -> (navigator: Navigator<D>)
        ensures
            navigator@.pages == seq![AnyPage::Home(HomePage {  })],
            navigator@.stored == db.stored(),
            navigator.prompts() == prompts,
    {
        let mut pages: Vec<AnyPage> = Vec::new();
        pages.push(AnyPage::Home(HomePage {  }));
        assert(pages@ =~= seq![AnyPage::Home(HomePage {  })]);
        Navigator { pages, prompts, db }
    }

    /// The page on top of the stack, if any page is open.
    pub fn get_current_page(&self) -> (page: Option<&AnyPage>)
        ensures
            match page {
                Some(top) => self@.pages.len() > 0 && *top == self@.pages.last(),
                None => self@.pages.len() == 0,
            },
    {
        let count: usize = self.pages.len();
        if count == 0 {
            None
        } else {
            Some(&self.pages[count - 1])
        }
    }

    /// How many pages are open.
    pub fn get_page_count(&self) -> (count: usize)
        ensures
            count == self@.pages.len(),
    {
        self.pages.len()
    }

    /// Puts other prompts in place of the ones in use.
    pub fn set_prompts(&mut self, prompts: Prompts)
        ensures
            final(self)@ == old(self)@,
            final(self).prompts() == prompts,
    {
        self.prompts = prompts;
    }

    /// The repository, for the pages to read from.
    pub fn database(&self) -> (db: &JiraDatabase<D>)
        ensures
            db.stored() == self@.stored,
    {
        &self.db
    }

    /// Whether `action` can be handled: it can, unless it would issue an
    /// identifier above the largest one.
    pub fn has_room_for(&self, action: Action) -> (room: bool)
        ensures
            room == has_room(self@.stored, action),
    {
        let epic_id: Option<u32> = match action {
            Action::CreateEpic => None,
            Action::CreateStory { epic_id } => Some(epic_id),
            _ => {
                return true;
            },
        };
        match self.db.read_db() {
            Err(_) => true,
            Ok(state) => {
                let issues = match epic_id {
                    None => true,
                    Some(epic_id) => {
                        broadcast use vstd::std_specs::hash::group_hash_axioms;

                        state.epics.contains_key(&epic_id)
                    },
                };
                !issues || state.last_item_id < u32::MAX
            },
        }
    }

    /// Opens the page of the epic `epic_id` on top of the stack.
    pub fn navigate_to_epic_detail(&mut self, epic_id: u32) -> (result: Result<(), ActionError>)
        ensures
            handled(
                old(self)@,
                Action::NavigateToEpicDetail { epic_id },
                Answer::Nothing,
                final(self)@,
                result,
            ),
    {
        self.pages.push(AnyPage::Epic(EpicDetail { epic_id }));
        Ok(())
    }

    /// Opens the page of the story `story_id` on top of the stack.
    pub fn navigate_to_story_detail(&mut self, epic_id: u32, story_id: u32) -> (result: Result<
        (),
        ActionError,
    >)
        ensures
            handled(
                old(self)@,
                Action::NavigateToStoryDetail { epic_id, story_id },
                Answer::Nothing,
                final(self)@,
                result,
            ),
    {
        self.pages.push(AnyPage::Story(StoryDetail { epic_id, story_id }));
        Ok(())
    }

    /// Closes the page on top, unless it is the only one.
    pub fn navigate_to_previous_page(&mut self) -> (result: Result<(), ActionError>)
        ensures
            handled(
                old(self)@,
                Action::NavigateToPreviousPage,
                Answer::Nothing,
                final(self)@,
                result,
            ),
    {
        self.step_back();
        Ok(())
    }

    /// Closes every page, which ends the session.
    pub fn exit(&mut self) -> (result: Result<(), ActionError>)
        ensures
            handled(old(self)@, Action::Exit, Answer::Nothing, final(self)@, result),
    {
        self.pages.clear();
        Ok(())
    }

    /// Stores the epic that the user described.
    pub fn create_epic(&mut self, epic: Epic) -> (result: Result<(), ActionError>)
        requires
            has_room(old(self)@.stored, Action::CreateEpic),
        ensures
            handled(old(self)@, Action::CreateEpic, Answer::NewEpic(epic@), final(self)@, result),
    {
        match self.db.create_epic(epic) {
            Ok(_) => Ok(()),
            Err(cause) => Err(ActionError { operation: Operation::CreateEpic, cause }),
        }
    }

    /// Stores the story that the user described under the epic `epic_id`.
    pub fn create_story(&mut self, epic_id: u32, story: Story) -> (result: Result<
        (),
        ActionError,
    >)
        requires
            has_room(old(self)@.stored, Action::CreateStory { epic_id }),
        ensures
            handled(
                old(self)@,
                Action::CreateStory { epic_id },
                Answer::NewStory(story@),
                final(self)@,
                result,
            ),
    {
        match self.db.create_story(story, epic_id) {
            Ok(_) => Ok(()),
            Err(cause) => Err(ActionError { operation: Operation::CreateStory, cause }),
        }
    }

    /// Gives the epic `epic_id` the status that the user chose, if any.
    pub fn update_epic_status(&mut self, epic_id: u32, choice: Option<Status>) -> (result: Result<
        (),
        ActionError,
    >)
        ensures
            handled(
                old(self)@,
                Action::UpdateEpicStatus { epic_id },
                Answer::NewStatus(choice),
                final(self)@,
                result,
            ),
    {
        match choice {
            None => Ok(()),
            Some(status) => match self.db.update_epic_status(epic_id, status) {
                Ok(()) => Ok(()),
                Err(cause) => Err(ActionError { operation: Operation::UpdateEpicStatus, cause }),
            },
        }
    }

    /// Gives the story `story_id` the status that the user chose, if any.
    pub fn update_story_status(&mut self, story_id: u32, choice: Option<Status>) -> (result:
        Result<(), ActionError>)
        ensures
            handled(
                old(self)@,
                Action::UpdateStoryStatus { story_id },
                Answer::NewStatus(choice),
                final(self)@,
                result,
            ),
    {
        match choice {
            None => Ok(()),
            Some(status) => match self.db.update_story_status(story_id, status) {
                Ok(()) => Ok(()),
                Err(cause) => Err(ActionError { operation: Operation::UpdateStoryStatus, cause }),
            },
        }
    }

    /// Deletes the epic `epic_id` and steps back, where the user confirmed.
    pub fn delete_epic(&mut self, epic_id: u32, confirmed: bool) -> (result: Result<
        (),
        ActionError,
    >)
        ensures
            handled(
                old(self)@,
                Action::DeleteEpic { epic_id },
                Answer::Confirmed(confirmed),
                final(self)@,
                result,
            ),
    {
        if !confirmed {
            return Ok(());
        }
        match self.db.delete_epic(epic_id) {
            Ok(()) => {
                self.step_back();
                Ok(())
            },
            Err(cause) => Err(ActionError { operation: Operation::DeleteEpic, cause }),
        }
    }

    /// Deletes the story `story_id` of the epic `epic_id` and steps back,
    /// where the user confirmed.
    pub fn delete_story(&mut self, epic_id: u32, story_id: u32, confirmed: bool) -> (result:
        Result<(), ActionError>)
        ensures
            handled(
                old(self)@,
                Action::DeleteStory { epic_id, story_id },
                Answer::Confirmed(confirmed),
                final(self)@,
                result,
            ),
    {
        if !confirmed {
            return Ok(());
        }
        match self.db.delete_story(epic_id, story_id) {
            Ok(()) => {
                self.step_back();
                Ok(())
            },
            Err(cause) => Err(ActionError { operation: Operation::DeleteStory, cause }),
        }
    }

    /// Carries out `action`, asking the user first where the action needs an
    /// answer. Whatever the user answers, the outcome is the one that
    /// [`handled`] gives for that answer.
    pub fn handle_action(&mut self, action: Action) -> (result: Result<(), ActionError>)
        requires
            has_room(old(self)@.stored, action),
        ensures
            exists|answer: Answer| #[trigger] handled(
                old(self)@,
                action,
                answer,
                final(self)@,
                result,
            ),
            !(action is CreateEpic || action is CreateStory || action is UpdateEpicStatus
                || action is UpdateStoryStatus || action is DeleteEpic || action is DeleteStory)
                ==> handled(old(self)@, action, Answer::Nothing, final(self)@, result),
    {
        match action {
            Action::NavigateToEpicDetail { epic_id } => self.navigate_to_epic_detail(epic_id),
            Action::NavigateToStoryDetail { epic_id, story_id } => self.navigate_to_story_detail(
                epic_id,
                story_id,
            ),
            Action::NavigateToPreviousPage => self.navigate_to_previous_page(),
            Action::CreateEpic => {
                let epic = self.prompts.create_epic.ask();
                self.create_epic(epic)
            },
            Action::UpdateEpicStatus { epic_id } => {
                let choice = self.prompts.update_status.ask();
                self.update_epic_status(epic_id, choice)
            },
            Action::DeleteEpic { epic_id } => {
                let confirmed = self.prompts.delete_epic.ask();
                self.delete_epic(epic_id, confirmed)
            },
            Action::CreateStory { epic_id } => {
                let story = self.prompts.create_story.ask();
                self.create_story(epic_id, story)
            },
            Action::UpdateStoryStatus { story_id } => {
                let choice = self.prompts.update_status.ask();
                self.update_story_status(story_id, choice)
            },
            Action::DeleteStory { epic_id, story_id } => {
                let confirmed = self.prompts.delete_story.ask();
                self.delete_story(epic_id, story_id, confirmed)
            },
            Action::Exit => self.exit(),
        }
    }

    /// Closes the page on top, unless it is the only one.
    fn step_back(&mut self)
        ensures
            final(self)@.pages == stepped_back(old(self)@.pages),
            final(self)@.stored == old(self)@.stored,
    {
        if self.pages.len() > 1 {
            self.pages.pop();
        }
    }
}

} // verus!

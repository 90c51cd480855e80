//! The six edits of the state, as functions of the state alone.
//!
//! Each edit is given twice: on [`StateView`], where it says what the edit
//! means, and on [`DataBaseState`], where it is carried out.

use crate::data_base::DbError;
use crate::models::{DataBaseState, Epic, EpicView, StateView, Status, Story, StoryView};
use vstd::prelude::*;
use vstd::std_specs::hash::group_hash_axioms;

verus! {

impl EpicView {
    /// The epic with another status.
    pub open spec fn with_status(self, status: Status) -> EpicView {
        EpicView { status, ..self }
    }

    /// The epic with one more story at the end of its list.
    pub open spec fn with_story(self, story_id: u32) -> EpicView {
        EpicView { stories: self.stories.push(story_id), ..self }
    }

    /// The epic without the first mention of a story in its list.
    pub open spec fn without_story(self, story_id: u32) -> EpicView {
        EpicView { stories: self.stories.remove_value(story_id), ..self }
    }
}

impl StoryView {
    /// The story with another status.
    pub open spec fn with_status(self, status: Status) -> StoryView {
        StoryView { status, ..self }
    }
}

impl StateView {
    /// The identifier that the next item gets.
    pub open spec fn next_id(self) -> u32 {
        (self.last_item_id + 1) as u32
    }

    /// The state after a new epic was stored under the next identifier.
    pub open spec fn create_epic(self, epic: EpicView) -> StateView {
        StateView {
            last_item_id: self.next_id(),
            epics: self.epics.insert(self.next_id(), epic),
            stories: self.stories,
        }
    }

    /// The state after a new story was stored under the next identifier and
    /// listed by the epic `epic_id`; `EpicNotFound` where there is no such epic.
    pub open spec fn create_story(self, story: StoryView, epic_id: u32) -> Result<
        StateView,
        DbError,
    > {
        if !self.epics.contains_key(epic_id) {
            Err(DbError::EpicNotFound)
        } else {
            Ok(
                StateView {
                    last_item_id: self.next_id(),
                    epics: self.epics.insert(
                        epic_id,
                        self.epics[epic_id].with_story(self.next_id()),
                    ),
                    stories: self.stories.insert(self.next_id(), story),
                },
            )
        }
    }

    /// The state after the epic `epic_id` got another status; `EpicNotFound`
    /// where there is no such epic.
    pub open spec fn update_epic_status(self, epic_id: u32, status: Status) -> Result<
        StateView,
        DbError,
    > {
        if !self.epics.contains_key(epic_id) {
            Err(DbError::EpicNotFound)
        } else {
            Ok(
                StateView {
                    epics: self.epics.insert(epic_id, self.epics[epic_id].with_status(status)),
                    ..self
                },
            )
        }
    }

    /// The state after the story `story_id` got another status;
    /// `StoryNotFound` where there is no such story.
    pub open spec fn update_story_status(self, story_id: u32, status: Status) -> Result<
        StateView,
        DbError,
    > {
        if !self.stories.contains_key(story_id) {
            Err(DbError::StoryNotFound)
        } else {
            Ok(
                StateView {
                    stories: self.stories.insert(
                        story_id,
                        self.stories[story_id].with_status(status),
                    ),
                    ..self
                },
            )
        }
    }

    /// The state after the epic `epic_id` left together with every story
    /// that it listed; `EpicNotFound` where there is no such epic.
    pub open spec fn delete_epic(self, epic_id: u32) -> Result<StateView, DbError> {
        if !self.epics.contains_key(epic_id) {
            Err(DbError::EpicNotFound)
        } else {
            Ok(
                StateView {
                    epics: self.epics.remove(epic_id),
                    stories: self.stories.remove_keys(self.epics[epic_id].stories.to_set()),
                    ..self
                },
            )
        }
    }

    /// The state after the story `story_id` left the table and the list of
    /// the epic `epic_id`; `EpicNotFound` where there is no such epic,
    /// `StoryNotFound` where the epic does not list the story or the table
    /// does not hold it.
    pub open spec fn delete_story(self, epic_id: u32, story_id: u32) -> Result<
        StateView,
        DbError,
    > {
        if !self.epics.contains_key(epic_id) {
            Err(DbError::EpicNotFound)
        } else if !self.epics[epic_id].stories.contains(story_id) || !self.stories.contains_key(
            story_id,
        ) {
            Err(DbError::StoryNotFound)
        } else {
            Ok(
                StateView {
                    epics: self.epics.insert(
                        epic_id,
                        self.epics[epic_id].without_story(story_id),
                    ),
                    stories: self.stories.remove(story_id),
                    ..self
                },
            )
        }
    }
}

/// Where `needle` stands first in `list`, if it stands there at all.
pub fn position_of(list: &Vec<u32>, needle: u32) -> (found: Option<usize>)
    ensures
        match found {
            Some(at) => at < list@.len() && list@.index_of_first(needle) == Some(at as int),
            None => !list@.contains(needle),
        },
{
    let mut at: usize = 0;
    while at < list.len()
        invariant
            at <= list.len(),
            forall|before: int| 0 <= before < at ==> list@[before] != needle,
        decreases list.len() - at,
    {
        if list[at] == needle {
            proof {
                list@.index_of_first_ensures(needle);
            }
            return Some(at);
        }
        at = at + 1;
    }
    None
}

impl DataBaseState {
    /// Stores `epic` under the next identifier and returns that identifier.
    pub fn create_epic(&mut self, epic: Epic) -> (new_id: u32)
        requires
            old(self).last_item_id < u32::MAX,
        ensures
            final(self)@ == old(self)@.create_epic(epic@),
            new_id == old(self).last_item_id + 1,
            old(self)@.wf() && epic@.stories.len() == 0 ==> final(self)@.wf(),
    {
        broadcast use group_hash_axioms;

        let new_id: u32 = self.last_item_id + 1;
        self.last_item_id = new_id;
        self.epics.insert(new_id, epic);
        assert(self@ =~= old(self)@.create_epic(epic@));
        proof {
            if old(self)@.wf() && epic@.stories.len() == 0 {
                old(self)@.create_epic_keeps_wf(epic@);
            }
        }
        new_id
    }

    /// Stores `story` under the next identifier, lists it last in the epic
    /// `epic_id`, and returns the identifier. Where there is no such epic the
    /// state stays as it was, counter included.
    pub fn create_story(&mut self, story: Story, epic_id: u32) -> (result: Result<u32, DbError>)
        requires
            old(self)@.epics.contains_key(epic_id) ==> old(self).last_item_id < u32::MAX,
        ensures
            match result {
                Ok(new_id) => old(self)@.create_story(story@, epic_id) == Ok::<StateView, DbError>(
                    final(self)@,
                ) && new_id == old(self).last_item_id + 1,
                Err(error) => old(self)@.create_story(story@, epic_id) == Err::<
                    StateView,
                    DbError,
                >(error) && final(self)@ == old(self)@,
            },
            old(self)@.wf() ==> final(self)@.wf(),
    {
        broadcast use group_hash_axioms;

        match self.epics.remove(&epic_id) {
            None => {
                assert(self@ =~= old(self)@);
                Err(DbError::EpicNotFound)
            },
            Some(mut epic) => {
                let new_id: u32 = self.last_item_id + 1;
                epic.stories.push(new_id);
                self.epics.insert(epic_id, epic);
                self.stories.insert(new_id, story);
                self.last_item_id = new_id;
                assert(self@ =~= old(self)@.create_story(story@, epic_id)->Ok_0);
                proof {
                    if old(self)@.wf() {
                        old(self)@.create_story_keeps_wf(story@, epic_id);
                    }
                }
                Ok(new_id)
            },
        }
    }

    /// Gives the epic `epic_id` another status.
    pub fn update_epic_status(&mut self, epic_id: u32, status: Status) -> (result: Result<
        (),
        DbError,
    >)
        ensures
            match result {
                Ok(()) => old(self)@.update_epic_status(epic_id, status) == Ok::<
                    StateView,
                    DbError,
                >(final(self)@),
                Err(error) => old(self)@.update_epic_status(epic_id, status) == Err::<
                    StateView,
                    DbError,
                >(error) && final(self)@ == old(self)@,
            },
            old(self)@.wf() ==> final(self)@.wf(),
    {
        broadcast use group_hash_axioms;

        match self.epics.remove(&epic_id) {
            None => {
                assert(self@ =~= old(self)@);
                Err(DbError::EpicNotFound)
            },
            Some(mut epic) => {
                epic.status = status;
                self.epics.insert(epic_id, epic);
                assert(self@ =~= old(self)@.update_epic_status(epic_id, status)->Ok_0);
                proof {
                    if old(self)@.wf() {
                        old(self)@.update_epic_status_keeps_wf(epic_id, status);
                    }
                }
                Ok(())
            },
        }
    }

    /// Gives the story `story_id` another status.
    pub fn update_story_status(&mut self, story_id: u32, status: Status) -> (result: Result<
        (),
        DbError,
    >)
        ensures
            match result {
                Ok(()) => old(self)@.update_story_status(story_id, status) == Ok::<
                    StateView,
                    DbError,
                >(final(self)@),
                Err(error) => old(self)@.update_story_status(story_id, status) == Err::<
                    StateView,
                    DbError,
                >(error) && final(self)@ == old(self)@,
            },
            old(self)@.wf() ==> final(self)@.wf(),
    {
        broadcast use group_hash_axioms;

        match self.stories.remove(&story_id) {
            None => {
                assert(self@ =~= old(self)@);
                Err(DbError::StoryNotFound)
            },
            Some(mut story) => {
                story.status = status;
                self.stories.insert(story_id, story);
                assert(self@ =~= old(self)@.update_story_status(story_id, status)->Ok_0);
                proof {
                    if old(self)@.wf() {
                        old(self)@.update_story_status_keeps_wf(story_id, status);
                    }
                }
                Ok(())
            },
        }
    }

    /// Removes the epic `epic_id` and every story that it lists.
    pub fn delete_epic(&mut self, epic_id: u32) -> (result: Result<(), DbError>)
        ensures
            match result {
                Ok(()) => old(self)@.delete_epic(epic_id) == Ok::<StateView, DbError>(
                    final(self)@,
                ),
                Err(error) => old(self)@.delete_epic(epic_id) == Err::<StateView, DbError>(error)
                    && final(self)@ == old(self)@,
            },
            old(self)@.wf() ==> final(self)@.wf(),
    {
        broadcast use group_hash_axioms;

        match self.epics.remove(&epic_id) {
            None => {
                assert(self@ =~= old(self)@);
                Err(DbError::EpicNotFound)
            },
            Some(epic) => {
                let ghost listed = epic.stories@;
                let ghost before = old(self)@.stories;
                let mut at: usize = 0;
                assert(listed.take(0).to_set() =~= Set::<u32>::empty());
                assert(self@.stories =~= before.remove_keys(listed.take(0).to_set()));
                while at < epic.stories.len()
                    invariant
                        at <= epic.stories.len(),
                        listed == epic.stories@,
                        self.last_item_id == old(self).last_item_id,
                        self.epics@ == old(self).epics@.remove(epic_id),
                        self@.stories == before.remove_keys(listed.take(at as int).to_set()),
                    decreases epic.stories.len() - at,
                {
                    let story_id: u32 = epic.stories[at];
                    let ghost earlier = self@.stories;
                    self.stories.remove(&story_id);
                    proof {
                        let done = listed.take(at as int);
                        let more = listed.take(at as int + 1);
                        assert(more =~= done.push(story_id));
                        lemma_push_contains(done, story_id);
                        assert(more.to_set() =~= done.to_set().insert(story_id));
                        assert(self@.stories =~= earlier.remove(story_id));
                        assert(self@.stories =~= before.remove_keys(more.to_set()));
                    }
                    at = at + 1;
                }
                assert(listed.take(at as int) =~= listed);
                assert(self@ =~= old(self)@.delete_epic(epic_id)->Ok_0);
                proof {
                    if old(self)@.wf() {
                        old(self)@.delete_epic_keeps_wf(epic_id);
                    }
                }
                Ok(())
            },
        }
    }

    /// Removes the story `story_id` from the table and from the list of the
    /// epic `epic_id`.
    pub fn delete_story(&mut self, epic_id: u32, story_id: u32) -> (result: Result<(), DbError>)
        ensures
            match result {
                Ok(()) => old(self)@.delete_story(epic_id, story_id) == Ok::<StateView, DbError>(
                    final(self)@,
                ),
                Err(error) => old(self)@.delete_story(epic_id, story_id) == Err::<
                    StateView,
                    DbError,
                >(error) && final(self)@ == old(self)@,
            },
            old(self)@.wf() ==> final(self)@.wf(),
    {
        broadcast use group_hash_axioms;

        match self.epics.remove(&epic_id) {
            None => {
                assert(self@ =~= old(self)@);
                Err(DbError::EpicNotFound)
            },
            Some(mut epic) => {
                let ghost listed = epic.stories@;
                let found = position_of(&epic.stories, story_id);
                let held = self.stories.contains_key(&story_id);
                proof {
                    listed.index_of_first_ensures(story_id);
                    assert(old(self)@.epics[epic_id].stories == listed);
                    assert(held == old(self)@.stories.contains_key(story_id));
                }
                match found {
                    Some(at) if held => {
                        epic.stories.remove(at);
                        assert(epic.stories@ == listed.remove_value(story_id));
                        self.epics.insert(epic_id, epic);
                        self.stories.remove(&story_id);
                        assert(old(self)@.delete_story(epic_id, story_id) is Ok);
                        assert(self@ =~= old(self)@.delete_story(epic_id, story_id)->Ok_0);
                        proof {
                            if old(self)@.wf() {
                                old(self)@.delete_story_keeps_wf(epic_id, story_id);
                            }
                        }
                        Ok(())
                    },
                    _ => {
                        self.epics.insert(epic_id, epic);
                        assert(self@ =~= old(self)@);
                        Err(DbError::StoryNotFound)
                    },
                }
            },
        }
    }
}

/// What is left of a list when the first mention of `id` is taken out.
pub proof fn lemma_remove_value(list: Seq<u32>, id: u32)
    requires
        list.contains(id),
    ensures
        forall|other: u32| #[trigger] list.remove_value(id).contains(other) ==> list.contains(other),
        list.no_duplicates() ==> list.remove_value(id).no_duplicates() && !list.remove_value(
            id,
        ).contains(id),
{
    list.index_of_first_ensures(id);
    let at = list.index_of_first(id)->0;
    let rest = list.remove_value(id);
    assert(rest == list.remove(at));
    list.remove_ensures(at);
    assert forall|other: u32| #[trigger] rest.contains(other) implies list.contains(other) by {
        let i = choose|i: int| 0 <= i < rest.len() && rest[i] == other;
        if i < at {
            assert(list[i] == other);
        } else {
            assert(list[i + 1] == other);
        }
    }
    if list.no_duplicates() {
        assert forall|i: int, j: int| 0 <= i < rest.len() && 0 <= j < rest.len() && i != j implies rest[i]
            != rest[j] by {
            let from_i = if i < at { i } else { i + 1 };
            let from_j = if j < at { j } else { j + 1 };
            assert(rest[i] == list[from_i]);
            assert(rest[j] == list[from_j]);
        }
        if rest.contains(id) {
            let i = choose|i: int| 0 <= i < rest.len() && rest[i] == id;
            let from_i = if i < at { i } else { i + 1 };
            assert(rest[i] == list[from_i]);
            assert(list[at] == id);
        }
    }
}

/// What a list mentions once one more identifier stands at its end.
pub proof fn lemma_push_contains(list: Seq<u32>, id: u32)
    ensures
        list.push(id).contains(id),
        forall|other: u32| #[trigger] list.push(id).contains(other) <==> other == id || list.contains(other),
{
    assert(list.push(id)[list.len() as int] == id);
    assert forall|other: u32| #[trigger] list.push(id).contains(other) implies other == id || list.contains(
        other,
    ) by {
        let i = choose|i: int| 0 <= i < list.push(id).len() && list.push(id)[i] == other;
        if i < list.len() {
            assert(list[i] == other);
        }
    }
    assert forall|other: u32| other == id || list.contains(other) implies #[trigger] list.push(id).contains(
        other,
    ) by {
        if other != id {
            let i = choose|i: int| 0 <= i < list.len() && list[i] == other;
            assert(list.push(id)[i] == other);
        }
    }
}

impl StateView {
    /// A new epic without stories leaves a well-formed state well formed.
    pub proof fn create_epic_keeps_wf(self, epic: EpicView)
        requires
            self.wf(),
            self.last_item_id < u32::MAX,
            epic.stories.len() == 0,
        ensures
            self.create_epic(epic).wf(),
    {
        let next = self.create_epic(epic);
        let new_id = self.next_id();
        assert(!self.epics.contains_key(new_id));
        assert(!self.stories.contains_key(new_id));
        assert forall|epic_id: u32, story_id: u32| #[trigger] next.owns(epic_id, story_id) implies self.owns(
            epic_id,
            story_id,
        ) by {
            if epic_id == new_id {
                let i = choose|i: int| 0 <= i < epic.stories.len() && epic.stories[i] == story_id;
            }
        }
        assert(next.no_dangling_story()) by {
            assert forall|epic_id: u32, story_id: u32| #[trigger]
                next.owns(epic_id, story_id) implies next.stories.contains_key(story_id) by {
                assert(self.owns(epic_id, story_id));
            }
        }
        assert(next.one_owner_each()) by {
            assert forall|first: u32, second: u32, story_id: u32|
                #[trigger] next.owns(first, story_id) && #[trigger] next.owns(
                    second,
                    story_id,
                ) implies first == second by {
                assert(self.owns(first, story_id) && self.owns(second, story_id));
            }
        }
    }

    /// A new story under an epic leaves a well-formed state well formed.
    pub proof fn create_story_keeps_wf(self, story: StoryView, epic_id: u32)
        requires
            self.wf(),
            self.last_item_id < u32::MAX,
            self.epics.contains_key(epic_id),
        ensures
            self.create_story(story, epic_id)->Ok_0.wf(),
    {
        let next = self.create_story(story, epic_id)->Ok_0;
        let new_id = self.next_id();
        let listed = self.epics[epic_id].stories;
        lemma_push_contains(listed, new_id);
        assert(!self.epics.contains_key(new_id));
        assert(!self.stories.contains_key(new_id));
        assert forall|owner: u32| !#[trigger] self.owns(owner, new_id) by {}
        assert(!listed.contains(new_id)) by {
            if listed.contains(new_id) {
                assert(self.owns(epic_id, new_id));
            }
        }
        assert forall|owner: u32, story_id: u32| #[trigger] next.owns(owner, story_id) implies (story_id
            == new_id && owner == epic_id) || self.owns(owner, story_id) by {
            if owner == epic_id {
                assert(next.epics[owner].stories == listed.push(new_id));
            }
        }
        assert(next.no_dangling_story()) by {
            assert forall|owner: u32, story_id: u32| #[trigger]
                next.owns(owner, story_id) implies next.stories.contains_key(story_id) by {
                if story_id != new_id {
                    assert(self.owns(owner, story_id));
                }
            }
        }
        assert(next.one_owner_each()) by {
            assert forall|first: u32, second: u32, story_id: u32|
                #[trigger] next.owns(first, story_id) && #[trigger] next.owns(
                    second,
                    story_id,
                ) implies first == second by {
                if story_id != new_id {
                    assert(self.owns(first, story_id) && self.owns(second, story_id));
                }
            }
            assert forall|owner: u32| #[trigger]
                next.epics.contains_key(owner) implies next.epics[owner].stories.no_duplicates() by {
                if owner == epic_id {
                    assert(self.epics[epic_id].stories.no_duplicates());
                    assert(next.epics[owner].stories == listed.push(new_id));
                    assert forall|i: int, j: int|
                        0 <= i < listed.push(new_id).len() && 0 <= j < listed.push(new_id).len() && i
                            != j implies listed.push(new_id)[i] != listed.push(new_id)[j] by {
                        if i < listed.len() && j < listed.len() {
                        } else if i < listed.len() {
                            assert(listed[i] != new_id);
                        } else {
                            assert(listed[j] != new_id);
                        }
                    }
                } else {
                    assert(self.epics.contains_key(owner));
                }
            }
        }
    }

    /// Another status for an epic leaves a well-formed state well formed.
    pub proof fn update_epic_status_keeps_wf(self, epic_id: u32, status: Status)
        requires
            self.wf(),
            self.epics.contains_key(epic_id),
        ensures
            self.update_epic_status(epic_id, status)->Ok_0.wf(),
    {
        let next = self.update_epic_status(epic_id, status)->Ok_0;
        assert(next.epics.dom() =~= self.epics.dom());
        assert forall|owner: u32, story_id: u32| #[trigger] next.owns(owner, story_id) implies self.owns(
            owner,
            story_id,
        ) by {}
        assert(next.no_dangling_story()) by {
            assert forall|owner: u32, story_id: u32| #[trigger]
                next.owns(owner, story_id) implies next.stories.contains_key(story_id) by {
                assert(self.owns(owner, story_id));
            }
        }
        assert(next.one_owner_each()) by {
            assert forall|first: u32, second: u32, story_id: u32|
                #[trigger] next.owns(first, story_id) && #[trigger] next.owns(
                    second,
                    story_id,
                ) implies first == second by {
                assert(self.owns(first, story_id) && self.owns(second, story_id));
            }
            assert forall|owner: u32| #[trigger]
                next.epics.contains_key(owner) implies next.epics[owner].stories.no_duplicates() by {
                assert(self.epics.contains_key(owner));
            }
        }
    }

    /// Another status for a story leaves a well-formed state well formed.
    pub proof fn update_story_status_keeps_wf(self, story_id: u32, status: Status)
        requires
            self.wf(),
            self.stories.contains_key(story_id),
        ensures
            self.update_story_status(story_id, status)->Ok_0.wf(),
    {
        let next = self.update_story_status(story_id, status)->Ok_0;
        assert(next.stories.dom() =~= self.stories.dom());
        assert(next.no_dangling_story()) by {
            assert forall|owner: u32, listed: u32| #[trigger]
                next.owns(owner, listed) implies next.stories.contains_key(listed) by {
                assert(self.owns(owner, listed));
            }
        }
        assert(next.one_owner_each()) by {
            assert forall|first: u32, second: u32, listed: u32|
                #[trigger] next.owns(first, listed) && #[trigger] next.owns(
                    second,
                    listed,
                ) implies first == second by {
                assert(self.owns(first, listed) && self.owns(second, listed));
            }
        }
        assert(next.ids_issued_once()) by {
            assert forall|id: u32| self.epics.contains_key(id) implies !#[trigger] next.stories.contains_key(
                id,
            ) by {
                assert(!self.stories.contains_key(id));
            }
        }
    }

    /// The leaving of an epic with its stories leaves a well-formed state
    /// well formed.
    pub proof fn delete_epic_keeps_wf(self, epic_id: u32)
        requires
            self.wf(),
            self.epics.contains_key(epic_id),
        ensures
            self.delete_epic(epic_id)->Ok_0.wf(),
    {
        let next = self.delete_epic(epic_id)->Ok_0;
        let gone = self.epics[epic_id].stories.to_set();
        assert(next.stories.dom() =~= self.stories.dom().difference(gone));
        assert(next.no_dangling_story()) by {
            assert forall|owner: u32, story_id: u32| #[trigger]
                next.owns(owner, story_id) implies next.stories.contains_key(story_id) by {
                assert(self.owns(owner, story_id));
                if gone.contains(story_id) {
                    assert(self.owns(epic_id, story_id));
                }
            }
        }
        assert(next.one_owner_each()) by {
            assert forall|first: u32, second: u32, story_id: u32|
                #[trigger] next.owns(first, story_id) && #[trigger] next.owns(
                    second,
                    story_id,
                ) implies first == second by {
                assert(self.owns(first, story_id) && self.owns(second, story_id));
            }
            assert forall|owner: u32| #[trigger]
                next.epics.contains_key(owner) implies next.epics[owner].stories.no_duplicates() by {
                assert(self.epics.contains_key(owner));
            }
        }
        assert(next.ids_issued_once()) by {
            assert forall|id: u32| #[trigger] next.epics.contains_key(id) implies id
                <= next.last_item_id by {
                assert(self.epics.contains_key(id));
            }
            assert forall|id: u32| #[trigger] next.stories.contains_key(id) implies id
                <= next.last_item_id by {
                assert(self.stories.contains_key(id));
            }
            assert forall|id: u32| next.epics.contains_key(id) implies !#[trigger] next.stories.contains_key(
                id,
            ) by {
                assert(!self.stories.contains_key(id));
            }
        }
    }

    /// The leaving of a story leaves a well-formed state well formed.
    pub proof fn delete_story_keeps_wf(self, epic_id: u32, story_id: u32)
        requires
            self.wf(),
            self.delete_story(epic_id, story_id) is Ok,
        ensures
            self.delete_story(epic_id, story_id)->Ok_0.wf(),
    {
        let next = self.delete_story(epic_id, story_id)->Ok_0;
        let listed = self.epics[epic_id].stories;
        lemma_remove_value(listed, story_id);
        assert(listed.no_duplicates());
        assert(self.owns(epic_id, story_id));
        assert(next.epics.dom() =~= self.epics.dom());
        assert forall|owner: u32, other: u32| #[trigger] next.owns(owner, other) implies self.owns(
            owner,
            other,
        ) && other != story_id by {
            if owner == epic_id {
                assert(next.epics[owner].stories == listed.remove_value(story_id));
            } else {
                assert(self.owns(owner, other));
            }
        }
        assert(next.no_dangling_story()) by {
            assert forall|owner: u32, other: u32| #[trigger]
                next.owns(owner, other) implies next.stories.contains_key(other) by {
                assert(self.owns(owner, other));
            }
        }
        assert(next.one_owner_each()) by {
            assert forall|first: u32, second: u32, other: u32|
                #[trigger] next.owns(first, other) && #[trigger] next.owns(
                    second,
                    other,
                ) implies first == second by {
                assert(self.owns(first, other) && self.owns(second, other));
            }
            assert forall|owner: u32| #[trigger]
                next.epics.contains_key(owner) implies next.epics[owner].stories.no_duplicates() by {
                assert(self.epics.contains_key(owner));
            }
        }
        assert(next.ids_issued_once()) by {
            assert forall|id: u32| #[trigger] next.epics.contains_key(id) implies id
                <= next.last_item_id by {
                assert(self.epics.contains_key(id));
            }
            assert forall|id: u32| #[trigger] next.stories.contains_key(id) implies id
                <= next.last_item_id by {
                assert(self.stories.contains_key(id));
            }
            assert forall|id: u32| next.epics.contains_key(id) implies !#[trigger] next.stories.contains_key(
                id,
            ) by {
                assert(!self.stories.contains_key(id));
            }
        }
    }
}

} // verus!

//! What holds of the store and of the edits over any run of operations.

use crate::data_base::{read_of, transaction, write_of, DbError};
use crate::models::{DataBaseState, EpicView, StateView, StoryView};
use vstd::prelude::*;

verus! {

/// What was written is what is read: where a write of `written` went through
/// and the next read of the same store goes through, the read gives a state
/// equal to `written`, counter and both tables.
pub proof fn law_round_trip(
    written: DataBaseState,
    held: Option<StateView>,
    read: Result<DataBaseState, DbError>,
)
    requires
        write_of(written@, held, Ok(())),
        read_of(held, read),
        read is Ok,
    ensures
        read->Ok_0@ == written@,
        read->Ok_0@.last_item_id == written@.last_item_id,
        read->Ok_0@.epics == written@.epics,
        read->Ok_0@.stories == written@.stories,
{
}

/// A store that holds nothing readable fails every read, and every
/// operation of the repository on it fails with `ReadError` and leaves the
/// store as it was. A store that holds a state fails no read, and no
/// operation on it fails with `ReadError`.
pub proof fn law_unreadable_store(
    stored: Option<StateView>,
    read: Result<DataBaseState, DbError>,
    edit: spec_fn(StateView) -> Result<StateView, DbError>,
    after: Option<StateView>,
    failure: Option<DbError>,
)
    requires
        read_of(stored, read),
        transaction(stored, edit, after, failure),
        forall|state: StateView| #[trigger]
            edit(state) != Err::<StateView, DbError>(DbError::ReadError),
    ensures
        stored is None ==> read == Err::<DataBaseState, DbError>(DbError::ReadError) && failure
            == Some(DbError::ReadError) && after is None,
        stored is Some ==> read is Ok && failure != Some(DbError::ReadError),
{
}

/// One request to create an item.
pub enum Creation {
    /// A new epic.
    Epic(EpicView),
    /// A new story under the epic with the given identifier.
    Story(StoryView, u32),
}

/// The state after one creation, where it went through.
pub open spec fn created(state: StateView, creation: Creation) -> Result<StateView, DbError> {
    match creation {
        Creation::Epic(epic) => Ok(state.create_epic(epic)),
        Creation::Story(story, epic_id) => state.create_story(story, epic_id),
    }
}

/// The state after a run of creations, one after the other; a creation that
/// fails leaves the state as it was.
pub open spec fn state_after(state: StateView, creations: Seq<Creation>) -> StateView
    decreases creations.len(),
{
    if creations.len() == 0 {
        state
    } else {
        let before = state_after(state, creations.drop_last());
        match created(before, creations.last()) {
            Ok(after) => after,
            Err(_) => before,
        }
    }
}

/// The identifiers that a run of creations issued, in the order of issue; a
/// creation that fails issues none.
pub open spec fn issued(state: StateView, creations: Seq<Creation>) -> Seq<u32>
    decreases creations.len(),
{
    if creations.len() == 0 {
        Seq::empty()
    } else {
        let before = state_after(state, creations.drop_last());
        let earlier = issued(state, creations.drop_last());
        match created(before, creations.last()) {
            Ok(after) => earlier.push(after.last_item_id),
            Err(_) => earlier,
        }
    }
}

/// Identifiers are issued in order and never twice: however epics and
/// stories are mixed, the creations that went through got the identifiers
/// that follow the counter they started from, one after the other, and the
/// counter ends on the last of them.
pub proof fn law_ids_in_order(state: StateView, creations: Seq<Creation>)
    requires
        state.last_item_id + creations.len() <= u32::MAX,
    ensures
        issued(state, creations).len() <= creations.len(),
        forall|i: int|
            0 <= i < issued(state, creations).len() ==> #[trigger] issued(state, creations)[i]
                == state.last_item_id + 1 + i,
        state_after(state, creations).last_item_id == state.last_item_id + issued(
            state,
            creations,
        ).len(),
        issued(state, creations).no_duplicates(),
        (forall|i: int|
            0 <= i < creations.len() ==> #[trigger] creations[i] is Epic) ==> issued(
            state,
            creations,
        ).len() == creations.len(),
    decreases creations.len(),
{
    if creations.len() > 0 {
        law_ids_in_order(state, creations.drop_last());
        assert forall|i: int| 0 <= i < creations.drop_last().len() implies creations.drop_last()[i]
            == creations[i] by {}
        if forall|i: int| 0 <= i < creations.len() ==> #[trigger] creations[i] is Epic {
            assert(creations.last() == creations[creations.len() - 1]);
            assert forall|i: int| 0 <= i < creations.drop_last().len() implies #[trigger]
                creations.drop_last()[i] is Epic by {
                assert(creations[i] is Epic);
            }
        }
    }
}

/// A story for an epic that is not there is refused, and the state that
/// comes out of the refusal is the state that went in.
pub proof fn law_story_needs_epic(state: StateView, story: StoryView, epic_id: u32)
    requires
        !state.epics.contains_key(epic_id),
    ensures
        state.create_story(story, epic_id) == Err::<StateView, DbError>(DbError::EpicNotFound),
        state_after(state, seq![Creation::Story(story, epic_id)]) == state,
        issued(state, seq![Creation::Story(story, epic_id)]).len() == 0,
{
    let run = seq![Creation::Story(story, epic_id)];
    assert(run.drop_last() =~= Seq::<Creation>::empty());
    assert(run.last() == Creation::Story(story, epic_id));
    reveal_with_fuel(state_after, 2);
    reveal_with_fuel(issued, 2);
}

/// An epic takes its stories with it, and is gone for good: after the
/// delete the state holds neither the epic nor any story that it listed,
/// nothing else has changed, and a second delete finds no epic.
pub proof fn law_delete_epic_cascades(state: StateView, epic_id: u32)
    requires
        state.epics.contains_key(epic_id),
    ensures
        state.delete_epic(epic_id) is Ok,
        !state.delete_epic(epic_id)->Ok_0.epics.contains_key(epic_id),
        forall|story_id: u32|
            state.epics[epic_id].stories.contains(story_id) ==> !#[trigger] state.delete_epic(
                epic_id,
            )->Ok_0.stories.contains_key(story_id),
        forall|other: u32|
            other != epic_id && state.epics.contains_key(other) ==> #[trigger] state.delete_epic(
                epic_id,
            )->Ok_0.epics.contains_pair(other, state.epics[other]),
        forall|story_id: u32|
            state.stories.contains_key(story_id) && !state.epics[epic_id].stories.contains(
                story_id,
            ) ==> #[trigger] state.delete_epic(epic_id)->Ok_0.stories.contains_pair(
                story_id,
                state.stories[story_id],
            ),
        state.delete_epic(epic_id)->Ok_0.last_item_id == state.last_item_id,
        state.delete_epic(epic_id)->Ok_0.delete_epic(epic_id) == Err::<StateView, DbError>(
            DbError::EpicNotFound,
        ),
{
}

} // verus!

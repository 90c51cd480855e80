//! The repository: one read, one edit and one write for every operation.

use crate::models::{DataBaseState, Epic, StateView, Status, Story};
use vstd::prelude::*;

pub mod edits;
pub mod laws;
pub mod test_utils;

verus! {

/// Why an operation of the repository did not go through.
#[derive(Clone, Copy, Debug, PartialEq, Eq, Structural)]
pub enum DbError {
    /// The store could not hand out a state.
    ReadError,
    /// The store could not take the new state.
    WriteError,
    /// No epic has the identifier that was given.
    EpicNotFound,
    /// No story has the identifier that was given, or the epic does not list it.
    StoryNotFound,
}

/// The sentence that tells a user of the error.
pub open spec fn error_message(error: DbError) -> Seq<char> {
    match error {
        DbError::ReadError => "Could not read the database!"@,
        DbError::WriteError => "Could not write the database!"@,
        DbError::EpicNotFound => "Could not find epic in database!"@,
        DbError::StoryNotFound => "Could not find story in database!"@,
    }
}

impl DbError {
    /// The sentence that tells a user of the error.
    pub fn message(self) -> (text: &'static str)
        ensures
            text@ == error_message(self),
    {
        match self {
            DbError::ReadError => "Could not read the database!",
            DbError::WriteError => "Could not write the database!",
            DbError::EpicNotFound => "Could not find epic in database!",
            DbError::StoryNotFound => "Could not find story in database!",
        }
    }
}

/// A read of a store that held `stored`: the state that came back is the one
/// that was held, and the read failed, with `ReadError`, only where nothing
/// readable was held.
pub open spec fn read_of(stored: Option<StateView>, result: Result<DataBaseState, DbError>) -> bool {
    match result {
        Ok(state) => stored == Some(state@),
        Err(error) => error == DbError::ReadError && stored is None,
    }
}

/// A write of `state` to a store that holds `after` from then on: where the
/// write went through, the store holds `state`, and the only error is
/// `WriteError`.
pub open spec fn write_of(state: StateView, after: Option<StateView>, result: Result<(), DbError>) -> bool {
    match result {
        Ok(()) => after == Some(state),
        Err(error) => error == DbError::WriteError,
    }
}

/// A store that holds the whole state as one unit.
///
/// A store promises this much: a read hands out what the store holds and
/// fails only where it holds nothing that can be read, as a file does that
/// is missing or broken; what a write has taken is what the store holds from
/// then on. Whether a write goes through is the store's own affair. Between
/// two operations nobody else changes the store.
pub trait Database {
    /// The state that the store holds, where it holds one that can be read.
    spec fn stored(&self) -> Option<StateView>;

    /// Hands out the whole state, or fails with `ReadError` where there is
    /// none to hand out.
    fn read_db(&self) -> (result: Result<DataBaseState, DbError>)
        ensures
            read_of(self.stored(), result),
    ;

    /// Takes the whole state in place of what was held, or fails with
    /// `WriteError`.
    fn write_db(&mut self, state: &DataBaseState) -> (result: Result<(), DbError>)
        ensures
            write_of(state@, final(self).stored(), result),
    ;
}

/// The error of a result, if it is one.
pub open spec fn failure<T>(result: Result<T, DbError>) -> Option<DbError> {
    match result {
        Ok(_) => None,
        Err(error) => Some(error),
    }
}

/// How one operation of the repository leaves the store: `before` is what
/// the store held, `edit` the change that the operation makes to a state,
/// `after` what the store holds then, and `failure` the error, if any.
///
/// Without an error, the store held a state, the edit was in order and its
/// result is held now. `ReadError` comes where the store held nothing
/// readable, and nothing was touched. After `WriteError` the edit was in
/// order but nothing is known of what is held. Any other error is the
/// edit's own, and nothing was touched.
pub open spec fn transaction(
    before: Option<StateView>,
    edit: spec_fn(StateView) -> Result<StateView, DbError>,
    after: Option<StateView>,
    failure: Option<DbError>,
) -> bool {
    match failure {
        None => before matches Some(state) && edit(state) == Ok::<StateView, DbError>(after->0)
            && after is Some,
        Some(DbError::ReadError) => before is None && after is None,
        Some(DbError::WriteError) => before matches Some(state) && edit(state) is Ok,
        Some(error) => before matches Some(state) && edit(state) == Err::<StateView, DbError>(
            error,
        ) && after == before,
    }
}

/// Whether what a store holds, if anything, is well formed.
pub open spec fn well_kept(stored: Option<StateView>) -> bool {
    stored matches Some(state) ==> state.wf()
}

/// The repository of epics and stories over one store.
pub struct JiraDatabase<D: Database> {
    database: D,
}

impl<D: Database> JiraDatabase<D> {
    /// The state that the store under the repository holds.
    pub closed spec fn stored(&self) -> Option<StateView> {
        self.database.stored()
    }

    /// A repository over `database`.
    pub fn new(database: D) -> (repository: JiraDatabase<D>)
        ensures
            repository.stored() == database.stored(),
    {
        JiraDatabase { database }
    }

    /// Reads the whole state and changes nothing.
    pub fn read_db(&self) -> (result: Result<DataBaseState, DbError>)
        ensures
            read_of(self.stored(), result),
    {
        self.database.read_db()
    }

    /// Stores `epic` under the next identifier and returns that identifier.
    pub fn create_epic(&mut self, epic: Epic) -> (result: Result<u32, DbError>)
        requires
            old(self).stored() matches Some(state) ==> state.last_item_id < u32::MAX,
        ensures
            transaction(
                old(self).stored(),
                |state: StateView| Ok::<StateView, DbError>(state.create_epic(epic@)),
                final(self).stored(),
                failure(result),
            ),
            result matches Ok(new_id) ==> new_id == old(self).stored()->0.last_item_id + 1,
            well_kept(old(self).stored()) && epic@.stories.len() == 0 && result != Err::<
                u32,
                DbError,
            >(DbError::WriteError) ==> well_kept(final(self).stored()),
    {
        let mut state = match self.database.read_db() {
            Ok(state) => state,
            Err(error) => {
                return Err(error);
            },
        };
        let new_id = state.create_epic(epic);
        match self.database.write_db(&state) {
            Ok(()) => Ok(new_id),
            Err(error) => Err(error),
        }
    }

    /// Stores `story` under the next identifier, lists it last in the epic
    /// `epic_id`, and returns the identifier. Where there is no such epic,
    /// nothing is written.
    pub fn create_story(&mut self, story: Story, epic_id: u32) -> (result: Result<u32, DbError>)
        requires
            old(self).stored() matches Some(state) ==> (state.epics.contains_key(epic_id)
                ==> state.last_item_id < u32::MAX),
        ensures
            transaction(
                old(self).stored(),
                |state: StateView| state.create_story(story@, epic_id),
                final(self).stored(),
                failure(result),
            ),
            result matches Ok(new_id) ==> new_id == old(self).stored()->0.last_item_id + 1,
            well_kept(old(self).stored()) && result != Err::<u32, DbError>(DbError::WriteError)
                ==> well_kept(final(self).stored()),
    {
        let mut state = match self.database.read_db() {
            Ok(state) => state,
            Err(error) => {
                return Err(error);
            },
        };
        let new_id = match state.create_story(story, epic_id) {
            Ok(new_id) => new_id,
            Err(error) => {
                return Err(error);
            },
        };
        match self.database.write_db(&state) {
            Ok(()) => Ok(new_id),
            Err(error) => Err(error),
        }
    }

    /// Gives the epic `epic_id` another status.
    pub fn update_epic_status(&mut self, epic_id: u32, status: Status) -> (result: Result<
        (),
        DbError,
    >)
        ensures
            transaction(
                old(self).stored(),
                |state: StateView| state.update_epic_status(epic_id, status),
                final(self).stored(),
                failure(result),
            ),
            well_kept(old(self).stored()) && result != Err::<(), DbError>(DbError::WriteError)
                ==> well_kept(final(self).stored()),
    {
        let mut state = match self.database.read_db() {
            Ok(state) => state,
            Err(error) => {
                return Err(error);
            },
        };
        match state.update_epic_status(epic_id, status) {
            Ok(()) => {},
            Err(error) => {
                return Err(error);
            },
        };
        self.database.write_db(&state)
    }

    /// Gives the story `story_id` another status.
    pub fn update_story_status(&mut self, story_id: u32, status: Status) -> (result: Result<
        (),
        DbError,
    >)
        ensures
            transaction(
                old(self).stored(),
                |state: StateView| state.update_story_status(story_id, status),
                final(self).stored(),
                failure(result),
            ),
            well_kept(old(self).stored()) && result != Err::<(), DbError>(DbError::WriteError)
                ==> well_kept(final(self).stored()),
    {
        let mut state = match self.database.read_db() {
            Ok(state) => state,
            Err(error) => {
                return Err(error);
            },
        };
        match state.update_story_status(story_id, status) {
            Ok(()) => {},
            Err(error) => {
                return Err(error);
            },
        };
        self.database.write_db(&state)
    }

    /// Removes the epic `epic_id` and every story that it lists.
    pub fn delete_epic(&mut self, epic_id: u32) -> (result: Result<(), DbError>)
        ensures
            transaction(
                old(self).stored(),
                |state: StateView| state.delete_epic(epic_id),
                final(self).stored(),
                failure(result),
            ),
            well_kept(old(self).stored()) && result != Err::<(), DbError>(DbError::WriteError)
                ==> well_kept(final(self).stored()),
    {
        let mut state = match self.database.read_db() {
            Ok(state) => state,
            Err(error) => {
                return Err(error);
            },
        };
        match state.delete_epic(epic_id) {
            Ok(()) => {},
            Err(error) => {
                return Err(error);
            },
        };
        self.database.write_db(&state)
    }

    /// Removes the story `story_id` from the table and from the list of the
    /// epic `epic_id`.
    pub fn delete_story(&mut self, epic_id: u32, story_id: u32) -> (result: Result<(), DbError>)
        ensures
            transaction(
                old(self).stored(),
                |state: StateView| state.delete_story(epic_id, story_id),
                final(self).stored(),
                failure(result),
            ),
            well_kept(old(self).stored()) && result != Err::<(), DbError>(DbError::WriteError)
                ==> well_kept(final(self).stored()),
    {
        let mut state = match self.database.read_db() {
            Ok(state) => state,
            Err(error) => {
                return Err(error);
            },
        };
        match state.delete_story(epic_id, story_id) {
            Ok(()) => {},
            Err(error) => {
                return Err(error);
            },
        };
        self.database.write_db(&state)
    }
}

} // verus!


//! A store in memory, for trying the repository without a file.

use crate::data_base::{Database, DbError};
use crate::models::{DataBaseState, StateView};
use vstd::prelude::*;

verus! {

/// A store that keeps the state that was written last. It can be made to
/// hold nothing that can be read, and to refuse every write.
pub struct MockDatabase {
    last_written_state: Option<DataBaseState>,
    refuses_writes: bool,
}

impl MockDatabase {
    /// Whether the store refuses every write.
    pub closed spec fn read_only(&self) -> bool {
        self.refuses_writes
    }

    /// A store that holds the empty state and takes writes.
    pub fn new() -> (store: MockDatabase)
        ensures
            store.stored() == Some(StateView::empty()),
            !store.read_only(),
    {
        MockDatabase { last_written_state: Some(DataBaseState::new()), refuses_writes: false }
    }

    /// A store that holds `state` and takes writes.
    pub fn holding(state: DataBaseState) -> (store: MockDatabase)
        ensures
            store.stored() == Some(state@),
            !store.read_only(),
    {
        MockDatabase { last_written_state: Some(state), refuses_writes: false }
    }

    /// A store that holds nothing that can be read, as a file does that is
    /// missing or broken. It takes writes.
    pub fn unreadable() -> (store: MockDatabase)
        ensures
            store.stored() is None,
            !store.read_only(),
    {
        MockDatabase { last_written_state: None, refuses_writes: false }
    }

    /// A store that holds `state` and refuses every write.
    pub fn write_protected(state: DataBaseState) -> (store: MockDatabase)
        ensures
            store.stored() == Some(state@),
            store.read_only(),
    {
        MockDatabase { last_written_state: Some(state), refuses_writes: true }
    }
}

impl Database for MockDatabase {
    closed spec fn stored(&self) -> Option<StateView> {
        match self.last_written_state {
            Some(state) => Some(state@),
            None => None,
        }
    }

    /// Hands out a copy of the state that is held, and fails only where
    /// none is held.
    fn read_db(&self) -> (result: Result<DataBaseState, DbError>)
        ensures
            result is Ok <==> self.stored() is Some,
    {
        match &self.last_written_state {
            Some(state) => Ok(state.clone()),
            None => Err(DbError::ReadError),
        }
    }

    /// Keeps a copy of `state`, unless the store refuses writes; then it
    /// keeps what it held.
    fn write_db(&mut self, state: &DataBaseState) -> (result: Result<(), DbError>)
        ensures
            result is Ok <==> !old(self).read_only(),
            final(self).read_only() == old(self).read_only(),
            result is Err ==> final(self).stored() == old(self).stored(),
    {
        if self.refuses_writes {
            Err(DbError::WriteError)
        } else {
            self.last_written_state = Some(state.clone());
            Ok(())
        }
    }
}

} // verus!

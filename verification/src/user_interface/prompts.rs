//! The questions that the navigator puts to the user before it edits.

use crate::models::{Epic, Status, Story};
use vstd::prelude::*;

verus! {

/// Something that can be asked for a `T`. Nothing is known of the answer:
/// it is the user's.
pub trait Prompt<T> {
    fn ask(&self) -> T;
}

/// A prompt that gives the same answer every time it is asked.
pub struct Always<T>(pub T);

impl<T: Clone> Prompt<T> for Always<T> {
    /// A copy of the answer that the prompt was made with.
    fn ask(&self) -> (answer: T)
        ensures
            cloned(self.0, answer),
    {
        self.0.clone()
    }
}

/// The five questions of the navigator.
pub struct Prompts {
    /// The fields of a new epic.
    pub create_epic: Box<dyn Prompt<Epic>>,
    /// The fields of a new story.
    pub create_story: Box<dyn Prompt<Story>>,
    /// Whether an epic shall really be deleted.
    pub delete_epic: Box<dyn Prompt<bool>>,
    /// Whether a story shall really be deleted.
    pub delete_story: Box<dyn Prompt<bool>>,
    /// The new status, or nothing where the user gave none.
    pub update_status: Box<dyn Prompt<Option<Status>>>,
}

} // verus!

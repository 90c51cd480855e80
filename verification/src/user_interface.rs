//! What the user sees and answers: pages and prompts.

pub mod input;
pub mod listing;
pub mod pages;
pub mod prompts;

pub use pages::{AnyPage, EpicDetail, HomePage, Page, PageKind, Row, Screen, StoryDetail};
pub use prompts::{Always, Prompt, Prompts};

//! The quest log.
use super::WindowClass;
use vstd::prelude::*;

verus! {

/// A window with the quests that the path points to.
pub struct QuestWindow<P> {
    pub quests_path: P,
}

impl<P> QuestWindow<P> {
    pub fn new(quests_path: P) -> (window: Self)
        ensures
            window.quests_path == quests_path,
    {
        Self { quests_path }
    }

    pub fn window_class() -> (class: Option<WindowClass>)
        ensures
            class == Some(WindowClass::Quest),
    {
        Some(WindowClass::Quest)
    }

    /// The status line of a quest.
    pub fn status_text(active: bool) -> (text: String)
        ensures
            text@ == (if active {
                "Active"@
            } else {
                "Inactive"@
            }),
    {
        if active {
            String::from_str("Active")
        } else {
            String::from_str("Inactive")
        }
    }
}

} // verus!

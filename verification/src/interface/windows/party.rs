//! The party window: one entry per party member.
use super::WindowClass;
use crate::text::{push_signed_decimal, signed_decimal};
use vstd::prelude::*;

verus! {

/// A window with the party members that the path points to.
pub struct PartyWindow<P> {
    pub members_path: P,
}

impl<P> PartyWindow<P> {
    pub fn new(members_path: P) -> (window: Self)
        ensures
            window.members_path == members_path,
    {
        Self { members_path }
    }

    pub fn window_class() -> (class: Option<WindowClass>)
        ensures
            class == Some(WindowClass::Party),
    {
        Some(WindowClass::Party)
    }

    /// The level line of a member.
    pub fn level_text(level: i16) -> (text: String)
        ensures
            text@ == "Level: "@ + signed_decimal(level as int),
    {
        let mut text = String::from_str("Level: ");
        push_signed_decimal(&mut text, level as i64);
        text
    }

    /// The job line of a member.
    pub fn job_text(job: i16) -> (text: String)
        ensures
            text@ == "Job: "@ + signed_decimal(job as int),
    {
        let mut text = String::from_str("Job: ");
        push_signed_decimal(&mut text, job as i64);
        text
    }
}

} // verus!

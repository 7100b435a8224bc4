//! The floating tooltip for entities and items.
use super::WindowClass;
use crate::text::{decimal, join_strings, joined, push_decimal, string_views};
use vstd::prelude::*;

verus! {

/// A floating window with a title and lines of details.
pub struct TooltipWindow {
    pub title: String,
    pub lines: Vec<String>,
}

/// The line that names the type of an entity or item.
pub open spec fn type_line(kind_name: Seq<char>) -> Seq<char> {
    "Type: "@ + kind_name
}

fn type_line_string(kind_name: &str) -> (line: String)
    ensures
        line@ == type_line(kind_name@),
{
    String::from_str("Type: ").concat(kind_name)
}

impl TooltipWindow {
    pub fn new(title: String, lines: Vec<String>) -> (window: Self)
        ensures
            window.title == title,
            window.lines == lines,
    {
        Self { title, lines }
    }

    pub fn window_class() -> (class: Option<WindowClass>)
        ensures
            class == Some(WindowClass::Tooltip),
    {
        Some(WindowClass::Tooltip)
    }

    /// The text of the window: the lines, one per line.
    pub fn description(&self) -> (text: String)
        ensures
            text@ == joined(string_views(self.lines@), "\n"@),
    {
        join_strings(&self.lines, "\n")
    }

    /// The tooltip of an entity: its type, then its level where it has one.
    pub fn entity_tooltip(name: String, entity_type: &str, level: Option<usize>) -> (window: Self)
        ensures
            window.title == name,
            window.lines@.len() == (if level is Some {
                2int
            } else {
                1int
            }),
            window.lines@[0]@ == type_line(entity_type@),
            level matches Some(l) ==> window.lines@[1]@ == "Level: "@ + decimal(l as nat),
    {
        let mut lines = Vec::new();
        lines.push(type_line_string(entity_type));
        if let Some(lvl) = level {
            let mut line = String::from_str("Level: ");
            push_decimal(&mut line, lvl as u64);
            lines.push(line);
        }
        Self { title: name, lines }
    }

    /// The tooltip of an item: its type, then its description where it has
    /// one.
    pub fn item_tooltip(name: String, item_type: &str, description: Option<String>) -> (window: Self)
        ensures
            window.title == name,
            window.lines@.len() == (if description is Some {
                2int
            } else {
                1int
            }),
            window.lines@[0]@ == type_line(item_type@),
            description matches Some(d) ==> window.lines@[1] == d,
    {
        let mut lines = Vec::new();
        lines.push(type_line_string(item_type));
        if let Some(desc) = description {
            lines.push(desc);
        }
        Self { title: name, lines }
    }
}

} // verus!

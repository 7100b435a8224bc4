//! The window in which a pet egg is picked to hatch.
use super::WindowClass;
use crate::text::{decimal, join_strings, joined, push_decimal, string_views};
use vstd::prelude::*;

verus! {

/// The label of the egg at inventory index `index`.
pub open spec fn egg_label(index: u16) -> Seq<char> {
    "Egg #"@ + decimal(index as nat)
}

/// The description of the eggs at the inventory indices `eggs`.
pub open spec fn eggs_description(eggs: Seq<u16>) -> Seq<char> {
    if eggs.len() == 0 {
        "No pet eggs found."@
    } else {
        "Available eggs: "@ + joined(eggs.map_values(|index: u16| egg_label(index)), ", "@)
    }
}

/// A window that lists the pet eggs at the inventory indices `eggs`.
pub struct PetEggSelectWindow {
    pub eggs: Vec<u16>,
}

impl PetEggSelectWindow {
    pub fn new(eggs: Vec<u16>) -> (window: Self)
        ensures
            window.eggs == eggs,
    {
        Self { eggs }
    }

    pub fn window_class() -> (class: Option<WindowClass>)
        ensures
            class == Some(WindowClass::PetEggSelect),
    {
        Some(WindowClass::PetEggSelect)
    }

    /// The text that lists the eggs.
    pub fn description(&self) -> (text: String)
        ensures
            text@ == eggs_description(self.eggs@),
    {
        if self.eggs.len() == 0 {
            return String::from_str("No pet eggs found.");
        }
        let mut labels: Vec<String> = Vec::new();
        let ghost all = self.eggs@.map_values(|index: u16| egg_label(index));
        let mut i: usize = 0;
        while i < self.eggs.len()
            invariant
                i <= self.eggs@.len(),
                all == self.eggs@.map_values(|index: u16| egg_label(index)),
                string_views(labels@) == all.take(i as int),
            decreases self.eggs@.len() - i,
        {
            let mut label = String::from_str("Egg #");
            push_decimal(&mut label, self.eggs[i] as u64);
            let ghost previous = string_views(labels@);
            labels.push(label);
            assert(all[i as int] == egg_label(self.eggs@[i as int]));
            assert(string_views(labels@) =~= previous.push(all[i as int]));
            assert(string_views(labels@) =~= all.take(i + 1));
            i += 1;
        }
        assert(all.take(self.eggs@.len() as int) =~= all);
        let list = join_strings(&labels, ", ");
        String::from_str("Available eggs: ").concat(list.as_str())
    }

    /// The egg that the hatch button hatches: the first listed, or index 0
    /// where none is.
    pub fn first_egg(&self) -> (egg: u16)
        ensures
            egg == (if self.eggs@.len() > 0 {
                self.eggs@[0]
            } else {
                0u16
            }),
    {
        if self.eggs.len() > 0 {
            self.eggs[0]
        } else {
            0
        }
    }

    /// The label of the hatch button.
    pub fn hatch_label(&self) -> (label: String)
        ensures
            label@ == "Hatch Egg #"@ + decimal(
                (if self.eggs@.len() > 0 {
                    self.eggs@[0]
                } else {
                    0u16
                }) as nat,
            ),
    {
        let mut label = String::from_str("Hatch Egg #");
        push_decimal(&mut label, self.first_egg() as u64);
        label
    }
}

} // verus!

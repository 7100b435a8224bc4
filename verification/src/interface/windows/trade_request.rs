//! The window that asks whether to accept a trade request.
use super::WindowClass;
use crate::text::{decimal, push_decimal};
use vstd::prelude::*;

verus! {

/// A trade request from `requester_name` (account `account_id`, base level
/// `base_level`).
pub struct TradeRequestWindow {
    pub requester_name: String,
    pub account_id: u32,
    pub base_level: u16,
}

impl TradeRequestWindow {
    pub fn new(requester_name: String, account_id: u32, base_level: u16) -> (window: Self)
        ensures
            window.requester_name == requester_name,
            window.account_id == account_id,
            window.base_level == base_level,
    {
        Self { requester_name, account_id, base_level }
    }

    pub fn window_class() -> (class: Option<WindowClass>)
        ensures
            class == Some(WindowClass::TradeRequest),
    {
        Some(WindowClass::TradeRequest)
    }

    /// The question that the window asks.
    pub fn prompt(&self) -> (text: String)
        ensures
            text@ == self.requester_name@ + " (Lv."@ + decimal(self.base_level as nat)
                + ") wants to trade with you."@,
    {
        let mut text = self.requester_name.clone();
        text.append(" (Lv.");
        push_decimal(&mut text, self.base_level as u64);
        text.append(") wants to trade with you.");
        text
    }
}

} // verus!

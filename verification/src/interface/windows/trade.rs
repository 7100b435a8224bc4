//! The trade window: what each side offers.
use super::WindowClass;
use crate::text::{
    contains_pattern, contains_str, decimal, push_decimal, starts_with, starts_with_str,
    string_views,
};
use vstd::prelude::*;

verus! {

/// An item that one side of a trade offers.
#[derive(Debug, Clone)]
pub struct TradeItem {
    pub name: String,
    pub amount: u32,
    pub refinement_level: u8,
    pub identified: bool,
}

/// What both sides of a trade offer, and whether they locked their offer.
#[derive(Debug, Clone)]
pub struct TradeState {
    pub player_items: Vec<TradeItem>,
    pub player_zeny: u32,
    pub player_locked: bool,
    pub partner_items: Vec<TradeItem>,
    pub partner_zeny: u32,
    pub partner_locked: bool,
}

/// The line of an offered item: its refinement, name and amount, and a
/// mark where it is unidentified.
pub open spec fn trade_item_line(item: TradeItem) -> Seq<char> {
    "  "@ + (if item.refinement_level > 0 {
        "+"@ + decimal(item.refinement_level as nat) + " "@
    } else {
        ""@
    }) + item.name@ + " x"@ + decimal(item.amount as nat) + (if !item.identified {
        " (unid)"@
    } else {
        ""@
    })
}

/// The lines of one side's offer: a heading (marked where locked), then
/// the items and the zeny, or "(none)" where it offers nothing.
pub open spec fn offer_lines(title: Seq<char>, items: Seq<TradeItem>, zeny: u32, locked: bool) -> Seq<
    Seq<char>,
> {
    seq![
        "--- "@ + title + (if locked {
            " [LOCKED]"@
        } else {
            ""@
        }) + " ---"@,
    ] + if items.len() == 0 && zeny == 0 {
        seq!["  (none)"@]
    } else {
        items.map_values(|item: TradeItem| trade_item_line(item)) + if zeny > 0 {
            seq!["  Zeny: "@ + decimal(zeny as nat)]
        } else {
            Seq::<Seq<char>>::empty()
        }
    }
}

/// The lines of the trade window: the player's offer, then the partner's.
pub open spec fn trade_lines(state: TradeState) -> Seq<Seq<char>> {
    offer_lines("Your Items"@, state.player_items@, state.player_zeny, state.player_locked)
        + offer_lines(
        "Partner Items"@,
        state.partner_items@,
        state.partner_zeny,
        state.partner_locked,
    )
}

fn item_line(item: &TradeItem) -> (line: String)
    ensures
        line@ == trade_item_line(*item),
{
    proof {
        reveal_strlit("");
    }
    let mut line = String::from_str("  ");
    if item.refinement_level > 0 {
        line.append("+");
        push_decimal(&mut line, item.refinement_level as u64);
        line.append(" ");
    }
    line.append(item.name.as_str());
    line.append(" x");
    push_decimal(&mut line, item.amount as u64);
    if !item.identified {
        line.append(" (unid)");
    }
    assert(line@ =~= trade_item_line(*item));
    line
}

fn push_offer_lines(
    lines: &mut Vec<String>,
    title: &str,
    items: &Vec<TradeItem>,
    zeny: u32,
    locked: bool,
)
    ensures
        string_views(final(lines)@) == string_views(old(lines)@) + offer_lines(
            title@,
            items@,
            zeny,
            locked,
        ),
{
    proof {
        reveal_strlit("");
    }
    let mut heading = String::from_str("--- ");
    heading.append(title);
    if locked {
        heading.append(" [LOCKED]");
    }
    heading.append(" ---");
    let ghost start = string_views(lines@);
    lines.push(heading);
    let ghost head = seq![
        "--- "@ + title@ + (if locked {
            " [LOCKED]"@
        } else {
            ""@
        }) + " ---"@,
    ];
    assert(string_views(lines@) =~= start + head);
    if items.len() == 0 && zeny == 0 {
        lines.push(String::from_str("  (none)"));
        assert(string_views(lines@) =~= start + offer_lines(title@, items@, zeny, locked));
        return ;
    }
    let ghost item_lines = items@.map_values(|item: TradeItem| trade_item_line(item));
    let mut i: usize = 0;
    while i < items.len()
        invariant
            i <= items@.len(),
            item_lines == items@.map_values(|item: TradeItem| trade_item_line(item)),
            string_views(lines@) == start + head + item_lines.take(i as int),
        decreases items@.len() - i,
    {
        let line = item_line(&items[i]);
        let ghost previous = string_views(lines@);
        lines.push(line);
        assert(item_lines[i as int] == trade_item_line(items@[i as int]));
        assert(string_views(lines@) =~= previous.push(item_lines[i as int]));
        assert(item_lines.take(i + 1) =~= item_lines.take(i as int).push(item_lines[i as int]));
        assert(string_views(lines@) =~= start + head + item_lines.take(i + 1));
        i += 1;
    }
    assert(item_lines.take(items@.len() as int) =~= item_lines);
    if zeny > 0 {
        let mut line = String::from_str("  Zeny: ");
        push_decimal(&mut line, zeny as u64);
        let ghost previous = string_views(lines@);
        lines.push(line);
        assert(string_views(lines@) =~= previous.push("  Zeny: "@ + decimal(zeny as nat)));
    }
    assert(string_views(lines@) =~= start + offer_lines(title@, items@, zeny, locked));
}

/// The element that lists the offers of a trade.
pub struct TradeItemsElement;

impl TradeItemsElement {
    /// The lines that list the offers of `trade_state`.
    pub fn build_lines(trade_state: &TradeState) -> (lines: Vec<String>)
        ensures
            string_views(lines@) == trade_lines(*trade_state),
    {
        let mut lines: Vec<String> = Vec::new();
        assert(string_views(lines@) =~= Seq::<Seq<char>>::empty());
        push_offer_lines(
            &mut lines,
            "Your Items",
            &trade_state.player_items,
            trade_state.player_zeny,
            trade_state.player_locked,
        );
        push_offer_lines(
            &mut lines,
            "Partner Items",
            &trade_state.partner_items,
            trade_state.partner_zeny,
            trade_state.partner_locked,
        );
        assert(string_views(lines@) =~= trade_lines(*trade_state));
        lines
    }

    /// The gray level or color of a listed line: headings are orange,
    /// item lines brighter than the rest.
    pub fn line_color(line: &str) -> (color: (u8, u8, u8))
        ensures
            color == (if starts_with(line@, "--- "@) {
                (255u8, 200u8, 100u8)
            } else if starts_with(line@, "  +"@) || contains_pattern(line@, " x"@) {
                (240u8, 240u8, 240u8)
            } else {
                (200u8, 200u8, 200u8)
            }),
    {
        if starts_with_str(line, "--- ") {
            (255, 200, 100)
        } else if starts_with_str(line, "  +") || contains_str(line, " x") {
            (240, 240, 240)
        } else {
            (200, 200, 200)
        }
    }
}

/// The window of a trade in progress.
pub struct TradeWindow;

impl TradeWindow {
    pub fn window_class() -> (class: Option<WindowClass>)
        ensures
            class == Some(WindowClass::Trade),
    {
        Some(WindowClass::Trade)
    }
}

} // verus!

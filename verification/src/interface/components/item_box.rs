//! The item slot of the inventory, equipment and storage windows: its
//! amount label, its tooltip, and what clicks and drops on it do.
use crate::interface::resource::ItemSource;
use crate::networking::items::{has_slot, EquipPosition, InventoryItem, InventoryItemDetails};
use crate::text::{decimal, join_strings, joined, push_decimal, string_views};
use vstd::prelude::*;

verus! {

/// The amount label of a stackable item; the text is made again only when
/// the amount changes.
pub struct AmountDisplay {
    amount: u16,
    string: Option<String>,
}

impl View for AmountDisplay {
    type V = Option<Seq<char>>;

    closed spec fn view(&self) -> Option<Seq<char>> {
        match self.string {
            Some(s) => Some(s@),
            None => None,
        }
    }
}

impl AmountDisplay {
    /// The amount whose label is shown.
    pub closed spec fn shown_amount(&self) -> u16 {
        self.amount
    }

    /// The label is the amount in decimal.
    pub closed spec fn wf(&self) -> bool {
        self.string matches Some(s) ==> s@ == decimal(self.amount as nat)
    }
}

impl Default for AmountDisplay {
    /// A display with no label yet.
    fn default() -> (display: Self)
        ensures
            display.wf(),
            display@ is None,
    {
        AmountDisplay { amount: 0, string: None }
    }
}

impl AmountDisplay {
    /// Shows `new_amount`.
    pub fn update(&mut self, new_amount: u16)
        requires
            old(self).wf(),
        ensures
            final(self).wf(),
            final(self).shown_amount() == new_amount,
            final(self)@ == Some(decimal(new_amount as nat)),
    {
        if self.string.is_none() || self.amount != new_amount {
            let mut text = String::new();
            push_decimal(&mut text, new_amount as u64);
            self.string = Some(text);
            self.amount = new_amount;
        }
    }

    /// The label, once an amount was shown.
    pub fn text(&self) -> (text: Option<&String>)
        ensures
            match text {
                Some(t) => self@ == Some(t@),
                None => self@ is None,
            },
    {
        self.string.as_ref()
    }
}

/// The name of the item type `item_type` in the tooltip.
pub open spec fn item_type_name(item_type: u8) -> Seq<char> {
    if item_type == 0 {
        "Healing"@
    } else if item_type == 2 {
        "Usable"@
    } else if item_type == 3 {
        "Etc"@
    } else if item_type == 4 {
        "Weapon"@
    } else if item_type == 5 {
        "Armor"@
    } else if item_type == 6 {
        "Card"@
    } else if item_type == 7 {
        "Pet Egg"@
    } else if item_type == 8 {
        "Pet Armor"@
    } else if item_type == 10 {
        "Ammo"@
    } else if item_type == 11 {
        "Delay Usable"@
    } else if item_type == 12 {
        "Shadow Equip"@
    } else if item_type == 18 {
        "Cash Usable"@
    } else {
        "Item"@
    }
}

fn item_type_str(item_type: u8) -> (name: &'static str)
    ensures
        name@ == item_type_name(item_type),
{
    if item_type == 0 {
        "Healing"
    } else if item_type == 2 {
        "Usable"
    } else if item_type == 3 {
        "Etc"
    } else if item_type == 4 {
        "Weapon"
    } else if item_type == 5 {
        "Armor"
    } else if item_type == 6 {
        "Card"
    } else if item_type == 7 {
        "Pet Egg"
    } else if item_type == 8 {
        "Pet Armor"
    } else if item_type == 10 {
        "Ammo"
    } else if item_type == 11 {
        "Delay Usable"
    } else if item_type == 12 {
        "Shadow Equip"
    } else if item_type == 18 {
        "Cash Usable"
    } else {
        "Item"
    }
}

/// `names` with `name` added where `condition` holds.
pub open spec fn push_if(names: Seq<Seq<char>>, condition: bool, name: Seq<char>) -> Seq<Seq<char>> {
    if condition {
        names.push(name)
    } else {
        names
    }
}

/// The names of the slots that the equip position `position` covers, in
/// the tooltip's order; both accessory bits give one "Accessory".
pub open spec fn equip_slot_names(position: u32) -> Seq<Seq<char>> {
    let n0 = Seq::<Seq<char>>::empty();
    let n1 = push_if(n0, has_slot(position, EquipPosition::RIGHT_HAND), "Weapon"@);
    let n2 = push_if(n1, has_slot(position, EquipPosition::LEFT_HAND), "Shield"@);
    let n3 = push_if(n2, has_slot(position, EquipPosition::ARMOR), "Armor"@);
    let n4 = push_if(n3, has_slot(position, EquipPosition::GARMENT), "Garment"@);
    let n5 = push_if(n4, has_slot(position, EquipPosition::SHOES), "Shoes"@);
    let n6 = push_if(n5, has_slot(position, EquipPosition::HEAD_TOP), "Head Top"@);
    let n7 = push_if(n6, has_slot(position, EquipPosition::HEAD_MIDDLE), "Head Mid"@);
    let n8 = push_if(n7, has_slot(position, EquipPosition::HEAD_LOWER), "Head Low"@);
    let n9 = push_if(
        n8,
        has_slot(position, EquipPosition::LEFT_ACCESSORY) || has_slot(
            position,
            EquipPosition::RIGHT_ACCESSORY,
        ),
        "Accessory"@,
    );
    push_if(n9, has_slot(position, EquipPosition::AMMO), "Ammo"@)
}

/// Adding `name` where `condition` holds lists a name exactly where it was
/// listed or is `name` with the condition met.
proof fn lemma_push_if_contains(names: Seq<Seq<char>>, condition: bool, name: Seq<char>, x: Seq<char>)
    ensures
        push_if(names, condition, name).contains(x) <==> (names.contains(x) || (condition && x == name)),
{
    if condition {
        if names.push(name).contains(x) {
            let i = choose|i: int| 0 <= i < names.push(name).len() && names.push(name)[i] == x;
            if i < names.len() {
                assert(names[i] == x);
            }
        }
        if names.contains(x) {
            let i = choose|i: int| 0 <= i < names.len() && names[i] == x;
            assert(names.push(name)[i] == x);
        }
        if x == name {
            assert(names.push(name)[names.len() as int] == x);
        }
    }
}

/// The names of the first `n` of `names` whose condition in `conditions`
/// holds, in order.
spec fn listed(names: Seq<Seq<char>>, conditions: Seq<bool>, n: int) -> Seq<Seq<char>>
    decreases n,
{
    if n <= 0 {
        Seq::empty()
    } else {
        push_if(listed(names, conditions, n - 1), conditions[n - 1], names[n - 1])
    }
}

/// Where the names differ, a name is listed exactly where its condition
/// holds.
proof fn lemma_listed_contains(names: Seq<Seq<char>>, conditions: Seq<bool>, n: int, k: int)
    requires
        0 <= n <= names.len(),
        0 <= k < names.len(),
        forall|a: int, b: int| 0 <= a < b < names.len() ==> names[a] != names[b],
    ensures
        listed(names, conditions, n).contains(names[k]) <==> (k < n && conditions[k]),
    decreases n,
{
    if n > 0 {
        lemma_listed_contains(names, conditions, n - 1, k);
        lemma_push_if_contains(listed(names, conditions, n - 1), conditions[n - 1], names[n - 1], names[k]);
        if k != n - 1 {
            assert(names[k] != names[n - 1]);
        }
    }
}

/// Where the names differ, no name is listed twice.
proof fn lemma_listed_no_duplicates(names: Seq<Seq<char>>, conditions: Seq<bool>, n: int)
    requires
        0 <= n <= names.len(),
        forall|a: int, b: int| 0 <= a < b < names.len() ==> names[a] != names[b],
    ensures
        listed(names, conditions, n).no_duplicates(),
    decreases n,
{
    if n > 0 {
        lemma_listed_no_duplicates(names, conditions, n - 1);
        lemma_listed_contains(names, conditions, n - 1, n - 1);
        let before = listed(names, conditions, n - 1);
        if conditions[n - 1] {
            let after = before.push(names[n - 1]);
            assert forall|i: int, j: int| 0 <= i < after.len() && 0 <= j < after.len() && i != j implies after[i]
                != after[j] by {
                if i < before.len() && j < before.len() {
                } else if i < before.len() {
                    assert(before.contains(after[i]));
                } else {
                    assert(before.contains(after[j]));
                }
            }
        }
    }
}

/// The slot names, in the tooltip's order.
spec fn slot_name_table() -> Seq<Seq<char>> {
    seq!["Weapon"@, "Shield"@, "Armor"@, "Garment"@, "Shoes"@, "Head Top"@, "Head Mid"@, "Head Low"@, "Accessory"@, "Ammo"@]
}

/// The slot names differ from one another.
#[verifier::rlimit(50)]
proof fn lemma_slot_names_distinct()
    ensures
        forall|a: int, b: int| 0 <= a < b < slot_name_table().len() ==> slot_name_table()[a] != slot_name_table()[b],
{
    reveal_strlit("Weapon");
    reveal_strlit("Shield");
    reveal_strlit("Armor");
    reveal_strlit("Garment");
    reveal_strlit("Shoes");
    reveal_strlit("Head Top");
    reveal_strlit("Head Mid");
    reveal_strlit("Head Low");
    reveal_strlit("Accessory");
    reveal_strlit("Ammo");
    let t = slot_name_table();
    assert(t.len() == 10);
    assert forall|a: int, b: int| 0 <= a < b < t.len() implies t[a] != t[b] by {
        if t[a] == t[b] {
            assert(t[a].len() == t[b].len());
            assert(t[a][0] == t[b][0]);
            if t[a].len() == 8 {
                assert(t[a][5] == t[b][5]);
            }
        }
    }
}

/// Whether the equip position `position` has each slot of the table, in
/// the table's order.
spec fn slot_conditions(position: u32) -> Seq<bool> {
    seq![
        has_slot(position, EquipPosition::RIGHT_HAND),
        has_slot(position, EquipPosition::LEFT_HAND),
        has_slot(position, EquipPosition::ARMOR),
        has_slot(position, EquipPosition::GARMENT),
        has_slot(position, EquipPosition::SHOES),
        has_slot(position, EquipPosition::HEAD_TOP),
        has_slot(position, EquipPosition::HEAD_MIDDLE),
        has_slot(position, EquipPosition::HEAD_LOWER),
        has_slot(position, EquipPosition::LEFT_ACCESSORY) || has_slot(position, EquipPosition::RIGHT_ACCESSORY),
        has_slot(position, EquipPosition::AMMO),
    ]
}

proof fn lemma_slot_names_listed(position: u32)
    ensures
        listed(slot_name_table(), slot_conditions(position), 10) == equip_slot_names(position),
{
    reveal_with_fuel(listed, 11);
}

/// No slot name is listed twice.
proof fn lemma_slot_names_once(position: u32)
    ensures
        equip_slot_names(position).no_duplicates(),
{
    lemma_slot_names_distinct();
    lemma_slot_names_listed(position);
    lemma_listed_no_duplicates(slot_name_table(), slot_conditions(position), 10);
}

/// A slot of the table is listed exactly where the position has it.
proof fn lemma_slot_listed_iff(position: u32, k: int)
    requires
        0 <= k < 10,
    ensures
        equip_slot_names(position).contains(slot_name_table()[k]) <==> slot_conditions(position)[k],
{
    lemma_slot_names_distinct();
    lemma_slot_names_listed(position);
    lemma_listed_contains(slot_name_table(), slot_conditions(position), 10, k);
}

/// The tooltip lists each slot's name exactly where the equip position has
/// that slot's bit: "Weapon" for the right hand, "Shield" for the left
/// hand, "Armor" for the body, "Garment", "Shoes", "Head Top", "Head Mid"
/// and "Head Low" for their slots, "Accessory" for either accessory, and
/// "Ammo" for ammunition; no name is listed twice.
#[verifier::rlimit(30)]
pub proof fn law_slot_names_follow_bits(position: u32)
    ensures
        equip_slot_names(position).contains("Weapon"@) <==> has_slot(position, EquipPosition::RIGHT_HAND),
        equip_slot_names(position).contains("Shield"@) <==> has_slot(position, EquipPosition::LEFT_HAND),
        equip_slot_names(position).contains("Armor"@) <==> has_slot(position, EquipPosition::ARMOR),
        equip_slot_names(position).contains("Garment"@) <==> has_slot(position, EquipPosition::GARMENT),
        equip_slot_names(position).contains("Shoes"@) <==> has_slot(position, EquipPosition::SHOES),
        equip_slot_names(position).contains("Head Top"@) <==> has_slot(position, EquipPosition::HEAD_TOP),
        equip_slot_names(position).contains("Head Mid"@) <==> has_slot(position, EquipPosition::HEAD_MIDDLE),
        equip_slot_names(position).contains("Head Low"@) <==> has_slot(position, EquipPosition::HEAD_LOWER),
        equip_slot_names(position).contains("Accessory"@) <==> (has_slot(position, EquipPosition::LEFT_ACCESSORY)
            || has_slot(position, EquipPosition::RIGHT_ACCESSORY)),
        equip_slot_names(position).contains("Ammo"@) <==> has_slot(position, EquipPosition::AMMO),
        equip_slot_names(position).no_duplicates(),
{
    lemma_slot_names_once(position);
    lemma_slot_listed_iff(position, 0);
    lemma_slot_listed_iff(position, 1);
    lemma_slot_listed_iff(position, 2);
    lemma_slot_listed_iff(position, 3);
    lemma_slot_listed_iff(position, 4);
    lemma_slot_listed_iff(position, 5);
    lemma_slot_listed_iff(position, 6);
    lemma_slot_listed_iff(position, 7);
    lemma_slot_listed_iff(position, 8);
    lemma_slot_listed_iff(position, 9);
}

fn push_name_if(names: &mut Vec<String>, condition: bool, name: &str)
    ensures
        string_views(final(names)@) == push_if(string_views(old(names)@), condition, name@),
{
    if condition {
        names.push(String::from_str(name));
        assert(string_views(names@) =~= string_views(old(names)@).push(name@));
    }
}

fn equip_slot_strings(position: u32) -> (names: Vec<String>)
    ensures
        string_views(names@) == equip_slot_names(position),
{
    let mut names: Vec<String> = Vec::new();
    assert(string_views(names@) =~= Seq::<Seq<char>>::empty());
    push_name_if(&mut names, position & EquipPosition::RIGHT_HAND == EquipPosition::RIGHT_HAND, "Weapon");
    push_name_if(&mut names, position & EquipPosition::LEFT_HAND == EquipPosition::LEFT_HAND, "Shield");
    push_name_if(&mut names, position & EquipPosition::ARMOR == EquipPosition::ARMOR, "Armor");
    push_name_if(&mut names, position & EquipPosition::GARMENT == EquipPosition::GARMENT, "Garment");
    push_name_if(&mut names, position & EquipPosition::SHOES == EquipPosition::SHOES, "Shoes");
    push_name_if(&mut names, position & EquipPosition::HEAD_TOP == EquipPosition::HEAD_TOP, "Head Top");
    push_name_if(
        &mut names,
        position & EquipPosition::HEAD_MIDDLE == EquipPosition::HEAD_MIDDLE,
        "Head Mid",
    );
    push_name_if(
        &mut names,
        position & EquipPosition::HEAD_LOWER == EquipPosition::HEAD_LOWER,
        "Head Low",
    );
    push_name_if(
        &mut names,
        position & EquipPosition::LEFT_ACCESSORY == EquipPosition::LEFT_ACCESSORY || position
            & EquipPosition::RIGHT_ACCESSORY == EquipPosition::RIGHT_ACCESSORY,
        "Accessory",
    );
    push_name_if(&mut names, position & EquipPosition::AMMO == EquipPosition::AMMO, "Ammo");
    names
}

/// The number of the card slots that hold a card.
pub open spec fn card_count(slot: Seq<u32>) -> nat
    decreases slot.len(),
{
    if slot.len() == 0 {
        0
    } else {
        card_count(slot.drop_last()) + if slot.last() != 0 {
            1nat
        } else {
            0nat
        }
    }
}

/// The lines that the details of an item add to its tooltip: the amount of
/// a stack of more than one; the refinement, enchantment and slots of an
/// equippable item, where it has them.
pub open spec fn detail_lines(details: InventoryItemDetails) -> Seq<Seq<char>> {
    match details {
        InventoryItemDetails::Regular { amount } => if amount > 1 {
            seq!["Amount: "@ + decimal(amount as nat)]
        } else {
            Seq::empty()
        },
        InventoryItemDetails::Equippable { refinement_level, enchantment_level, equip_position } => {
            let r = if refinement_level > 0 {
                seq!["Refine: +"@ + decimal(refinement_level as nat)]
            } else {
                Seq::<Seq<char>>::empty()
            };
            let e = if enchantment_level > 0 {
                seq!["Enchant: +"@ + decimal(enchantment_level as nat)]
            } else {
                Seq::<Seq<char>>::empty()
            };
            let slots = equip_slot_names(equip_position);
            let q = if slots.len() > 0 {
                seq!["Equip: "@ + joined(slots, ", "@)]
            } else {
                Seq::<Seq<char>>::empty()
            };
            r + e + q
        },
    }
}

/// The lines of the tooltip of `item`: its name, its type, its details,
/// its cards where it has any, and its id.
pub open spec fn tooltip_lines(item: InventoryItem) -> Seq<Seq<char>> {
    let cards = card_count(item.slot@);
    seq![item.name@, "Type: "@ + item_type_name(item.item_type)] + detail_lines(item.details) + (
    if cards > 0 {
        seq!["Cards: "@ + decimal(cards) + "/4"@]
    } else {
        Seq::<Seq<char>>::empty()
    }) + seq!["ID: "@ + decimal(item.item_id as nat)]
}

fn labeled_number(label: &str, n: u64) -> (line: String)
    ensures
        line@ == label@ + decimal(n as nat),
{
    let mut line = String::from_str(label);
    push_decimal(&mut line, n);
    line
}

fn count_cards(slot: &[u32; 4]) -> (count: u64)
    ensures
        count == card_count(slot@),
        count <= 4,
{
    let mut count: u64 = 0;
    let mut i: usize = 0;
    while i < 4
        invariant
            i <= 4,
            slot@.len() == 4,
            count == card_count(slot@.take(i as int)),
            count <= i,
        decreases 4 - i,
    {
        assert(slot@.take(i + 1).drop_last() =~= slot@.take(i as int));
        if slot[i] != 0 {
            count += 1;
        }
        i += 1;
    }
    assert(slot@.take(4) =~= slot@);
    count
}

fn tooltip_line_strings(item: &InventoryItem) -> (lines: Vec<String>)
    ensures
        string_views(lines@) == tooltip_lines(*item),
{
    let mut lines: Vec<String> = Vec::new();
    lines.push(item.name.clone());
    lines.push(String::from_str("Type: ").concat(item_type_str(item.item_type)));
    let ghost mut expected: Seq<Seq<char>> = seq![
        item.name@,
        "Type: "@ + item_type_name(item.item_type),
    ];
    assert(string_views(lines@) =~= expected);
    match item.details {
        InventoryItemDetails::Regular { amount } => {
            if amount > 1 {
                lines.push(labeled_number("Amount: ", amount as u64));
            }
        },
        InventoryItemDetails::Equippable { refinement_level, enchantment_level, equip_position } => {
            if refinement_level > 0 {
                lines.push(labeled_number("Refine: +", refinement_level as u64));
            }
            if enchantment_level > 0 {
                lines.push(labeled_number("Enchant: +", enchantment_level as u64));
            }
            let slots = equip_slot_strings(equip_position);
            if slots.len() > 0 {
                let joined_slots = join_strings(&slots, ", ");
                lines.push(String::from_str("Equip: ").concat(joined_slots.as_str()));
            }
        },
    }
    proof {
        expected = expected + detail_lines(item.details);
    }
    assert(string_views(lines@) =~= expected);
    let cards = count_cards(&item.slot);
    if cards > 0 {
        let mut line = labeled_number("Cards: ", cards);
        line.append("/4");
        lines.push(line);
    }
    lines.push(labeled_number("ID: ", item.item_id as u64));
    assert(string_views(lines@) =~= tooltip_lines(*item));
    lines
}

proof fn lemma_joined_length(parts: Seq<Seq<char>>, separator: Seq<char>)
    requires
        parts.len() >= 2,
    ensures
        joined(parts, separator).len() >= separator.len(),
    decreases parts.len(),
{
    if parts.len() > 2 {
        lemma_joined_length(parts.drop_last(), separator);
    }
}

/// A tooltip is never empty once it shows an item, so showing the same
/// item again keeps it as it is: the cache is stable.
pub proof fn law_tooltip_text_not_empty(item: InventoryItem)
    ensures
        joined(tooltip_lines(item), "\n"@).len() > 0,
{
    reveal_strlit("\n");
    lemma_joined_length(tooltip_lines(item), "\n"@);
}

/// The tooltip text of an item slot, made again only when the item
/// changes.
pub struct DetailedTooltip {
    pub item_id: u32,
    pub text: String,
}

impl Default for DetailedTooltip {
    /// A tooltip with no text yet.
    fn default() -> (tooltip: Self)
        ensures
            tooltip.item_id == 0,
            tooltip.text@.len() == 0,
    {
        DetailedTooltip { item_id: 0, text: String::new() }
    }
}

impl DetailedTooltip {
    /// Shows `item`: its tooltip lines, one per line. A tooltip that shows
    /// an item with the same id already is left as it is.
    pub fn update(&mut self, item: &InventoryItem)
        ensures
            if old(self).item_id == item.item_id && old(self).text@.len() > 0 {
                final(self).item_id == old(self).item_id && final(self).text@ == old(self).text@
            } else {
                final(self).item_id == item.item_id && final(self).text@ == joined(
                    tooltip_lines(*item),
                    "\n"@,
                )
            },
    {
        let new_id = item.item_id;
        if self.item_id == new_id && !self.text.as_str().is_empty() {
            return ;
        }
        self.item_id = new_id;
        let lines = tooltip_line_strings(item);
        self.text = join_strings(&lines, "\n");
    }
}

/// What a click, double click or drop on an item slot asks for.
#[derive(Debug, Clone, Copy, PartialEq, Eq, Structural)]
pub enum ItemRequest {
    /// Move the item from one place to another.
    MoveItem { source: ItemSource, destination: ItemSource },
    /// Use the item at this inventory index.
    UseItem { item_index: u16 },
}

/// What a double click on an item in `source` asks for: in the inventory,
/// an equippable item is equipped to its position and any other is used;
/// in the equipment it is taken off; in the storage it is taken out.
pub open spec fn double_click_request(source: ItemSource, item: InventoryItem) -> ItemRequest {
    match source {
        ItemSource::Inventory => match item.details {
            InventoryItemDetails::Equippable { equip_position, .. } => ItemRequest::MoveItem {
                source: ItemSource::Inventory,
                destination: ItemSource::Equipment { position: equip_position },
            },
            InventoryItemDetails::Regular { .. } => ItemRequest::UseItem { item_index: item.index },
        },
        ItemSource::Equipment { position } => ItemRequest::MoveItem {
            source: ItemSource::Equipment { position },
            destination: ItemSource::Inventory,
        },
        ItemSource::Storage => ItemRequest::MoveItem {
            source: ItemSource::Storage,
            destination: ItemSource::Inventory,
        },
    }
}

impl ItemSource {
    /// What a double click on `item`, shown here, asks for.
    pub fn double_click(self, item: &InventoryItem) -> (request: ItemRequest)
        ensures
            request == double_click_request(self, *item),
    {
        match self {
            ItemSource::Inventory => match item.details {
                InventoryItemDetails::Equippable { equip_position, .. } => ItemRequest::MoveItem {
                    source: ItemSource::Inventory,
                    destination: ItemSource::Equipment { position: equip_position },
                },
                InventoryItemDetails::Regular { .. } => ItemRequest::UseItem {
                    item_index: item.index,
                },
            },
            ItemSource::Equipment { position } => ItemRequest::MoveItem {
                source: ItemSource::Equipment { position },
                destination: ItemSource::Inventory,
            },
            ItemSource::Storage => ItemRequest::MoveItem {
                source: ItemSource::Storage,
                destination: ItemSource::Inventory,
            },
        }
    }

    /// What dropping an item dragged from `dragged_from` here asks for: to
    /// move it here.
    pub fn drop_from(self, dragged_from: ItemSource) -> (request: ItemRequest)
        ensures
            request == (ItemRequest::MoveItem { source: dragged_from, destination: self }),
    {
        ItemRequest::MoveItem { source: dragged_from, destination: self }
    }
}

/// The amount of an item that dropping it on the trade window offers: the
/// whole stack of a regular item, one equippable item.
pub fn trade_offer_amount(details: InventoryItemDetails) -> (amount: u32)
    ensures
        amount == match details {
            InventoryItemDetails::Regular { amount } => amount as u32,
            _ => 1u32,
        },
{
    match details {
        InventoryItemDetails::Regular { amount } => amount as u32,
        _ => 1,
    }
}

/// Whether an item slot counts as hovered, and its background color: while
/// an item is dragged, a slot under the mouse (in any mouse mode) is
/// cyan-ish and any other yellow-ish; otherwise a slot under the mouse is
/// lighter gray than one that is not.
pub fn slot_background(dragging_item: bool, under_mouse: bool) -> (shown: (bool, (u8, u8, u8)))
    ensures
        shown.0 == under_mouse,
        shown.1 == (if dragging_item {
            if under_mouse {
                (80u8, 180u8, 180u8)
            } else {
                (180u8, 180u8, 80u8)
            }
        } else {
            if under_mouse {
                (60u8, 60u8, 60u8)
            } else {
                (40u8, 40u8, 40u8)
            }
        }),
{
    if dragging_item {
        if under_mouse {
            (true, (80, 180, 180))
        } else {
            (false, (180, 180, 80))
        }
    } else {
        if under_mouse {
            (true, (60, 60, 60))
        } else {
            (false, (40, 40, 40))
        }
    }
}

/// An item slot: it shows the item that its path points to, in a place
/// (`source`) that decides what clicks and drops on it do.
pub struct ItemBox<A> {
    pub item_path: A,
    pub source: ItemSource,
    pub amount_display: AmountDisplay,
    pub tooltip: DetailedTooltip,
}

impl<A> ItemBox<A> {
    /// A slot for the item at `item_path`, shown in `source`, with no
    /// amount label or tooltip yet.
    pub fn component_new(item_path: A, source: ItemSource) -> (item_box: Self)
        ensures
            item_box.item_path == item_path,
            item_box.source == source,
            item_box.amount_display.wf(),
            item_box.amount_display@ is None,
            item_box.tooltip.item_id == 0,
            item_box.tooltip.text@.len() == 0,
    {
        ItemBox {
            item_path,
            source,
            amount_display: AmountDisplay::default(),
            tooltip: DetailedTooltip::default(),
        }
    }

    /// Brings the amount label and the tooltip up to date with `item`, the
    /// item in the slot, if any, where its icon is loaded: a stack shows
    /// its amount, and any item its tooltip.
    pub fn refresh(&mut self, item: Option<&InventoryItem>, icon_loaded: bool)
        requires
            old(self).amount_display.wf(),
        ensures
            final(self).amount_display.wf(),
            final(self).item_path == old(self).item_path,
            final(self).source == old(self).source,
            match item {
                Some(item) if icon_loaded => {
                    &&& match item.details {
                        InventoryItemDetails::Regular { amount } => final(self).amount_display@ == Some(
                            decimal(amount as nat),
                        ),
                        _ => final(self).amount_display@ == old(self).amount_display@,
                    }
                    &&& if old(self).tooltip.item_id == item.item_id && old(self).tooltip.text@.len()
                        > 0 {
                        final(self).tooltip.text@ == old(self).tooltip.text@
                    } else {
                        final(self).tooltip.text@ == joined(tooltip_lines(*item), "\n"@)
                    }
                },
                _ => final(self).amount_display@ == old(self).amount_display@ && final(self).tooltip
                    == old(self).tooltip,
            },
    {
        if let Some(item) = item {
            if icon_loaded {
                if let InventoryItemDetails::Regular { amount } = item.details {
                    self.amount_display.update(amount);
                }
                self.tooltip.update(item);
            }
        }
    }
}

} // verus!

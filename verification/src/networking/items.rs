//! Items of the inventory, the equipment and the storage.
use vstd::prelude::*;

verus! {

/// The equipment slots, as the bits of an equip position.
pub struct EquipPosition;

impl EquipPosition {
    pub const HEAD_LOWER: u32 = 1;
    pub const RIGHT_HAND: u32 = 2;
    pub const GARMENT: u32 = 4;
    pub const LEFT_ACCESSORY: u32 = 8;
    pub const ARMOR: u32 = 16;
    pub const LEFT_HAND: u32 = 32;
    pub const SHOES: u32 = 64;
    pub const RIGHT_ACCESSORY: u32 = 128;
    pub const HEAD_TOP: u32 = 256;
    pub const HEAD_MIDDLE: u32 = 512;
    pub const AMMO: u32 = 32768;
}

/// Whether the equip position `position` holds all bits of `slot`.
pub open spec fn has_slot(position: u32, slot: u32) -> bool {
    position & slot == slot
}

/// What kind of item an inventory item is, with what only that kind has.
#[derive(Debug, Clone, Copy, PartialEq, Eq, Structural)]
pub enum InventoryItemDetails {
    Regular { amount: u16 },
    Equippable { refinement_level: u8, enchantment_level: u8, equip_position: u32 },
}

/// An item of the inventory, the equipment or the storage.
#[derive(Debug, Clone)]
pub struct InventoryItem {
    /// Its index in the list that the server keeps.
    pub index: u16,
    pub item_id: u32,
    pub item_type: u8,
    /// Its display name.
    pub name: String,
    pub details: InventoryItemDetails,
    /// The item ids of the cards in its four card slots; 0 where empty.
    pub slot: [u32; 4],
}

/// The inventory type under which the server sends the storage's items.
pub const STORAGE_INVENTORY_TYPE: u8 = 2;

/// What a finished item list is: the storage's items, or those of the
/// inventory (or the cart).
pub enum ItemListEvent<I> {
    SetInventory { items: Vec<I> },
    StorageItemList { items: Vec<I> },
}

/// Gathers an item list that the server sends in parts: a start packet
/// names the inventory type, item list packets add items, and the end
/// packet hands the list on.
pub struct ItemListBuilder<I> {
    items: Option<Vec<I>>,
    inventory_type: u8,
}

impl<I> ItemListBuilder<I> {
    /// The items gathered since the last start, where a list is open.
    pub closed spec fn gathered(&self) -> Option<Seq<I>> {
        match self.items {
            Some(items) => Some(items@),
            None => None,
        }
    }

    /// The inventory type that the last start named.
    pub closed spec fn list_type(&self) -> u8 {
        self.inventory_type
    }

    /// A builder with no list open.
    pub fn new() -> (builder: Self)
        ensures
            builder.gathered() is None,
            builder.list_type() == 0,
    {
        ItemListBuilder { items: None, inventory_type: 0 }
    }

    /// Whether a list is open, as item packets need.
    pub fn is_open(&self) -> (open: bool)
        ensures
            open == self.gathered() is Some,
    {
        self.items.is_some()
    }

    /// Starts a new, empty list of `inventory_type`, dropping any list that
    /// was open.
    pub fn start(&mut self, inventory_type: u8)
        ensures
            list_started(*final(self), inventory_type),
    {
        self.items = Some(Vec::new());
        self.inventory_type = inventory_type;
    }

    /// Adds `items`, in order, to the open list.
    pub fn extend(&mut self, items: Vec<I>)
        requires
            old(self).gathered() is Some,
        ensures
            list_extended(*old(self), *final(self), items@),
    {
        let mut items = items;
        match &mut self.items {
            Some(list) => list.append(&mut items),
            None => {},
        }
    }

    /// Ends the open list and hands it on: as the storage's items where the
    /// list was started with [`STORAGE_INVENTORY_TYPE`], as the inventory
    /// otherwise. No list is open afterwards.
    pub fn end(&mut self) -> (event: ItemListEvent<I>)
        requires
            old(self).gathered() is Some,
        ensures
            final(self).gathered() is None,
            final(self).list_type() == old(self).list_type(),
            list_ended(*old(self), event),
    {
        let items = match self.items.take() {
            Some(items) => items,
            None => Vec::new(),
        };
        if self.inventory_type == STORAGE_INVENTORY_TYPE {
            ItemListEvent::StorageItemList { items }
        } else {
            ItemListEvent::SetInventory { items }
        }
    }
}

/// Whether `builder` holds a new, empty list of `inventory_type`, as a
/// start leaves it.
pub open spec fn list_started<I>(builder: ItemListBuilder<I>, inventory_type: u8) -> bool {
    &&& builder.gathered() == Some(Seq::<I>::empty())
    &&& builder.list_type() == inventory_type
}

/// Whether `after` is `before` with `items` added to its open list.
pub open spec fn list_extended<I>(before: ItemListBuilder<I>, after: ItemListBuilder<I>, items: Seq<I>) -> bool {
    &&& before.gathered() is Some
    &&& after.gathered() == Some(before.gathered()->0 + items)
    &&& after.list_type() == before.list_type()
}

/// Whether `event` hands on the open list of `builder`: as the storage's
/// items where the list is of [`STORAGE_INVENTORY_TYPE`], as the inventory
/// otherwise.
pub open spec fn list_ended<I>(builder: ItemListBuilder<I>, event: ItemListEvent<I>) -> bool {
    match event {
        ItemListEvent::StorageItemList { items } => builder.list_type() == STORAGE_INVENTORY_TYPE
            && builder.gathered() == Some(items@),
        ItemListEvent::SetInventory { items } => builder.list_type() != STORAGE_INVENTORY_TYPE
            && builder.gathered() == Some(items@),
    }
}

/// The item lists `lists` joined in order.
pub open spec fn joined<I>(lists: Seq<Seq<I>>) -> Seq<I>
    decreases lists.len(),
{
    if lists.len() == 0 {
        Seq::empty()
    } else {
        joined(lists.drop_last()) + lists.last()
    }
}

/// A start of `inventory_type`, then the item lists `lists`, in order,
/// then the end: the end hands on exactly one list, the items of all the
/// lists joined in the order they arrived, as the storage's items where the
/// start named [`STORAGE_INVENTORY_TYPE`] and as the inventory otherwise.
/// `states[0]` is the builder after the start, `states[k + 1]` the builder
/// after the `k`-th list, and `event` what the end gave.
pub proof fn law_item_list_sequence<I>(
    states: Seq<ItemListBuilder<I>>,
    inventory_type: u8,
    lists: Seq<Seq<I>>,
    event: ItemListEvent<I>,
)
    requires
        states.len() == lists.len() + 1,
        list_started(states[0], inventory_type),
        forall|k: int| 0 <= k < lists.len() ==> list_extended(#[trigger] states[k], states[k + 1], lists[k]),
        list_ended(states.last(), event),
    ensures
        match event {
            ItemListEvent::StorageItemList { items } => inventory_type == STORAGE_INVENTORY_TYPE
                && items@ == joined(lists),
            ItemListEvent::SetInventory { items } => inventory_type != STORAGE_INVENTORY_TYPE
                && items@ == joined(lists),
        },
{
    lemma_item_list_prefix(states, inventory_type, lists, lists.len() as int);
    assert(lists.take(lists.len() as int) =~= lists);
    assert(states.last() == states[lists.len() as int]);
}

proof fn lemma_item_list_prefix<I>(
    states: Seq<ItemListBuilder<I>>,
    inventory_type: u8,
    lists: Seq<Seq<I>>,
    n: int,
)
    requires
        states.len() == lists.len() + 1,
        0 <= n <= lists.len(),
        list_started(states[0], inventory_type),
        forall|k: int| 0 <= k < lists.len() ==> list_extended(#[trigger] states[k], states[k + 1], lists[k]),
    ensures
        states[n].gathered() == Some(joined(lists.take(n))),
        states[n].list_type() == inventory_type,
    decreases n,
{
    if n == 0 {
        assert(joined(lists.take(0)) =~= Seq::<I>::empty());
    } else {
        lemma_item_list_prefix(states, inventory_type, lists, n - 1);
        assert(list_extended(states[n - 1], states[n], lists[n - 1]));
        assert(lists.take(n).drop_last() =~= lists.take(n - 1));
        assert(lists.take(n).last() == lists[n - 1]);
    }
}

} // verus!

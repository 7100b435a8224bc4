//! The minimap window and the markers it draws.
use super::WindowClass;
use vstd::prelude::*;

verus! {

/// The kind of an entity in the world.
#[derive(Debug, Clone, Copy, PartialEq, Eq, Structural)]
pub enum EntityType {
    Warp,
    Hidden,
    Player,
    Npc,
    Monster,
}

/// The color of the marker of an entity on the minimap, if it has one:
/// yellow for the player, green for other players, red for monsters, blue
/// for NPCs; warps and hidden entities get none.
pub open spec fn marker_color(entity_type: EntityType, is_self: bool) -> Option<(u8, u8, u8)> {
    match entity_type {
        EntityType::Player => if is_self {
            Some((255u8, 255u8, 0u8))
        } else {
            Some((0u8, 255u8, 0u8))
        },
        EntityType::Monster => Some((255u8, 0u8, 0u8)),
        EntityType::Npc => Some((0u8, 100u8, 255u8)),
        _ => None,
    }
}

/// The color of the minimap marker of a party member.
pub const PARTY_MEMBER_MARKER: (u8, u8, u8) = (0, 255, 255);

/// An entity as the minimap sees it: its id, its kind and its tile.
#[derive(Debug, Clone, Copy, PartialEq, Eq, Structural)]
pub struct MinimapEntity {
    pub entity_id: u32,
    pub entity_type: EntityType,
    pub x: u16,
    pub y: u16,
}

/// One thing that the minimap draws, in the order it is drawn.
#[derive(Debug, Clone, Copy, PartialEq, Eq)]
pub enum MinimapDraw {
    /// The map texture over the whole minimap.
    Texture,
    /// The dark rectangle drawn where the map has no texture.
    Rectangle,
    /// A dot of `color` on tile (`x`, `y`).
    Marker { x: u16, y: u16, color: (u8, u8, u8) },
}

/// The markers of `entities`, in their order: each entity with a marker
/// color gets a dot on its tile; the player's own entity is the one whose
/// id is `self_id`.
pub open spec fn entity_markers(entities: Seq<MinimapEntity>, self_id: Option<u32>) -> Seq<
    MinimapDraw,
>
    decreases entities.len(),
{
    if entities.len() == 0 {
        Seq::empty()
    } else {
        let before = entity_markers(entities.drop_last(), self_id);
        let entity = entities.last();
        match marker_color(entity.entity_type, self_id == Some(entity.entity_id)) {
            Some(color) => before.push(MinimapDraw::Marker { x: entity.x, y: entity.y, color }),
            None => before,
        }
    }
}

/// The markers of the party members at `positions`, in their order: a
/// cyan dot for each but those at (0, 0).
pub open spec fn party_markers(positions: Seq<(u16, u16)>) -> Seq<MinimapDraw>
    decreases positions.len(),
{
    if positions.len() == 0 {
        Seq::empty()
    } else {
        let before = party_markers(positions.drop_last());
        let (x, y) = positions.last();
        if x == 0 && y == 0 {
            before
        } else {
            before.push(MinimapDraw::Marker { x, y, color: PARTY_MEMBER_MARKER })
        }
    }
}

/// What the minimap draws: nothing for a map without width or height;
/// otherwise its background (the texture where there is one, else the
/// rectangle), then the markers of the entities, whose first one is the
/// player's own, then those of the party members.
pub open spec fn minimap_draws(
    map_width: u16,
    map_height: u16,
    has_texture: bool,
    entities: Seq<MinimapEntity>,
    party_members: Seq<(u16, u16)>,
) -> Seq<MinimapDraw> {
    if map_width == 0 || map_height == 0 {
        Seq::empty()
    } else {
        let background = if has_texture {
            MinimapDraw::Texture
        } else {
            MinimapDraw::Rectangle
        };
        let self_id = if entities.len() == 0 {
            None
        } else {
            Some(entities[0].entity_id)
        };
        seq![background] + entity_markers(entities, self_id) + party_markers(party_members)
    }
}

/// A window with the minimap of `map_name`, which is `map_width` by
/// `map_height` tiles, drawn from `texture` where there is one.
pub struct MinimapWindow<T> {
    pub map_name: String,
    pub map_width: u16,
    pub map_height: u16,
    pub texture: Option<T>,
}

impl<T> MinimapWindow<T> {
    pub fn new(map_name: String, map_width: u16, map_height: u16, texture: Option<T>) -> (window:
        Self)
        ensures
            window.map_name == map_name,
            window.map_width == map_width,
            window.map_height == map_height,
            window.texture == texture,
    {
        Self { map_name, map_width, map_height, texture }
    }

    pub fn window_class() -> (class: Option<WindowClass>)
        ensures
            class == Some(WindowClass::Minimap),
    {
        Some(WindowClass::Minimap)
    }

    /// The window title: `Minimap - ` and the map name.
    pub fn title(&self) -> (title: String)
        ensures
            title@ == "Minimap - "@ + self.map_name@,
    {
        String::from_str("Minimap - ").concat(self.map_name.as_str())
    }

    /// Whether markers are drawn: not for a map without width or height.
    pub fn draws_markers(&self) -> (draws: bool)
        ensures
            draws == (self.map_width != 0 && self.map_height != 0),
    {
        self.map_width != 0 && self.map_height != 0
    }

    /// The marker color of an entity of `entity_type`; `is_self` where it
    /// is the player's own entity.
    pub fn marker_color(entity_type: EntityType, is_self: bool) -> (color: Option<(u8, u8, u8)>)
        ensures
            color == marker_color(entity_type, is_self),
    {
        match entity_type {
            EntityType::Player => if is_self {
                Some((255u8, 255u8, 0u8))
            } else {
                Some((0u8, 255u8, 0u8))
            },
            EntityType::Monster => Some((255u8, 0u8, 0u8)),
            EntityType::Npc => Some((0u8, 100u8, 255u8)),
            _ => None,
        }
    }

    /// Whether a party member at tile (`x`, `y`) gets a marker: not at
    /// (0, 0), where the position is not known.
    pub fn shows_party_member(x: u16, y: u16) -> (shows: bool)
        ensures
            shows == !(x == 0 && y == 0),
    {
        !(x == 0 && y == 0)
    }

    /// What the minimap draws over `entities` (the first of which is the
    /// player's own) and the party members at `party_members`.
    pub fn lay_out(&self, entities: &Vec<MinimapEntity>, party_members: &Vec<(u16, u16)>) -> (draws:
        Vec<MinimapDraw>)
        ensures
            draws@ == minimap_draws(
                self.map_width,
                self.map_height,
                self.texture is Some,
                entities@,
                party_members@,
            ),
    {
        let mut draws: Vec<MinimapDraw> = Vec::new();
        if !self.draws_markers() {
            return draws;
        }
        match &self.texture {
            Some(_) => draws.push(MinimapDraw::Texture),
            None => draws.push(MinimapDraw::Rectangle),
        }
        let self_id: Option<u32> = if entities.len() == 0 {
            None
        } else {
            Some(entities[0].entity_id)
        };
        let ghost background = draws@;
        let mut i: usize = 0;
        while i < entities.len()
            invariant
                i <= entities@.len(),
                self_id == (if entities@.len() == 0 {
                    None
                } else {
                    Some(entities@[0].entity_id)
                }),
                draws@ == background + entity_markers(entities@.take(i as int), self_id),
            decreases entities@.len() - i,
        {
            let entity = entities[i];
            assert(entities@.take(i + 1).drop_last() =~= entities@.take(i as int));
            let is_self = match self_id {
                Some(id) => id == entity.entity_id,
                None => false,
            };
            match Self::marker_color(entity.entity_type, is_self) {
                Some(color) => {
                    draws.push(MinimapDraw::Marker { x: entity.x, y: entity.y, color });
                },
                None => {},
            }
            i += 1;
        }
        assert(entities@.take(entities@.len() as int) =~= entities@);
        let ghost with_entities = draws@;
        let mut j: usize = 0;
        while j < party_members.len()
            invariant
                j <= party_members@.len(),
                draws@ == with_entities + party_markers(party_members@.take(j as int)),
            decreases party_members@.len() - j,
        {
            let (x, y) = party_members[j];
            assert(party_members@.take(j + 1).drop_last() =~= party_members@.take(j as int));
            if Self::shows_party_member(x, y) {
                draws.push(MinimapDraw::Marker { x, y, color: PARTY_MEMBER_MARKER });
            }
            j += 1;
        }
        assert(party_members@.take(party_members@.len() as int) =~= party_members@);
        draws
    }
}

} // verus!

//! Data carried by network events.
use crate::text::{
    nonempty_fields, remove_all, remove_pattern, split_nonempty, strip_trailing, trim_nul_end,
};
use vstd::prelude::*;

verus! {

/// Objective data for a quest hunt target.
#[derive(Debug, Clone)]
pub struct QuestObjectiveData {
    pub mob_name: String,
    pub kill_count: u32,
    pub total_count: u32,
}

/// One hunt objective as a quest packet lists it.
#[derive(Debug, Clone)]
pub struct QuestObjectiveDetail {
    pub mob_id: u32,
    /// The monster's name, padded with NUL characters.
    pub mob_name: String,
    pub kill_count: u16,
    pub total_count: u16,
}

/// Whether `data` is what `detail` becomes: the name without its padding
/// and the counts as they are.
pub open spec fn is_objective_of(data: QuestObjectiveData, detail: QuestObjectiveDetail) -> bool {
    &&& data.mob_name@ == strip_trailing(detail.mob_name@, '\0')
    &&& data.kill_count == detail.kill_count
    &&& data.total_count == detail.total_count
}

/// The positions of the details with a monster, in order.
pub open spec fn hunted_positions(details: Seq<QuestObjectiveDetail>) -> Seq<int>
    decreases details.len(),
{
    if details.len() == 0 {
        Seq::empty()
    } else {
        let before = hunted_positions(details.drop_last());
        if details.last().mob_id != 0 {
            before.push(details.len() - 1)
        } else {
            before
        }
    }
}

proof fn lemma_hunted_positions_bounded(details: Seq<QuestObjectiveDetail>)
    ensures
        forall|k: int|
            0 <= k < hunted_positions(details).len() ==> 0 <= #[trigger] hunted_positions(
                details,
            )[k] < details.len(),
    decreases details.len(),
{
    if details.len() > 0 {
        lemma_hunted_positions_bounded(details.drop_last());
        let before = hunted_positions(details.drop_last());
        assert forall|k: int| 0 <= k < hunted_positions(details).len() implies 0
            <= #[trigger] hunted_positions(details)[k] < details.len() by {
            if k < before.len() {
                assert(hunted_positions(details)[k] == before[k]);
            }
        }
    }
}

/// The objectives of a quest: of the first `count` details, those with a
/// monster, in order, with the padding taken off the names.
pub fn quest_objectives(details: &Vec<QuestObjectiveDetail>, count: usize) -> (objectives: Vec<
    QuestObjectiveData,
>)
    ensures
        ({
            let listed = details@.take(if count < details@.len() {
                count as int
            } else {
                details@.len() as int
            });
            let positions = hunted_positions(listed);
            &&& objectives@.len() == positions.len()
            &&& forall|k: int|
                0 <= k < objectives@.len() ==> is_objective_of(
                    #[trigger] objectives@[k],
                    listed[positions[k]],
                )
        }),
{
    let limit = if count < details.len() {
        count
    } else {
        details.len()
    };
    let mut objectives: Vec<QuestObjectiveData> = Vec::new();
    let mut i: usize = 0;
    while i < limit
        invariant
            limit <= details@.len(),
            i <= limit,
            objectives@.len() == hunted_positions(details@.take(i as int)).len(),
            forall|k: int|
                0 <= k < objectives@.len() ==> is_objective_of(
                    #[trigger] objectives@[k],
                    details@.take(i as int)[hunted_positions(details@.take(i as int))[k]],
                ),
        decreases limit - i,
    {
        let ghost before = details@.take(i as int);
        let ghost after = details@.take(i + 1);
        assert(after.drop_last() =~= before);
        proof {
            lemma_hunted_positions_bounded(before);
        }
        let detail = &details[i];
        if detail.mob_id != 0 {
            let data = QuestObjectiveData {
                mob_name: trim_nul_end(detail.mob_name.as_str()),
                kill_count: detail.kill_count as u32,
                total_count: detail.total_count as u32,
            };
            objectives.push(data);
        }
        assert forall|k: int| 0 <= k < objectives@.len() implies is_objective_of(
            #[trigger] objectives@[k],
            after[hunted_positions(after)[k]],
        ) by {
            if k < hunted_positions(before).len() {
                assert(after[hunted_positions(before)[k]] == before[hunted_positions(before)[k]]);
            }
        }
        i += 1;
    }
    assert(details@.take(limit as int) =~= details@.take(
        if count < details@.len() {
            count as int
        } else {
            details@.len() as int
        },
    ));
    objectives
}

/// Which list an item list that the server ends belongs to.
#[derive(Debug, Clone, Copy, PartialEq, Eq, Structural)]
pub enum ItemListKind {
    /// The player's inventory or cart.
    Inventory,
    Storage,
}

/// The list that the server's inventory type number names: type 2 is the
/// storage; any other (0 for the inventory, 1 for the cart) goes to the
/// inventory.
pub fn item_list_kind(inventory_type: u8) -> (kind: ItemListKind)
    ensures
        kind == (if inventory_type == 2 {
            ItemListKind::Storage
        } else {
            ItemListKind::Inventory
        }),
{
    if inventory_type == 2 {
        ItemListKind::Storage
    } else {
        ItemListKind::Inventory
    }
}

/// The name of the map to load for the map name of a map change: the
/// name with every `.gat` taken out.
pub fn changed_map_name(map_name: &str) -> (name: String)
    ensures
        name@ == remove_all(map_name@, ".gat"@),
{
    remove_pattern(map_name, ".gat")
}

/// The choices of an NPC dialog menu: the non-empty pieces of the menu
/// text between colons, in order.
pub fn dialog_choices(message: &str) -> (choices: Vec<String>)
    ensures
        choices@.len() == nonempty_fields(message@, ':').len(),
        forall|i: int|
            0 <= i < choices@.len() ==> #[trigger] choices@[i]@ == nonempty_fields(message@, ':')[i],
{
    split_nonempty(message, ':')
}

/// A visual effect that the server asks to show on an entity.
#[derive(Debug, Clone, Copy, PartialEq, Eq, Structural)]
pub enum VisualEffect {
    BaseLevelUp,
    JobLevelUp,
    RefineFailure,
    RefineSuccess,
    GameOver,
    PharmacySuccess,
    PharmacyFailure,
    BaseLevelUpSuperNovice,
    JobLevelUpSuperNovice,
    BaseLevelUpTaekwon,
}

/// The effect file of a visual effect.
pub open spec fn visual_effect_file(effect: VisualEffect) -> Seq<char> {
    match effect {
        VisualEffect::BaseLevelUp => "angel.str"@,
        VisualEffect::JobLevelUp => "joblvup.str"@,
        VisualEffect::RefineFailure => "bs_refinefailed.str"@,
        VisualEffect::RefineSuccess => "bs_refinesuccess.str"@,
        VisualEffect::PharmacySuccess => "p_success.str"@,
        VisualEffect::PharmacyFailure => "p_failed.str"@,
        _ => "help_angel\\help_angel\\help_angel.str"@,
    }
}

impl VisualEffect {
    /// The effect file that shows this effect; the game-over and the
    /// super novice and taekwon level-up effects share the guardian angel.
    pub fn effect_path(self) -> (path: &'static str)
        ensures
            path@ == visual_effect_file(self),
    {
        match self {
            VisualEffect::BaseLevelUp => "angel.str",
            VisualEffect::JobLevelUp => "joblvup.str",
            VisualEffect::RefineFailure => "bs_refinefailed.str",
            VisualEffect::RefineSuccess => "bs_refinesuccess.str",
            VisualEffect::PharmacySuccess => "p_success.str",
            VisualEffect::PharmacyFailure => "p_failed.str",
            VisualEffect::GameOver | VisualEffect::BaseLevelUpSuperNovice
            | VisualEffect::JobLevelUpSuperNovice | VisualEffect::BaseLevelUpTaekwon =>
                "help_angel\\help_angel\\help_angel.str",
        }
    }
}

/// The kind of a damage packet.
#[derive(Debug, Clone, Copy, PartialEq, Eq, Structural)]
pub enum DamageType {
    Damage,
    CriticalHit,
    PickUpItem,
    SitDown,
    StandUp,
    /// Any other kind (endure, splash, multi-hit and the like).
    Other,
}

/// What a damage packet is reported as.
#[derive(Debug, Clone, Copy, PartialEq, Eq, Structural)]
pub enum DamageReport {
    DamageEffect {
        source_entity_id: u32,
        destination_entity_id: u32,
        /// The damage, where there is any.
        damage_amount: Option<usize>,
        attack_duration: u32,
        is_critical: bool,
    },
    EntityPickUpItem { entity_id: u32, item_entity_id: u32 },
    PlayerSitDown { entity_id: u32 },
    PlayerStandUp { entity_id: u32 },
}

/// The report of a damage packet: damage and critical hits show their
/// (positive) damage; picking up, sitting down and standing up are the
/// actions of the source, the source, and the destination entity; other
/// kinds are not reported.
pub open spec fn damage_report(
    damage_type: DamageType,
    source_entity_id: u32,
    destination_entity_id: u32,
    damage_amount: i32,
    attack_duration: u32,
) -> Option<DamageReport> {
    let amount = if damage_amount > 0 {
        Some(damage_amount as usize)
    } else {
        None
    };
    match damage_type {
        DamageType::Damage => Some(
            DamageReport::DamageEffect {
                source_entity_id,
                destination_entity_id,
                damage_amount: amount,
                attack_duration,
                is_critical: false,
            },
        ),
        DamageType::CriticalHit => Some(
            DamageReport::DamageEffect {
                source_entity_id,
                destination_entity_id,
                damage_amount: amount,
                attack_duration,
                is_critical: true,
            },
        ),
        DamageType::PickUpItem => Some(
            DamageReport::EntityPickUpItem {
                entity_id: source_entity_id,
                item_entity_id: destination_entity_id,
            },
        ),
        DamageType::SitDown => Some(DamageReport::PlayerSitDown { entity_id: source_entity_id }),
        DamageType::StandUp => Some(DamageReport::PlayerStandUp { entity_id: destination_entity_id }),
        DamageType::Other => None,
    }
}

/// The report of a damage packet.
pub fn report_damage(
    damage_type: DamageType,
    source_entity_id: u32,
    destination_entity_id: u32,
    damage_amount: i32,
    attack_duration: u32,
) -> (report: Option<DamageReport>)
    ensures
        report == damage_report(
            damage_type,
            source_entity_id,
            destination_entity_id,
            damage_amount,
            attack_duration,
        ),
{
    let amount = if damage_amount > 0 {
        Some(damage_amount as usize)
    } else {
        None
    };
    match damage_type {
        DamageType::Damage => Some(
            DamageReport::DamageEffect {
                source_entity_id,
                destination_entity_id,
                damage_amount: amount,
                attack_duration,
                is_critical: false,
            },
        ),
        DamageType::CriticalHit => Some(
            DamageReport::DamageEffect {
                source_entity_id,
                destination_entity_id,
                damage_amount: amount,
                attack_duration,
                is_critical: true,
            },
        ),
        DamageType::PickUpItem => Some(
            DamageReport::EntityPickUpItem {
                entity_id: source_entity_id,
                item_entity_id: destination_entity_id,
            },
        ),
        DamageType::SitDown => Some(DamageReport::PlayerSitDown { entity_id: source_entity_id }),
        DamageType::StandUp => Some(DamageReport::PlayerStandUp { entity_id: destination_entity_id }),
        DamageType::Other => None,
    }
}

} // verus!

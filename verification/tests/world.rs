use korangar::inventory::skills::{LoadedSkill, SkillInformation, SkillTree};
use korangar::world::skill_name::{SkillName, SkillNameTable};
use korangar::world::weather::WeatherType;

fn pairs(items: &[(&str, u32)]) -> Vec<Result<(String, u32), ()>> {
    items.iter().map(|(name, id)| Ok((name.to_string(), *id))).collect()
}

#[test]
fn skill_names_invert_the_skid_table() {
    let table = SkillNameTable::from_pairs(&pairs(&[("NV_BASIC", 1), ("SM_SWORD", 2)]));
    assert_eq!(table.get(1).to_string(), "NV_BASIC");
    assert_eq!(table.get(2).to_string(), "SM_SWORD");
    assert_eq!(table.get(3).to_string(), "UNKNOWN_SKILL");
    assert!(table.try_get(3).is_none());
}

#[test]
fn skill_ids_are_cut_to_sixteen_bits_and_later_pairs_win() {
    let mut read = pairs(&[("FIRST", 5), ("HIGH", 65536 + 7)]);
    read.push(Err(()));
    read.extend(pairs(&[("SECOND", 5)]));
    let table = SkillNameTable::from_pairs(&read);
    assert_eq!(table.get(5).to_string(), "SECOND");
    assert_eq!(table.get(7).to_string(), "HIGH");
}

fn run_script(script: &[u8]) -> mlua::Result<Option<Vec<mlua::Result<(String, u32)>>>> {
    let lua = mlua::Lua::new();
    lua.load(script).exec()?;
    Ok(lua.globals().get::<mlua::Table>("SKID").ok().map(|t| t.pairs::<String, u32>().collect()))
}

#[test]
fn skill_names_load_from_a_lua_script() {
    let script = b"SKID = { NV_BASIC = 1, SM_SWORD = 2, SM_TWOHAND = 3 }";
    let table = SkillNameTable::load(Some(run_script(script))).expect("script runs");
    assert_eq!(table.get(3).to_string(), "SM_TWOHAND");
    assert_eq!(table.get(1).to_string(), "NV_BASIC");
    let without_skid = SkillNameTable::load(Some(run_script(b"OTHER = 1"))).expect("script runs");
    assert_eq!(without_skid.get(1).to_string(), "UNKNOWN_SKILL");
    assert!(SkillNameTable::load(Some(run_script(b"this is not lua"))).is_err());
    let missing = SkillNameTable::load::<mlua::Error>(None).expect("no script");
    assert_eq!(missing.get(1).to_string(), "UNKNOWN_SKILL");
    assert_eq!(SkillName::unknown().to_string(), "UNKNOWN_SKILL");
}

#[test]
fn skill_names_load_returns_the_script_error() {
    let table = SkillNameTable::load::<&str>(Some(Err("boom")));
    assert!(matches!(table, Err("boom")));
    let pairs = vec![Ok(("NV_BASIC".to_string(), 1)), Err("bad pair")];
    let table = SkillNameTable::load(Some(Ok(Some(pairs)))).expect("pairs read");
    assert_eq!(table.get(1).to_string(), "NV_BASIC");
    let no_table = SkillNameTable::load::<&str>(Some(Ok(None))).expect("no SKID");
    assert!(no_table.try_get(1).is_none());
}

fn info(skill_id: u16) -> SkillInformation {
    SkillInformation { skill_id, skill_level: 1, skill_inf: 0 }
}

fn loaded(skill_id: u16, name: &str) -> LoadedSkill<u32, u32> {
    LoadedSkill { information: info(skill_id), name: name.to_string(), sprite: skill_id as u32, actions: 0 }
}

#[test]
fn skills_without_a_name_get_no_icon() {
    let table = SkillNameTable::from_pairs(&pairs(&[("NV_BASIC", 1), ("UNKNOWN_SKILL", 9)]));
    assert_eq!(SkillTree::<u32, u32>::icon_name(&table, 1), Some("NV_BASIC".to_string()));
    assert_eq!(SkillTree::<u32, u32>::icon_name(&table, 2), None);
    assert_eq!(SkillTree::<u32, u32>::icon_name(&table, 9), None);
}

#[test]
fn skill_tree_fill_and_cooldowns() {
    let mut tree: SkillTree<u32, u32> = SkillTree::new();
    tree.fill(vec![loaded(1, "NV_BASIC"), loaded(5, "SM_BASH"), loaded(5, "SM_BASH")], 100);
    assert_eq!(tree.skill_count(), 3);
    assert_eq!(tree.skills[1].animation_start, 100);
    assert_eq!(tree.skills[1].cooldown_until, 0);
    assert_eq!(tree.find_skill_index(5), Some(1));
    assert_eq!(tree.find_skill_index(6), None);
    tree.set_cooldown(5, 2500);
    assert_eq!(tree.skills[0].cooldown_until, 0);
    assert_eq!(tree.skills[1].cooldown_until, 2500);
    assert_eq!(tree.skills[2].cooldown_until, 2500);
    let found = tree.find_skill(5).expect("skill 5");
    assert_eq!(found.skill_name, "SM_BASH");
    assert_eq!(found.cooldown_until, 2500);
    assert!(tree.find_skill(6).is_none());
    tree.fill(vec![], 200);
    assert_eq!(tree.skill_count(), 0);
}

#[test]
fn weather_particle_limits() {
    assert_eq!(WeatherType::Rain.particle_limit(), 300);
    assert_eq!(WeatherType::Snow.particle_limit(), 200);
    assert_eq!(WeatherType::Fog.particle_limit(), 0);
    assert_eq!(WeatherType::Clear.particle_limit(), 0);
    assert!(WeatherType::Rain.restarts_for(WeatherType::Snow));
    assert!(!WeatherType::Fog.restarts_for(WeatherType::Fog));
}

#[test]
fn filling_keeps_named_skills_whose_icon_loaded() {
    let names = SkillNameTable::from_pairs(&pairs(&[("NV_BASIC", 1), ("SM_SWORD", 2), ("SM_TWOHAND", 3)]));
    let information = |skill_id: u16| SkillInformation { skill_id, skill_level: 1, skill_inf: 0 };
    let entries = vec![
        (information(1), Some(("basic sprite", "basic actions"))),
        (information(9), Some(("unnamed sprite", "unnamed actions"))),
        (information(2), None),
        (information(3), Some(("two hand sprite", "two hand actions"))),
    ];
    let mut tree = SkillTree::new();
    tree.fill_from(&names, entries, 42);
    assert_eq!(tree.skill_count(), 2);
    assert_eq!(tree.skills[0].skill_id, 1);
    assert_eq!(tree.skills[0].skill_name, "NV_BASIC");
    assert_eq!(tree.skills[0].sprite, "basic sprite");
    assert_eq!(tree.skills[1].skill_id, 3);
    assert_eq!(tree.skills[1].skill_name, "SM_TWOHAND");
    assert_eq!(tree.skills[1].actions, "two hand actions");
    assert_eq!(tree.skills[1].animation_start, 42);
    assert_eq!(tree.skills[1].cooldown_until, 0);
}

//! Client-side skill trees, one per job.
use std::collections::HashMap;
use vstd::prelude::*;

verus! {

/// A skill that must reach a level before another skill can be learned.
#[derive(Debug, Clone)]
pub struct SkillRequirement {
    pub skill_id: u16,
    pub min_level: u16,
}

/// One skill of a job's skill tree.
#[derive(Debug, Clone)]
pub struct LocalSkillEntry {
    pub skill_id: u16,
    pub name: String,
    pub max_level: u16,
    pub requirements: Vec<SkillRequirement>,
    /// Row of the skill in the tree layout, if fixed.
    pub row: Option<usize>,
    /// Column of the skill in the tree layout, if fixed.
    pub col: Option<usize>,
}

/// The skill tree of one job.
#[derive(Debug, Clone)]
pub struct LocalSkillTree {
    pub job_id: u32,
    pub skills: Vec<LocalSkillEntry>,
}

/// The job id of the Swordman class.
pub const SWORDMAN_JOB_ID: u32 = 1;

/// An entry with the given id, name, maximum level and layout position
/// and no requirements but those listed.
pub open spec fn is_skill_entry(
    entry: LocalSkillEntry,
    skill_id: u16,
    name: Seq<char>,
    max_level: u16,
    row: usize,
    col: usize,
) -> bool {
    &&& entry.skill_id == skill_id
    &&& entry.name@ == name
    &&& entry.max_level == max_level
    &&& entry.row == Some(row)
    &&& entry.col == Some(col)
}

/// The built-in Swordman tree: Basic Skill, Sword Mastery, and Two-Hand
/// Mastery, which needs Sword Mastery at level 1.
pub open spec fn is_swordman_tree(tree: LocalSkillTree) -> bool {
    &&& tree.job_id == SWORDMAN_JOB_ID
    &&& tree.skills@.len() == 3
    &&& is_skill_entry(tree.skills@[0], 1, "NV_BASIC"@, 9, 0, 0)
    &&& tree.skills@[0].requirements@.len() == 0
    &&& is_skill_entry(tree.skills@[1], 2, "SM_SWORD"@, 10, 1, 1)
    &&& tree.skills@[1].requirements@.len() == 0
    &&& is_skill_entry(tree.skills@[2], 3, "SM_TWOHAND"@, 10, 1, 2)
    &&& tree.skills@[2].requirements@.len() == 1
    &&& tree.skills@[2].requirements@[0].skill_id == 2
    &&& tree.skills@[2].requirements@[0].min_level == 1
}

/// Whether `tree` has a skill with the id that `requirement` names and a
/// maximum level that reaches the level it asks for.
pub open spec fn requirement_met_in(tree: LocalSkillTree, requirement: SkillRequirement) -> bool {
    exists|j: int|
        0 <= j < tree.skills@.len() && (#[trigger] tree.skills@[j]).skill_id == requirement.skill_id
            && requirement.min_level <= tree.skills@[j].max_level
}

/// A tree fit to be cached for `job_id`: it is that job's tree, and every
/// requirement of its skills names a skill of the tree, within that
/// skill's maximum level.
pub open spec fn is_consistent_tree(tree: LocalSkillTree, job_id: u32) -> bool {
    &&& tree.job_id == job_id
    &&& forall|i: int, k: int|
        0 <= i < tree.skills@.len() && 0 <= k < tree.skills@[i].requirements@.len()
            ==> requirement_met_in(tree, #[trigger] tree.skills@[i].requirements@[k])
}

/// Whether each cached tree is consistent for the job it is cached under.
pub open spec fn trees_consistent(trees: Map<u32, LocalSkillTree>) -> bool {
    forall|job_id: u32| trees.contains_key(job_id) ==> is_consistent_tree(#[trigger] trees[job_id], job_id)
}

/// The built-in Swordman tree is consistent for the Swordman job.
pub proof fn law_swordman_tree_consistent(tree: LocalSkillTree)
    requires
        is_swordman_tree(tree),
    ensures
        is_consistent_tree(tree, SWORDMAN_JOB_ID),
{
    assert(tree.skills@[1].skill_id == 2);
    assert forall|i: int, k: int|
        0 <= i < tree.skills@.len() && 0 <= k < tree.skills@[i].requirements@.len()
            implies requirement_met_in(tree, #[trigger] tree.skills@[i].requirements@[k]) by {
        assert(i == 2 && k == 0);
        assert(tree.skills@[1].skill_id == tree.skills@[i].requirements@[k].skill_id);
    }
}

/// What loading does to the cached trees `before`, giving `after`: the
/// Swordman tree is cached under its job id, over any tree cached there;
/// the other jobs keep their trees.
pub open spec fn load_step(before: Map<u32, LocalSkillTree>, after: Map<u32, LocalSkillTree>) -> bool {
    &&& after.dom() == before.dom().insert(SWORDMAN_JOB_ID)
    &&& forall|job_id: u32|
        job_id != SWORDMAN_JOB_ID && before.contains_key(job_id) ==> #[trigger] after[job_id]
            == before[job_id]
    &&& is_swordman_tree(after[SWORDMAN_JOB_ID])
}

/// Loading keeps the cached trees consistent.
pub proof fn law_load_keeps_trees_consistent(before: Map<u32, LocalSkillTree>, after: Map<u32, LocalSkillTree>)
    requires
        trees_consistent(before),
        load_step(before, after),
    ensures
        trees_consistent(after),
{
    law_swordman_tree_consistent(after[SWORDMAN_JOB_ID]);
    assert forall|job_id: u32| after.contains_key(job_id) implies is_consistent_tree(
        #[trigger] after[job_id],
        job_id,
    ) by {
        if job_id != SWORDMAN_JOB_ID {
            assert(before.contains_key(job_id));
        }
    }
}

/// Every loader reached from a new one by any number of loads holds, for
/// each job, a tree of that job whose requirements all name a skill of the
/// tree within its maximum level. `states` are the cached trees of the
/// loader: new, then after each load.
pub proof fn law_reachable_loaders_consistent(states: Seq<Map<u32, LocalSkillTree>>)
    requires
        states.len() >= 1,
        states[0] == Map::<u32, LocalSkillTree>::empty(),
        forall|k: int| 0 <= k < states.len() - 1 ==> load_step(#[trigger] states[k], states[k + 1]),
    ensures
        forall|k: int, job_id: u32|
            0 <= k < states.len() && #[trigger] states[k].contains_key(job_id) ==> is_consistent_tree(
                states[k][job_id],
                job_id,
            ),
{
    assert forall|k: int| 0 <= k < states.len() implies #[trigger] trees_consistent(states[k]) by {
        lemma_states_consistent(states, k);
    }
    assert forall|k: int, job_id: u32|
        0 <= k < states.len() && #[trigger] states[k].contains_key(job_id) implies is_consistent_tree(
        states[k][job_id],
        job_id,
    ) by {
        assert(trees_consistent(states[k]));
    }
}

proof fn lemma_states_consistent(states: Seq<Map<u32, LocalSkillTree>>, k: int)
    requires
        0 <= k < states.len(),
        states[0] == Map::<u32, LocalSkillTree>::empty(),
        forall|j: int| 0 <= j < states.len() - 1 ==> load_step(#[trigger] states[j], states[j + 1]),
    ensures
        trees_consistent(states[k]),
    decreases k,
{
    if k > 0 {
        lemma_states_consistent(states, k - 1);
        assert(load_step(states[k - 1], states[k]));
        law_load_keeps_trees_consistent(states[k - 1], states[k]);
    }
}

fn swordman_tree() -> (tree: LocalSkillTree)
    ensures
        is_swordman_tree(tree),
{
    let basic = LocalSkillEntry {
        skill_id: 1,
        name: String::from_str("NV_BASIC"),
        max_level: 9,
        requirements: Vec::new(),
        row: Some(0),
        col: Some(0),
    };
    let sword_mastery = LocalSkillEntry {
        skill_id: 2,
        name: String::from_str("SM_SWORD"),
        max_level: 10,
        requirements: Vec::new(),
        row: Some(1),
        col: Some(1),
    };
    let mut two_hand_requirements = Vec::new();
    two_hand_requirements.push(SkillRequirement { skill_id: 2, min_level: 1 });
    let two_hand_mastery = LocalSkillEntry {
        skill_id: 3,
        name: String::from_str("SM_TWOHAND"),
        max_level: 10,
        requirements: two_hand_requirements,
        row: Some(1),
        col: Some(2),
    };
    let mut skills = Vec::new();
    skills.push(basic);
    skills.push(sword_mastery);
    skills.push(two_hand_mastery);
    LocalSkillTree { job_id: SWORDMAN_JOB_ID, skills }
}

/// Caches the skill tree of each job, keyed by job id.
pub struct SkillTreeLoader {
    cache: HashMap<u32, LocalSkillTree>,
}

impl View for SkillTreeLoader {
    type V = Map<u32, LocalSkillTree>;

    closed spec fn view(&self) -> Map<u32, LocalSkillTree> {
        self.cache@
    }
}

impl SkillTreeLoader {
    /// A loader with no tree cached.
    pub fn new() -> (loader: Self)
        ensures
            loader@ == Map::<u32, LocalSkillTree>::empty(),
            trees_consistent(loader@),
    {
        Self { cache: HashMap::new() }
    }

    /// Caches the built-in trees: the Swordman tree under its job id,
    /// replacing any tree cached there before. Other jobs keep their trees.
    pub fn load(&mut self)
        ensures
            load_step(old(self)@, final(self)@),
            trees_consistent(old(self)@) ==> trees_consistent(final(self)@),
    {
        broadcast use vstd::std_specs::hash::group_hash_axioms;

        let tree = swordman_tree();
        proof {
            law_swordman_tree_consistent(tree);
        }
        self.cache.insert(SWORDMAN_JOB_ID, tree);
    }

    /// The tree cached for `job_id`, if any.
    pub fn get_tree(&self, job_id: u32) -> (tree: Option<&LocalSkillTree>)
        ensures
            match tree {
                Some(t) => self@.contains_key(job_id) && *t == self@[job_id],
                None => !self@.contains_key(job_id),
            },
            trees_consistent(self@) ==> (tree matches Some(t) ==> is_consistent_tree(*t, job_id)),
    {
        broadcast use vstd::std_specs::hash::group_hash_axioms;

        self.cache.get(&job_id)
    }
}

} // verus!

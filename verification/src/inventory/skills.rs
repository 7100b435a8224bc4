//! The player's skill tree, with each skill's icon and cooldown.
use crate::world::skill_name::{skill_name_or_unknown, unknown_skill_name, SkillNameTable};
use vstd::prelude::*;

verus! {

/// What the server says of one skill of the player.
#[derive(Debug, Clone, Copy, PartialEq, Eq, Structural)]
pub struct SkillInformation {
    pub skill_id: u16,
    pub skill_level: u16,
    pub skill_inf: u32,
}

/// A skill with its icon: the sprite `S` and the actions `A` loaded for it.
pub struct Skill<S, A> {
    pub skill_id: u16,
    pub skill_level: u16,
    pub skill_inf: u32,
    pub skill_name: String,
    pub sprite: S,
    pub actions: A,
    /// The client tick at which the icon's animation started.
    pub animation_start: u32,
    /// Tick at which the cooldown expires. 0 means no cooldown.
    pub cooldown_until: u32,
}

/// A skill whose icon was loaded, ready to join the tree.
pub struct LoadedSkill<S, A> {
    pub information: SkillInformation,
    pub name: String,
    pub sprite: S,
    pub actions: A,
}

/// The icon name of skill `id`: its name in `names`, where it has one.
pub open spec fn icon_name_of(names: Map<u16, Seq<char>>, id: u16) -> Option<Seq<char>> {
    let name = skill_name_or_unknown(names, id);
    if name == unknown_skill_name() {
        None
    } else {
        Some(name)
    }
}

/// Whether `skill` is `loaded` as it joins the tree at `client_tick`.
pub open spec fn is_filled_skill<S, A>(
    skill: Skill<S, A>,
    loaded: LoadedSkill<S, A>,
    client_tick: u32,
) -> bool {
    &&& skill.skill_id == loaded.information.skill_id
    &&& skill.skill_level == loaded.information.skill_level
    &&& skill.skill_inf == loaded.information.skill_inf
    &&& skill.skill_name == loaded.name
    &&& skill.sprite == loaded.sprite
    &&& skill.actions == loaded.actions
    &&& skill.animation_start == client_tick
    &&& skill.cooldown_until == 0
}

/// The skills that filling the tree from `entries` keeps, in order: each
/// entry (the server's information on a skill, and the icon loaded for it,
/// if any) whose skill has an icon name in `names` and whose icon loaded,
/// with that name, sprite and actions.
pub open spec fn kept_skills<S, A>(
    names: Map<u16, Seq<char>>,
    entries: Seq<(SkillInformation, Option<(S, A)>)>,
) -> Seq<(SkillInformation, Seq<char>, S, A)>
    decreases entries.len(),
{
    if entries.len() == 0 {
        Seq::empty()
    } else {
        let before = kept_skills(names, entries.drop_last());
        let (information, icon) = entries.last();
        match (icon_name_of(names, information.skill_id), icon) {
            (Some(name), Some((sprite, actions))) => before.push((information, name, sprite, actions)),
            _ => before,
        }
    }
}

/// Whether `skill` is the kept entry `kept` as it joins the tree at
/// `client_tick`.
pub open spec fn is_kept_skill<S, A>(
    skill: Skill<S, A>,
    kept: (SkillInformation, Seq<char>, S, A),
    client_tick: u32,
) -> bool {
    &&& skill.skill_id == kept.0.skill_id
    &&& skill.skill_level == kept.0.skill_level
    &&& skill.skill_inf == kept.0.skill_inf
    &&& skill.skill_name@ == kept.1
    &&& skill.sprite == kept.2
    &&& skill.actions == kept.3
    &&& skill.animation_start == client_tick
    &&& skill.cooldown_until == 0
}

/// The position of the first skill with id `id`, or the length where there
/// is none.
pub open spec fn first_skill_position<S, A>(skills: Seq<Skill<S, A>>, id: u16) -> int
    decreases skills.len(),
{
    if skills.len() == 0 {
        0
    } else if skills[0].skill_id == id {
        0
    } else {
        1 + first_skill_position(skills.drop_first(), id)
    }
}

proof fn lemma_first_skill_position<S, A>(skills: Seq<Skill<S, A>>, id: u16, i: int)
    requires
        0 <= i <= skills.len(),
        forall|k: int| 0 <= k < i ==> skills[k].skill_id != id,
        i == skills.len() || skills[i].skill_id == id,
    ensures
        first_skill_position(skills, id) == i,
    decreases i,
{
    if i > 0 {
        assert(skills[0].skill_id != id);
        assert forall|k: int| 0 <= k < i - 1 implies skills.drop_first()[k].skill_id != id by {
            assert(skills.drop_first()[k] == skills[k + 1]);
        }
        lemma_first_skill_position(skills.drop_first(), id, i - 1);
    }
}

/// The position that [`first_skill_position`] gives is that of the first
/// skill with the id: every skill before it has another id, and the skill
/// there has the id, unless no skill has it and the position is the length.
pub proof fn law_first_skill_position<S, A>(skills: Seq<Skill<S, A>>, id: u16)
    ensures
        0 <= first_skill_position(skills, id) <= skills.len(),
        forall|k: int| 0 <= k < first_skill_position(skills, id) ==> (#[trigger] skills[k]).skill_id != id,
        first_skill_position(skills, id) < skills.len() ==> skills[first_skill_position(skills, id)].skill_id
            == id,
        first_skill_position(skills, id) == skills.len() ==> forall|k: int|
            0 <= k < skills.len() ==> (#[trigger] skills[k]).skill_id != id,
    decreases skills.len(),
{
    if skills.len() > 0 && skills[0].skill_id != id {
        law_first_skill_position(skills.drop_first(), id);
        assert forall|k: int| 0 <= k < first_skill_position(skills, id) implies (#[trigger] skills[k]).skill_id
            != id by {
            if k > 0 {
                assert(skills[k] == skills.drop_first()[k - 1]);
            }
        }
        assert forall|k: int| first_skill_position(skills, id) == skills.len() && 0 <= k < skills.len()
            implies (#[trigger] skills[k]).skill_id != id by {
            if k > 0 {
                assert(skills[k] == skills.drop_first()[k - 1]);
            }
        }
    }
}

/// The skills of the player.
pub struct SkillTree<S, A> {
    pub skills: Vec<Skill<S, A>>,
}

impl<S, A> SkillTree<S, A> {
    /// An empty tree.
    pub fn new() -> (tree: Self)
        ensures
            tree.skills@.len() == 0,
    {
        SkillTree { skills: Vec::new() }
    }

    /// The name under which the icon of skill `skill_id` is loaded: its
    /// name in `names`. A skill without a name there gets no icon, and is
    /// left out of the tree.
    pub fn icon_name(names: &SkillNameTable, skill_id: u16) -> (name: Option<String>)
        ensures
            match name {
                Some(n) => icon_name_of(names@, skill_id) == Some(n@),
                None => icon_name_of(names@, skill_id) is None,
            },
    {
        let name = names.get(skill_id).to_string();
        let unknown = String::from_str("UNKNOWN_SKILL");
        if name == unknown {
            None
        } else {
            Some(name)
        }
    }

    /// Replaces the skills with `loaded`, in order, each with no cooldown
    /// and its animation starting at `client_tick`.
    pub fn fill(&mut self, loaded: Vec<LoadedSkill<S, A>>, client_tick: u32)
        ensures
            final(self).skills@.len() == loaded@.len(),
            forall|i: int|
                0 <= i < loaded@.len() ==> is_filled_skill(
                    #[trigger] final(self).skills@[i],
                    loaded@[i],
                    client_tick,
                ),
    {
        let mut skills: Vec<Skill<S, A>> = Vec::new();
        let mut rest = loaded;
        let ghost all = rest@;
        assert(rest@ =~= all.subrange(0, all.len() as int));
        while rest.len() > 0
            invariant
                skills@.len() + rest@.len() == all.len(),
                rest@ =~= all.subrange(skills@.len() as int, all.len() as int),
                forall|i: int|
                    0 <= i < skills@.len() ==> is_filled_skill(
                        #[trigger] skills@[i],
                        all[i],
                        client_tick,
                    ),
            decreases rest@.len(),
        {
            let ghost k = skills@.len() as int;
            let next = rest.remove(0);
            assert(next == all[k]);
            skills.push(
                Skill {
                    skill_id: next.information.skill_id,
                    skill_level: next.information.skill_level,
                    skill_inf: next.information.skill_inf,
                    skill_name: next.name,
                    sprite: next.sprite,
                    actions: next.actions,
                    animation_start: client_tick,
                    cooldown_until: 0,
                },
            );
            assert(rest@ =~= all.subrange(skills@.len() as int, all.len() as int));
        }
        self.skills = skills;
    }

    /// Replaces the skills with those of `entries` that are kept, in order:
    /// a skill without an icon name in `names` (its name is unknown) or
    /// whose icon did not load is left out; each kept skill has its icon
    /// name, no cooldown, and its animation starting at `client_tick`.
    pub fn fill_from(
        &mut self,
        names: &SkillNameTable,
        entries: Vec<(SkillInformation, Option<(S, A)>)>,
        client_tick: u32,
    )
        ensures
            final(self).skills@.len() == kept_skills(names@, entries@).len(),
            forall|i: int|
                0 <= i < final(self).skills@.len() ==> is_kept_skill(
                    #[trigger] final(self).skills@[i],
                    kept_skills(names@, entries@)[i],
                    client_tick,
                ),
    {
        let mut skills: Vec<Skill<S, A>> = Vec::new();
        let mut rest = entries;
        let ghost all = rest@;
        let ghost table = names@;
        let mut k: usize = 0;
        let total = rest.len();
        while rest.len() > 0
            invariant
                all.len() == total,
                k + rest@.len() == all.len(),
                rest@ == all.skip(k as int),
                table == names@,
                skills@.len() == kept_skills(table, all.take(k as int)).len(),
                forall|i: int|
                    0 <= i < skills@.len() ==> is_kept_skill(
                        #[trigger] skills@[i],
                        kept_skills(table, all.take(k as int))[i],
                        client_tick,
                    ),
            decreases rest@.len(),
        {
            let (information, icon) = rest.remove(0);
            proof {
                assert(all.take(k + 1).drop_last() =~= all.take(k as int));
                assert(all.take(k + 1).last() == all[k as int]);
                assert(rest@ =~= all.skip(k + 1));
            }
            let name = Self::icon_name(names, information.skill_id);
            match (name, icon) {
                (Some(name), Some((sprite, actions))) => {
                    skills.push(
                        Skill {
                            skill_id: information.skill_id,
                            skill_level: information.skill_level,
                            skill_inf: information.skill_inf,
                            skill_name: name,
                            sprite,
                            actions,
                            animation_start: client_tick,
                            cooldown_until: 0,
                        },
                    );
                },
                _ => {},
            }
            k += 1;
        }
        assert(all.take(all.len() as int) =~= all);
        self.skills = skills;
    }

    /// The number of skills.
    pub fn skill_count(&self) -> (count: usize)
        ensures
            count == self.skills@.len(),
    {
        self.skills.len()
    }

    /// The position of the first skill with id `skill_id`, if there is one.
    pub fn find_skill_index(&self, skill_id: u16) -> (index: Option<usize>)
        ensures
            match index {
                Some(i) => i < self.skills@.len() && i == first_skill_position(
                    self.skills@,
                    skill_id,
                ),
                None => first_skill_position(self.skills@, skill_id) == self.skills@.len(),
            },
    {
        let mut i: usize = 0;
        while i < self.skills.len()
            invariant
                i <= self.skills@.len(),
                forall|k: int| 0 <= k < i ==> self.skills@[k].skill_id != skill_id,
            decreases self.skills@.len() - i,
        {
            if self.skills[i].skill_id == skill_id {
                proof {
                    lemma_first_skill_position(self.skills@, skill_id, i as int);
                }
                return Some(i);
            }
            i += 1;
        }
        proof {
            lemma_first_skill_position(self.skills@, skill_id, i as int);
        }
        None
    }

    /// A copy of the first skill with id `skill_id`, if there is one; its
    /// sprite and actions are cloned.
    pub fn find_skill(&self, skill_id: u16) -> (skill: Option<Skill<S, A>>) where
        S: Clone,
        A: Clone,

        ensures
            match skill {
                Some(s) => {
                    let i = first_skill_position(self.skills@, skill_id);
                    let found = self.skills@[i];
                    &&& i < self.skills@.len()
                    &&& s.skill_id == found.skill_id
                    &&& s.skill_level == found.skill_level
                    &&& s.skill_inf == found.skill_inf
                    &&& s.skill_name@ == found.skill_name@
                    &&& s.animation_start == found.animation_start
                    &&& s.cooldown_until == found.cooldown_until
                    &&& cloned::<S>(found.sprite, s.sprite)
                    &&& cloned::<A>(found.actions, s.actions)
                },
                None => first_skill_position(self.skills@, skill_id) == self.skills@.len(),
            },
    {
        match self.find_skill_index(skill_id) {
            Some(i) => {
                let found = &self.skills[i];
                Some(
                    Skill {
                        skill_id: found.skill_id,
                        skill_level: found.skill_level,
                        skill_inf: found.skill_inf,
                        skill_name: String::from_str(found.skill_name.as_str()),
                        sprite: found.sprite.clone(),
                        actions: found.actions.clone(),
                        animation_start: found.animation_start,
                        cooldown_until: found.cooldown_until,
                    },
                )
            },
            None => None,
        }
    }

    /// Sets the cooldown of every skill with id `skill_id` to end at
    /// `until`; the other skills are left as they are.
    pub fn set_cooldown(&mut self, skill_id: u16, until: u32)
        ensures
            final(self).skills@.len() == old(self).skills@.len(),
            forall|i: int|
                0 <= i < old(self).skills@.len() ==> {
                    let before = old(self).skills@[i];
                    let after = #[trigger] final(self).skills@[i];
                    &&& after.skill_id == before.skill_id
                    &&& after.skill_level == before.skill_level
                    &&& after.skill_inf == before.skill_inf
                    &&& after.skill_name == before.skill_name
                    &&& after.sprite == before.sprite
                    &&& after.actions == before.actions
                    &&& after.animation_start == before.animation_start
                    &&& after.cooldown_until == if before.skill_id == skill_id {
                        until
                    } else {
                        before.cooldown_until
                    }
                },
    {
        let ghost initial = self.skills@;
        let mut skills: Vec<Skill<S, A>> = Vec::new();
        std::mem::swap(&mut skills, &mut self.skills);
        let mut updated: Vec<Skill<S, A>> = Vec::new();
        assert(skills@ =~= initial.subrange(0, initial.len() as int));
        while skills.len() > 0
            invariant
                updated@.len() + skills@.len() == initial.len(),
                skills@ =~= initial.subrange(updated@.len() as int, initial.len() as int),
                forall|i: int|
                    0 <= i < updated@.len() ==> {
                        let before = initial[i];
                        let after = #[trigger] updated@[i];
                        &&& after.skill_id == before.skill_id
                        &&& after.skill_level == before.skill_level
                        &&& after.skill_inf == before.skill_inf
                        &&& after.skill_name == before.skill_name
                        &&& after.sprite == before.sprite
                        &&& after.actions == before.actions
                        &&& after.animation_start == before.animation_start
                        &&& after.cooldown_until == if before.skill_id == skill_id {
                            until
                        } else {
                            before.cooldown_until
                        }
                    },
            decreases skills@.len(),
        {
            let ghost k = updated@.len() as int;
            let mut skill = skills.remove(0);
            assert(skill == initial[k]);
            if skill.skill_id == skill_id {
                skill.cooldown_until = until;
            }
            updated.push(skill);
            assert(skills@ =~= initial.subrange(updated@.len() as int, initial.len() as int));
        }
        self.skills = updated;
    }
}

} // verus!

//! The constant names of skills (such as `NV_BASIC` for skill 1), which
//! name their icon sprites. They are read from the game's `SkillID.lub`
//! script.
use vstd::prelude::*;

verus! {

/// The constant name of a skill.
pub struct SkillName {
    pub name: String,
}

impl View for SkillName {
    type V = Seq<char>;

    open spec fn view(&self) -> Seq<char> {
        self.name@
    }
}

/// The name of a skill that the table does not know.
pub open spec fn unknown_skill_name() -> Seq<char> {
    "UNKNOWN_SKILL"@
}

impl SkillName {
    /// The name of a skill that the table does not know.
    pub fn unknown() -> (name: Self)
        ensures
            name@ == unknown_skill_name(),
    {
        SkillName { name: String::from_str("UNKNOWN_SKILL") }
    }

    /// The name as a string.
    pub fn to_string(&self) -> (text: String)
        ensures
            text@ == self@,
    {
        String::from_str(self.name.as_str())
    }
}

/// The names, held in a `hashbrown` map from skill id to name.
#[verifier::external_body]
pub struct SkillNameMap {
    names: hashbrown::HashMap<u16, SkillName>,
}

/// What a [`SkillNameMap`] holds: the name of each skill id.
pub uninterp spec fn skill_name_entries(map: SkillNameMap) -> Map<u16, Seq<char>>;

/// The map with no name.
pub open spec fn no_skill_names() -> Map<u16, Seq<char>> {
    Map::empty()
}

impl SkillNameMap {
    /// Calls `hashbrown::HashMap::new`, which makes an empty map.
    #[verifier::external_body]
    fn new() -> (map: Self)
        ensures
            skill_name_entries(map) == no_skill_names(),
    {
        SkillNameMap { names: hashbrown::HashMap::new() }
    }

    /// Calls `hashbrown::HashMap::insert`, which maps `id` to `name`,
    /// replacing the name it had; the other ids keep theirs.
    #[verifier::external_body]
    fn insert(&mut self, id: u16, name: SkillName)
        ensures
            skill_name_entries(*final(self)) == skill_name_entries(*old(self)).insert(id, name@),
    {
        self.names.insert(id, name);
    }

    /// Calls `hashbrown::HashMap::get`, which returns the name of `id`, if
    /// the map holds it.
    #[verifier::external_body]
    fn get(&self, id: u16) -> (name: Option<&SkillName>)
        ensures
            match name {
                Some(n) => skill_name_entries(*self).contains_key(id) && n@ == skill_name_entries(
                    *self,
                )[id],
                None => !skill_name_entries(*self).contains_key(id),
            },
    {
        self.names.get(&id)
    }
}

/// The table that the `SKID` pairs (name, id), read in order, give: each
/// id, cut to 16 bits, names the skill; a later pair overrides an earlier
/// one for the same id.
pub open spec fn skill_table_of(pairs: Seq<(Seq<char>, u32)>) -> Map<u16, Seq<char>>
    decreases pairs.len(),
{
    if pairs.len() == 0 {
        Map::empty()
    } else {
        let (name, id) = pairs.last();
        skill_table_of(pairs.drop_last()).insert(id as u16, name)
    }
}

/// Inverting `SKID` gives each skill id its name: where no later pair
/// has the same id (cut to 16 bits), the table names the id of a pair by
/// the pair's name.
pub proof fn law_skill_table_inverts(pairs: Seq<(Seq<char>, u32)>, i: int)
    requires
        0 <= i < pairs.len(),
        forall|j: int| i < j < pairs.len() ==> (#[trigger] pairs[j]).1 as u16 != pairs[i].1 as u16,
    ensures
        skill_table_of(pairs).contains_key(pairs[i].1 as u16),
        skill_table_of(pairs)[pairs[i].1 as u16] == pairs[i].0,
    decreases pairs.len(),
{
    if i < pairs.len() - 1 {
        let shorter = pairs.drop_last();
        assert forall|j: int| i < j < shorter.len() implies (#[trigger] shorter[j]).1 as u16
            != shorter[i].1 as u16 by {
            assert(shorter[j] == pairs[j]);
        }
        law_skill_table_inverts(shorter, i);
        assert(pairs.last().1 as u16 != pairs[i].1 as u16);
    }
}

/// The pairs that were read, in order, without those that failed.
pub open spec fn read_pairs<E>(results: Seq<Result<(String, u32), E>>) -> Seq<(Seq<char>, u32)>
    decreases results.len(),
{
    if results.len() == 0 {
        Seq::empty()
    } else {
        let before = read_pairs(results.drop_last());
        match results.last() {
            Ok(pair) => before.push((pair.0@, pair.1)),
            Err(_) => before,
        }
    }
}

/// Maps skill ids to skill names.
pub struct SkillNameTable {
    names: SkillNameMap,
}

impl View for SkillNameTable {
    type V = Map<u16, Seq<char>>;

    closed spec fn view(&self) -> Map<u16, Seq<char>> {
        skill_name_entries(self.names)
    }
}

/// The name of skill `id` in `table`, or the unknown name.
pub open spec fn skill_name_or_unknown(table: Map<u16, Seq<char>>, id: u16) -> Seq<char> {
    if table.contains_key(id) {
        table[id]
    } else {
        unknown_skill_name()
    }
}

impl SkillNameTable {
    /// The table with no name.
    pub fn empty() -> (table: Self)
        ensures
            table@ == no_skill_names(),
    {
        SkillNameTable { names: SkillNameMap::new() }
    }

    /// The table that the pairs read from `SKID` give, skipping those that
    /// could not be read.
    pub fn from_pairs<E>(pairs: &Vec<Result<(String, u32), E>>) -> (table: Self)
        ensures
            table@ == skill_table_of(read_pairs(pairs@)),
    {
        let mut names = SkillNameMap::new();
        let mut i: usize = 0;
        while i < pairs.len()
            invariant
                i <= pairs@.len(),
                skill_name_entries(names) == skill_table_of(read_pairs(pairs@.take(i as int))),
            decreases pairs@.len() - i,
        {
            let ghost before = read_pairs(pairs@.take(i as int));
            assert(pairs@.take(i + 1).drop_last() =~= pairs@.take(i as int));
            assert(pairs@.take(i + 1).last() == pairs@[i as int]);
            match &pairs[i] {
                Ok(pair) => {
                    let name = SkillName { name: String::from_str(pair.0.as_str()) };
                    names.insert(pair.1 as u16, name);
                    assert(read_pairs(pairs@.take(i + 1)) == before.push((pair.0@, pair.1)));
                    assert(before.push((pair.0@, pair.1)).drop_last() =~= before);
                },
                Err(_) => {
                    assert(read_pairs(pairs@.take(i + 1)) == before);
                },
            }
            i += 1;
        }
        assert(pairs@.take(pairs@.len() as int) =~= pairs@);
        SkillNameTable { names }
    }

    /// The table that a run of the `SkillID.lub` script gives. `script_run`
    /// is `None` where no script was found; otherwise it is the script's
    /// error, or the pairs (skill name, id) read from the script's global
    /// table `SKID`, `None` where the script defined no such table. Without
    /// a script or a `SKID` table the table is empty, and an error of the
    /// script is returned as it is.
    pub fn load<E>(script_run: Option<Result<Option<Vec<Result<(String, u32), E>>>, E>>) -> (table:
        Result<Self, E>)
        ensures
            match script_run {
                None => table matches Ok(t) && t@ == no_skill_names(),
                Some(Err(error)) => table matches Err(e) && e == error,
                Some(Ok(None)) => table matches Ok(t) && t@ == no_skill_names(),
                Some(Ok(Some(pairs))) => table matches Ok(t) && t@ == skill_table_of(
                    read_pairs(pairs@),
                ),
            },
    {
        match script_run {
            None => Ok(Self::empty()),
            Some(Err(error)) => Err(error),
            Some(Ok(None)) => Ok(Self::empty()),
            Some(Ok(Some(pairs))) => Ok(Self::from_pairs(&pairs)),
        }
    }

    /// The name of skill `id`, if the table holds one.
    pub fn try_get(&self, id: u16) -> (name: Option<&SkillName>)
        ensures
            match name {
                Some(n) => self@.contains_key(id) && n@ == self@[id],
                None => !self@.contains_key(id),
            },
    {
        self.names.get(id)
    }

    /// The name of skill `id`, or `UNKNOWN_SKILL` where the table holds
    /// none.
    pub fn get(&self, id: u16) -> (name: SkillName)
        ensures
            name@ == skill_name_or_unknown(self@, id),
    {
        match self.names.get(id) {
            Some(name) => SkillName { name: String::from_str(name.name.as_str()) },
            None => SkillName::unknown(),
        }
    }
}

} // verus!

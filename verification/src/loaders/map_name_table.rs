//! The map alias table (`mapnametable.txt`): which map file to load for a
//! map name that the server sends.
use crate::text::{
    char_position, chars_of, decode_utf8_lossy, find_char, lemma_char_position_bound, lowercase,
    string_from_chars, to_lowercase, trim_range, trimmed, utf8_lossy,
};
use vstd::prelude::*;

verus! {

/// The aliases, held in a `hashbrown` map from lower-case map name to the
/// name of the map file.
#[verifier::external_body]
pub struct MapAliases {
    names: hashbrown::HashMap<String, String>,
}

/// What a [`MapAliases`] holds: each key with its value.
pub uninterp spec fn alias_entries_of(aliases: MapAliases) -> Map<Seq<char>, Seq<char>>;

/// The table with no alias.
pub open spec fn no_aliases() -> Map<Seq<char>, Seq<char>> {
    Map::empty()
}

impl MapAliases {
    /// Calls `hashbrown::HashMap::new`, which makes an empty map.
    #[verifier::external_body]
    fn new() -> (aliases: Self)
        ensures
            alias_entries_of(aliases) == no_aliases(),
    {
        MapAliases { names: hashbrown::HashMap::new() }
    }

    /// Calls `hashbrown::HashMap::insert`, which maps `key` to `value`,
    /// replacing the value that `key` had; the other keys keep theirs.
    #[verifier::external_body]
    fn insert(&mut self, key: String, value: String)
        ensures
            alias_entries_of(*final(self)) == alias_entries_of(*old(self)).insert(key@, value@),
    {
        self.names.insert(key, value);
    }

    /// Calls `hashbrown::HashMap::get`, which returns the value of `key`, if
    /// the map holds it.
    #[verifier::external_body]
    fn get(&self, key: &str) -> (value: Option<&String>)
        ensures
            match value {
                Some(v) => alias_entries_of(*self).contains_key(key@) && v@ == alias_entries_of(
                    *self,
                )[key@],
                None => !alias_entries_of(*self).contains_key(key@),
            },
    {
        self.names.get(key)
    }
}

/// `line` without the carriage return that ends it, if any.
pub open spec fn strip_carriage_return(line: Seq<char>) -> Seq<char> {
    if line.len() > 0 && line.last() == '\r' {
        line.drop_last()
    } else {
        line
    }
}

/// The lines of `text`, as `str::lines` splits them: at each `'\n'`, with a
/// `'\r'` before it dropped; a final line ending adds no empty line.
pub open spec fn text_lines(text: Seq<char>) -> Seq<Seq<char>>
    decreases text.len(),
{
    if text.len() == 0 {
        Seq::empty()
    } else {
        let end = char_position(text, '\n');
        if end >= text.len() {
            seq![text]
        } else {
            seq![strip_carriage_return(text.take(end as int))] + text_lines(text.skip((end + 1) as int))
        }
    }
}

/// Whether `line` is a comment: it starts with `//`.
pub open spec fn is_comment_line(line: Seq<char>) -> bool {
    line.len() >= 2 && line[0] == '/' && line[1] == '/'
}

/// The alias that `line` declares, as (key, alias): a line `map#alias#`
/// that is no comment declares the lower-case, trimmed `map` as key for the
/// trimmed `alias`, where neither is empty. Any other line declares none.
pub open spec fn alias_pair(line: Seq<char>) -> Option<(Seq<char>, Seq<char>)> {
    let hash = char_position(line, '#');
    if is_comment_line(line) || hash >= line.len() {
        None
    } else {
        let rest = line.skip((hash + 1) as int);
        let actual = trimmed(line.take(hash as int));
        let alias = trimmed(rest.take(char_position(rest, '#') as int));
        if actual.len() > 0 && alias.len() > 0 {
            Some((lowercase(actual), alias))
        } else {
            None
        }
    }
}

/// The table after reading `line`.
pub open spec fn apply_alias_line(
    names: Map<Seq<char>, Seq<char>>,
    line: Seq<char>,
) -> Map<Seq<char>, Seq<char>> {
    match alias_pair(line) {
        Some(pair) => names.insert(pair.0, pair.1),
        None => names,
    }
}

/// Whether `line` declares an alias for `key`.
pub open spec fn declares_key(line: Seq<char>, key: Seq<char>) -> bool {
    alias_pair(line) is Some && alias_pair(line).unwrap().0 == key
}

/// The table that reading `lines` in order gives.
pub open spec fn alias_table(lines: Seq<Seq<char>>) -> Map<Seq<char>, Seq<char>>
    decreases lines.len(),
{
    if lines.len() == 0 {
        Map::empty()
    } else {
        apply_alias_line(alias_table(lines.drop_last()), lines.last())
    }
}

/// Whether `s` ends with `suffix`.
pub open spec fn ends_with(s: Seq<char>, suffix: Seq<char>) -> bool {
    s.len() >= suffix.len() && s.skip(s.len() - suffix.len()) == suffix
}

/// The key under which `map_name` is looked up: lower case, with `.rsw`.
pub open spec fn alias_key(map_name: Seq<char>) -> Seq<char> {
    if ends_with(map_name, ".rsw"@) {
        lowercase(map_name)
    } else {
        lowercase(map_name + ".rsw"@)
    }
}

/// The map to load for `map_name`: its alias without `.rsw`, or
/// `map_name` itself where the table has no alias for it.
pub open spec fn resolved_map_name(names: Map<Seq<char>, Seq<char>>, map_name: Seq<char>) -> Seq<
    char,
> {
    let key = alias_key(map_name);
    if names.contains_key(key) {
        let alias = names[key];
        if ends_with(alias, ".rsw"@) {
            alias.take(alias.len() - 4)
        } else {
            alias
        }
    } else {
        map_name
    }
}

/// The alias that the last line declaring `key` gives is the one the table
/// holds for `key`: a later line overrides an earlier one.
pub proof fn law_last_alias_line_wins(lines: Seq<Seq<char>>, i: int, key: Seq<char>)
    requires
        0 <= i < lines.len(),
        declares_key(lines[i], key),
        forall|j: int| i < j < lines.len() ==> !declares_key(#[trigger] lines[j], key),
    ensures
        alias_table(lines).contains_key(key),
        alias_table(lines)[key] == alias_pair(lines[i]).unwrap().1,
    decreases lines.len(),
{
    if i < lines.len() - 1 {
        let shorter = lines.drop_last();
        assert forall|j: int| i < j < shorter.len() implies !declares_key(
            #[trigger] shorter[j],
            key,
        ) by {
            assert(shorter[j] == lines[j]);
        }
        law_last_alias_line_wins(shorter, i, key);
        assert(!declares_key(lines[lines.len() - 1], key));
    }
}

/// A map name resolves to the alias that the last line declaring its key
/// gives, without `.rsw`.
pub proof fn law_resolve_uses_last_alias(text: Seq<char>, map_name: Seq<char>, i: int)
    requires
        0 <= i < text_lines(text).len(),
        declares_key(text_lines(text)[i], alias_key(map_name)),
        forall|j: int|
            i < j < text_lines(text).len() ==> !declares_key(
                #[trigger] text_lines(text)[j],
                alias_key(map_name),
            ),
    ensures
        ({
            let alias = alias_pair(text_lines(text)[i]).unwrap().1;
            resolved_map_name(alias_table(text_lines(text)), map_name) == if ends_with(
                alias,
                ".rsw"@,
            ) {
                alias.take(alias.len() - 4)
            } else {
                alias
            }
        }),
{
    law_last_alias_line_wins(text_lines(text), i, alias_key(map_name));
}

/// Whether `chars` ends with `.rsw`.
fn ends_with_rsw(chars: &Vec<char>) -> (b: bool)
    ensures
        b == ends_with(chars@, ".rsw"@),
{
    proof {
        reveal_strlit(".rsw");
    }
    let n = chars.len();
    let b = n >= 4 && chars[n - 4] == '.' && chars[n - 3] == 'r' && chars[n - 2] == 's' && chars[n
        - 1] == 'w';
    if n >= 4 {
        if b {
            assert(chars@.skip(n - 4) =~= ".rsw"@);
        } else {
            assert(chars@.skip(n - 4)[0] == chars@[n - 4]);
            assert(chars@.skip(n - 4)[1] == chars@[n - 3]);
            assert(chars@.skip(n - 4)[2] == chars@[n - 2]);
            assert(chars@.skip(n - 4)[3] == chars@[n - 1]);
        }
    }
    b
}

/// Maps the names of maps that the server sends to the map files to load.
pub struct MapNameTable {
    names: MapAliases,
}

impl View for MapNameTable {
    type V = Map<Seq<char>, Seq<char>>;

    closed spec fn view(&self) -> Map<Seq<char>, Seq<char>> {
        alias_entries_of(self.names)
    }
}

impl Default for MapNameTable {
    /// The empty table, used where the file cannot be read.
    fn default() -> (table: Self)
        ensures
            table@ == Map::<Seq<char>, Seq<char>>::empty(),
    {
        MapNameTable { names: MapAliases::new() }
    }
}

impl MapNameTable {
    /// The table that the file with these bytes describes; the bytes are
    /// decoded as UTF-8, with U+FFFD in place of each invalid sequence.
    pub fn new(bytes: &[u8]) -> (table: Self)
        ensures
            table@ == alias_table(text_lines(utf8_lossy(bytes@))),
    {
        let content = decode_utf8_lossy(bytes);
        Self::from_text(content.as_str())
    }

    /// The table that `content` describes, line by line; later lines
    /// override earlier ones for the same map.
    pub fn from_text(content: &str) -> (table: Self)
        ensures
            table@ == alias_table(text_lines(content@)),
    {
        let chars = chars_of(content);
        let n = chars.len();
        let mut names = MapAliases::new();
        let mut pos: usize = 0;
        let ghost mut done: Seq<Seq<char>> = Seq::empty();
        assert(chars@.skip(0) =~= chars@);
        while pos < n
            invariant
                n == chars@.len(),
                pos <= n,
                done + text_lines(chars@.skip(pos as int)) == text_lines(chars@),
                alias_entries_of(names) == alias_table(done),
            decreases n - pos,
        {
            let ghost rest = chars@.skip(pos as int);
            let end = find_char(&chars, pos, n, '\n');
            assert(chars@.subrange(pos as int, n as int) =~= rest);
            let mut line_end = end;
            if end < n && end > pos && chars[end - 1] == '\r' {
                line_end = end - 1;
            }
            let ghost line = chars@.subrange(pos as int, line_end as int);
            proof {
                lemma_char_position_bound(rest, '\n');
                if end < n {
                    assert(rest.take(end - pos) =~= chars@.subrange(pos as int, end as int));
                    assert(strip_carriage_return(rest.take(end - pos)) =~= line);
                    assert(rest.skip(end - pos + 1) =~= chars@.skip(end + 1));
                } else {
                    assert(line =~= rest);
                    assert(chars@.skip(n as int) =~= Seq::<char>::empty());
                }
            }
            Self::read_line(&mut names, &chars, pos, line_end);
            proof {
                assert(done.push(line).drop_last() =~= done);
                done = done.push(line);
            }
            if end < n {
                pos = end + 1;
                assert(text_lines(rest) == seq![line] + text_lines(chars@.skip(pos as int)));
                assert(done + text_lines(chars@.skip(pos as int)) =~= done.drop_last() + text_lines(
                    rest,
                ));
            } else {
                pos = n;
                assert(text_lines(chars@.skip(pos as int)) =~= Seq::<Seq<char>>::empty());
                assert(done + text_lines(chars@.skip(pos as int)) =~= done.drop_last() + text_lines(
                    rest,
                ));
            }
        }
        assert(chars@.skip(n as int) =~= Seq::<char>::empty());
        assert(done + text_lines(chars@.skip(n as int)) =~= done);
        MapNameTable { names }
    }

    /// Applies the line `chars[from..to]` to `names`.
    fn read_line(names: &mut MapAliases, chars: &Vec<char>, from: usize, to: usize)
        requires
            from <= to <= chars@.len(),
        ensures
            alias_entries_of(*final(names)) == apply_alias_line(
                alias_entries_of(*old(names)),
                chars@.subrange(from as int, to as int),
            ),
    {
        let ghost line = chars@.subrange(from as int, to as int);
        if to - from >= 2 && chars[from] == '/' && chars[from + 1] == '/' {
            return ;
        }
        let hash = find_char(chars, from, to, '#');
        if hash == to {
            return ;
        }
        let second = find_char(chars, hash + 1, to, '#');
        let (a0, b0) = trim_range(chars, from, hash);
        let (a1, b1) = trim_range(chars, hash + 1, second);
        proof {
            let rest = line.skip(hash - from + 1);
            assert(line.take(hash - from) =~= chars@.subrange(from as int, hash as int));
            assert(rest =~= chars@.subrange(hash + 1, to as int));
            assert(rest.take(second - hash - 1) =~= chars@.subrange(hash + 1, second as int));
        }
        if a0 < b0 && a1 < b1 {
            let actual = string_from_chars(chars, a0, b0);
            let key = to_lowercase(actual.as_str());
            let value = string_from_chars(chars, a1, b1);
            names.insert(key, value);
        }
    }

    /// The map to load for the map `map_name`: the alias that the table
    /// holds for it (matched without regard to case, with `.rsw` added where
    /// missing), without `.rsw`; or `map_name` itself where there is none.
    pub fn resolve(&self, map_name: &str) -> (resolved: String)
        ensures
            resolved@ == resolved_map_name(self@, map_name@),
    {
        let name_chars = chars_of(map_name);
        let key = if ends_with_rsw(&name_chars) {
            to_lowercase(map_name)
        } else {
            let with_extension = String::from_str(map_name).concat(".rsw");
            to_lowercase(with_extension.as_str())
        };
        match self.names.get(key.as_str()) {
            Some(alias) => {
                let alias_chars = chars_of(alias.as_str());
                if ends_with_rsw(&alias_chars) {
                    proof {
                        reveal_strlit(".rsw");
                    }
                    string_from_chars(&alias_chars, 0, alias_chars.len() - 4)
                } else {
                    proof {
                        assert(alias_chars@.subrange(0, alias_chars@.len() as int) =~= alias_chars@);
                    }
                    string_from_chars(&alias_chars, 0, alias_chars.len())
                }
            },
            None => String::from_str(map_name),
        }
    }
}

} // verus!

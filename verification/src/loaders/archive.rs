//! The index of a GRF archive (the game's asset container): which file
//! lies where, how to find a file by its path, and how to inflate it.
use crate::text::{chars_of, lowercase, push_char, string_views, to_lowercase};
use vstd::prelude::*;
use vstd::hash_map::StringHashMap;
use vstd::utf8::is_ascii_chars;

verus! {

/// The size of the header at the start of a GRF archive, in bytes.
pub const HEADER_SIZE: u64 = 46;

/// One row of the file table of a GRF archive.
#[derive(Debug, Clone)]
pub struct FileTableRow {
    pub file_name: String,
    pub compressed_size: u32,
    pub compressed_size_aligned: u32,
    pub uncompressed_size: u32,
    pub flags: u8,
    /// Where the file's data starts, counted from the end of the header.
    pub offset: u32,
}

/// The part of a row that the index keeps, without the file name.
#[derive(Debug, Clone, Copy, PartialEq, Eq, Structural)]
pub struct FileLocation {
    pub compressed_size: u32,
    pub compressed_size_aligned: u32,
    pub uncompressed_size: u32,
    pub flags: u8,
    pub offset: u32,
}

/// The location that `row` gives.
pub open spec fn location_of(row: FileTableRow) -> FileLocation {
    FileLocation {
        compressed_size: row.compressed_size,
        compressed_size_aligned: row.compressed_size_aligned,
        uncompressed_size: row.uncompressed_size,
        flags: row.flags,
        offset: row.offset,
    }
}

/// The file table: a std `HashMap` from lower-case file name to the
/// file's location, beside the list of its names, each once, so that the
/// table can be walked.
struct FileTable {
    rows: StringHashMap<FileLocation>,
    names: Vec<String>,
}

/// The table with no file.
pub open spec fn no_files() -> Map<Seq<char>, FileLocation> {
    Map::empty()
}

impl FileTable {
    /// The location of each file name.
    closed spec fn entries(&self) -> Map<Seq<char>, FileLocation> {
        self.rows@
    }

    /// The names are those of the map, each once.
    closed spec fn wf(&self) -> bool {
        &&& forall|i: int| 0 <= i < self.names@.len() ==> self.rows@.contains_key(#[trigger] self.names@[i]@)
        &&& forall|i: int, j: int|
            0 <= i < j < self.names@.len() ==> (#[trigger] self.names@[i])@ != (#[trigger] self.names@[j])@
        &&& forall|name: Seq<char>|
            #[trigger] self.rows@.contains_key(name) ==> exists|i: int|
                0 <= i < self.names@.len() && (#[trigger] self.names@[i])@ == name
    }

    fn with_capacity(capacity: usize) -> (table: Self)
        ensures
            table.wf(),
            table.entries() == no_files(),
    {
        FileTable { rows: StringHashMap::with_capacity(capacity), names: Vec::new() }
    }

    /// Maps `name` to `location`, replacing the location it had; the other
    /// names keep theirs.
    fn insert(&mut self, name: String, location: FileLocation)
        requires
            old(self).wf(),
        ensures
            final(self).wf(),
            final(self).entries() == old(self).entries().insert(name@, location),
    {
        let ghost old_names = self.names@;
        let ghost old_rows = self.rows@;
        if !self.rows.contains_key(name.as_str()) {
            self.names.push(String::from_str(name.as_str()));
            proof {
                assert(self.names@[old_names.len() as int]@ == name@);
                assert forall|i: int, j: int|
                    0 <= i < j < self.names@.len() implies (#[trigger] self.names@[i])@
                    != (#[trigger] self.names@[j])@ by {
                    if j == old_names.len() {
                        assert(self.names@[i] == old_names[i]);
                        assert(old_rows.contains_key(old_names[i]@));
                    } else {
                        assert(self.names@[i] == old_names[i] && self.names@[j] == old_names[j]);
                    }
                }
            }
        }
        self.rows.insert(name, location);
        proof {
            assert(self.names@.len() >= old_names.len());
            assert forall|i: int| 0 <= i < old_names.len() implies #[trigger] self.names@[i] == old_names[i] by {}
            assert forall|n: Seq<char>| #[trigger] self.rows@.contains_key(n) implies exists|i: int|
                0 <= i < self.names@.len() && (#[trigger] self.names@[i])@ == n by {
                if old_rows.contains_key(n) {
                    let i = choose|i: int| 0 <= i < old_names.len() && (#[trigger] old_names[i])@ == n;
                    assert(self.names@[i] == old_names[i]);
                } else {
                    assert(n == name@);
                    assert(self.names@[old_names.len() as int]@ == n);
                }
            }
            assert forall|i: int| 0 <= i < self.names@.len() implies self.rows@.contains_key(
                #[trigger] self.names@[i]@,
            ) by {
                if i < old_names.len() {
                    assert(self.names@[i] == old_names[i]);
                }
            }
        }
    }

    /// The location of `name`, if the table holds it.
    fn get(&self, name: &str) -> (location: Option<FileLocation>)
        ensures
            match location {
                Some(l) => self.entries().contains_key(name@) && l == self.entries()[name@],
                None => !self.entries().contains_key(name@),
            },
    {
        match self.rows.get(name) {
            Some(l) => Some(*l),
            None => None,
        }
    }

    /// The (name, flags) of each file of the table, each name once.
    fn names_and_flags(&self) -> (entries: Vec<(String, u8)>)
        requires
            self.wf(),
        ensures
            forall|i: int|
                0 <= i < entries@.len() ==> self.entries().contains_key(#[trigger] entry_name(entries@[i]))
                    && self.entries()[entry_name(entries@[i])].flags == entries@[i].1,
            forall|i: int, j: int|
                0 <= i < j < entries@.len() ==> #[trigger] entry_name(entries@[i])
                    != #[trigger] entry_name(entries@[j]),
            forall|name: Seq<char>|
                #[trigger] self.entries().contains_key(name) ==> exists|i: int|
                    0 <= i < entries@.len() && #[trigger] entry_name(entries@[i]) == name,
    {
        let mut entries: Vec<(String, u8)> = Vec::new();
        let mut i: usize = 0;
        while i < self.names.len()
            invariant
                self.wf(),
                i <= self.names@.len(),
                entries@.len() == i,
                forall|k: int| 0 <= k < i ==> #[trigger] entry_name(entries@[k]) == self.names@[k]@
                    && self.rows@[self.names@[k]@].flags == entries@[k].1,
            decreases self.names@.len() - i,
        {
            let name = &self.names[i];
            assert(self.rows@.contains_key(self.names@[i as int]@));
            let flags = match self.rows.get(name.as_str()) {
                Some(l) => l.flags,
                None => 0,
            };
            entries.push((String::from_str(name.as_str()), flags));
            assert(entry_name(entries@[i as int]) == self.names@[i as int]@);
            i += 1;
        }
        proof {
            assert forall|a: int, b: int| 0 <= a < b < entries@.len() implies #[trigger] entry_name(entries@[a])
                != #[trigger] entry_name(entries@[b]) by {
                assert(entry_name(entries@[a]) == self.names@[a]@);
                assert(entry_name(entries@[b]) == self.names@[b]@);
            }
            assert forall|name: Seq<char>| #[trigger] self.entries().contains_key(name) implies exists|k: int|
                0 <= k < entries@.len() && #[trigger] entry_name(entries@[k]) == name by {
                let k = choose|k: int| 0 <= k < self.names@.len() && (#[trigger] self.names@[k])@ == name;
                assert(entry_name(entries@[k]) == name);
            }
        }
        entries
    }
}

/// The bytes that `encoding_rs::EUC_KR` encodes `text` to.
pub uninterp spec fn euc_kr_encoded(text: Seq<char>) -> Seq<u8>;

/// Calls `encoding_rs::Encoding::encode` with `EUC_KR`: the EUC-KR bytes of
/// `text`, with an HTML numeric character reference for each character
/// that EUC-KR lacks. The contract only names the result: it depends on
/// `text` alone. `encode` panics where a buffer size it computes overflows
/// `usize` (or exceeds what an allocation may ask for); each such size is
/// at most a small multiple of the length of `text` (a character becomes at
/// most ten bytes, and buffers grow by rounding up to a power of two), so a
/// length of at most a sixty-fourth of the address space keeps clear of it:
/// a platform limit, not one of EUC-KR.
#[verifier::external_body]
fn encode_euc_kr(text: &str) -> (bytes: Vec<u8>)
    requires
        text.len() <= usize::MAX / 64,
    ensures
        bytes@ == euc_kr_encoded(text@),
{
    let (encoded, _, _) = encoding_rs::EUC_KR.encode(text);
    encoded.into_owned()
}

/// What inflating the zlib stream `data` gives: its content, or none where
/// `data` is no valid stream.
pub uninterp spec fn zlib_inflated(data: Seq<u8>) -> Option<Seq<u8>>;

/// Reads all of `flate2::bufread::ZlibDecoder` over `data`
/// (`Read::read_to_end`): the inflated content, or none where the stream is
/// corrupt. `capacity` only sizes the first allocation. The contract only
/// names the result: it depends on `data` alone.
#[verifier::external_body]
fn inflate_zlib(data: &[u8], capacity: usize) -> (inflated: Option<Vec<u8>>)
    ensures
        match inflated {
            Some(v) => zlib_inflated(data@) == Some(v@),
            None => zlib_inflated(data@) is None,
        },
{
    let mut decoder = flate2::bufread::ZlibDecoder::new(data);
    let mut content = Vec::with_capacity(capacity);
    match std::io::Read::read_to_end(&mut decoder, &mut content) {
        Ok(_) => Some(content),
        Err(_) => None,
    }
}

/// The characters that `bytes` read as Latin-1: each byte is the character
/// with its code.
pub open spec fn latin1(bytes: Seq<u8>) -> Seq<char> {
    bytes.map_values(|b: u8| (b as u32) as char)
}

fn latin1_string(bytes: &Vec<u8>) -> (text: String)
    ensures
        text@ == latin1(bytes@),
{
    let mut text = String::new();
    let mut i: usize = 0;
    while i < bytes.len()
        invariant
            i <= bytes@.len(),
            text@ == latin1(bytes@.take(i as int)),
        decreases bytes@.len() - i,
    {
        let c = bytes[i] as char;
        push_char(&mut text, c);
        assert(latin1(bytes@.take(i + 1)) =~= latin1(bytes@.take(i as int)).push(c));
        i += 1;
    }
    assert(bytes@.take(bytes@.len() as int) =~= bytes@);
    text
}

/// The key under which the table may hold a path with non-ASCII
/// characters: GRF tools decoded the EUC-KR bytes of such names as Latin-1,
/// so the key is the path encoded to EUC-KR, read as Latin-1, in lower case.
pub open spec fn mojibake_key(path: Seq<char>) -> Seq<char> {
    lowercase(latin1(euc_kr_encoded(path)))
}

/// The location of the file at `path` in `entries`: under the path itself,
/// or, for a path with non-ASCII characters, under its mojibake key.
pub open spec fn located_file(entries: Map<Seq<char>, FileLocation>, path: Seq<char>) -> Option<
    FileLocation,
> {
    if entries.contains_key(path) {
        Some(entries[path])
    } else if !is_ascii_chars(path) && entries.contains_key(mojibake_key(path)) {
        Some(entries[mojibake_key(path)])
    } else {
        None
    }
}

/// The table that reading `rows` in order gives: each file under its name
/// in lower case; a later row overrides an earlier one of the same name.
pub open spec fn table_of_rows(rows: Seq<FileTableRow>) -> Map<Seq<char>, FileLocation>
    decreases rows.len(),
{
    if rows.len() == 0 {
        Map::empty()
    } else {
        table_of_rows(rows.drop_last()).insert(
            lowercase(rows.last().file_name@),
            location_of(rows.last()),
        )
    }
}

/// The index locates a file by its name in lower case: where no later row
/// has the same lower-case name, the index holds the location of a row
/// under that name.
pub proof fn law_last_row_wins(rows: Seq<FileTableRow>, i: int)
    requires
        0 <= i < rows.len(),
        forall|j: int|
            i < j < rows.len() ==> lowercase((#[trigger] rows[j]).file_name@) != lowercase(
                rows[i].file_name@,
            ),
    ensures
        table_of_rows(rows).contains_key(lowercase(rows[i].file_name@)),
        table_of_rows(rows)[lowercase(rows[i].file_name@)] == location_of(rows[i]),
    decreases rows.len(),
{
    if i < rows.len() - 1 {
        let shorter = rows.drop_last();
        assert forall|j: int| i < j < shorter.len() implies lowercase(
            (#[trigger] shorter[j]).file_name@,
        ) != lowercase(shorter[i].file_name@) by {
            assert(shorter[j] == rows[j]);
        }
        law_last_row_wins(shorter, i);
        assert(lowercase(rows.last().file_name@) != lowercase(rows[i].file_name@));
    }
}

/// Whether a file is listed among the files with one of `extensions`: it
/// is a file (flag bit 0) and its name ends with one of them.
pub open spec fn is_listed_file(name: Seq<char>, flags: u8, extensions: Seq<Seq<char>>) -> bool {
    flags & 1 != 0 && exists|k: int|
        0 <= k < extensions.len() && #[trigger] name_ends_with(name, extensions[k])
}

/// Whether `name` ends with `suffix`.
pub open spec fn name_ends_with(name: Seq<char>, suffix: Seq<char>) -> bool {
    suffix.len() <= name.len() && name.skip(name.len() - suffix.len()) == suffix
}

fn ends_with_chars(name: &Vec<char>, suffix: &Vec<char>) -> (b: bool)
    ensures
        b == name_ends_with(name@, suffix@),
{
    if suffix.len() > name.len() {
        return false;
    }
    let start = name.len() - suffix.len();
    let mut k: usize = 0;
    while k < suffix.len()
        invariant
            start + suffix@.len() == name.len(),
            name@.len() == name.len(),
            k <= suffix@.len(),
            forall|j: int| 0 <= j < k ==> name@[start + j] == suffix@[j],
        decreases suffix@.len() - k,
    {
        if name[start + k] != suffix[k] {
            assert(name@.skip(start as int)[k as int] != suffix@[k as int]);
            return false;
        }
        k += 1;
    }
    assert(name@.skip(start as int) =~= suffix@);
    true
}

/// The name of an entry of the file table as `names_and_flags` lists it.
pub open spec fn entry_name(entry: (String, u8)) -> Seq<char> {
    entry.0@
}

/// Whether `added` are the names of the files of `entries` that are listed
/// for `extensions`, each once.
pub open spec fn lists_files(
    added: Seq<String>,
    entries: Map<Seq<char>, FileLocation>,
    extensions: Seq<Seq<char>>,
) -> bool {
    &&& forall|i: int|
        0 <= i < added.len() ==> entries.contains_key(#[trigger] added[i]@) && is_listed_file(
            added[i]@,
            entries[added[i]@].flags,
            extensions,
        )
    &&& forall|i: int, j: int| 0 <= i < j < added.len() ==> (#[trigger] added[i])@ != (#[trigger] added[j])@
    &&& forall|name: Seq<char>|
        #[trigger] entries.contains_key(name) && is_listed_file(name, entries[name].flags, extensions)
            ==> exists|i: int| 0 <= i < added.len() && (#[trigger] added[i])@ == name
}

/// Whether `name` ends with one of `suffixes`.
fn ends_with_any(name: &str, suffixes: &Vec<Vec<char>>, Ghost(exts): Ghost<Seq<Seq<char>>>) -> (found: bool)
    requires
        suffixes@.len() == exts.len(),
        forall|j: int| 0 <= j < suffixes@.len() ==> #[trigger] suffixes@[j]@ == exts[j],
    ensures
        found == exists|q: int| 0 <= q < exts.len() && #[trigger] name_ends_with(name@, exts[q]),
{
    let name_chars = chars_of(name);
    let mut s: usize = 0;
    while s < suffixes.len()
        invariant
            s <= suffixes@.len(),
            suffixes@.len() == exts.len(),
            forall|j: int| 0 <= j < suffixes@.len() ==> #[trigger] suffixes@[j]@ == exts[j],
            name_chars@ == name@,
            forall|q: int| 0 <= q < s ==> !#[trigger] name_ends_with(name@, exts[q]),
        decreases suffixes@.len() - s,
    {
        if ends_with_chars(&name_chars, &suffixes[s]) {
            assert(name_ends_with(name@, exts[s as int]));
            return true;
        }
        s += 1;
    }
    false
}

/// The index of a GRF archive: where each file lies.
pub struct NativeArchive {
    file_table: FileTable,
}

impl NativeArchive {
    /// The file table lists each of its names once.
    #[verifier::type_invariant]
    closed spec fn table_listed(self) -> bool {
        self.file_table.wf()
    }
}

impl View for NativeArchive {
    type V = Map<Seq<char>, FileLocation>;

    closed spec fn view(&self) -> Map<Seq<char>, FileLocation> {
        self.file_table.entries()
    }
}

impl NativeArchive {
    /// The index of the rows of a file table.
    pub fn from_rows(rows: &Vec<FileTableRow>) -> (archive: Self)
        ensures
            archive@ == table_of_rows(rows@),
    {
        let mut table = FileTable::with_capacity(rows.len());
        let mut i: usize = 0;
        while i < rows.len()
            invariant
                i <= rows@.len(),
                table.wf(),
                table.entries() == table_of_rows(rows@.take(i as int)),
            decreases rows@.len() - i,
        {
            assert(rows@.take(i + 1).drop_last() =~= rows@.take(i as int));
            let row = &rows[i];
            let name = to_lowercase(row.file_name.as_str());
            let location = FileLocation {
                compressed_size: row.compressed_size,
                compressed_size_aligned: row.compressed_size_aligned,
                uncompressed_size: row.uncompressed_size,
                flags: row.flags,
                offset: row.offset,
            };
            table.insert(name, location);
            i += 1;
        }
        assert(rows@.take(rows@.len() as int) =~= rows@);
        NativeArchive { file_table: table }
    }

    /// Whether the index holds a file under exactly `asset_path`.
    pub fn file_exists(&self, asset_path: &str) -> (exists: bool)
        ensures
            exists == self@.contains_key(asset_path@),
    {
        self.file_table.get(asset_path).is_some()
    }

    /// The location of the file at `asset_path`: under the path itself or,
    /// for a path with non-ASCII characters, under its mojibake key. The
    /// path is at most a sixty-fourth of the address space long (the
    /// platform limit of the EUC-KR encoding).
    pub fn find_file(&self, asset_path: &str) -> (location: Option<FileLocation>)
        requires
            asset_path.len() <= usize::MAX / 64,
        ensures
            location == located_file(self@, asset_path@),
    {
        match self.file_table.get(asset_path) {
            Some(location) => Some(location),
            None => {
                if asset_path.is_ascii() {
                    None
                } else {
                    let encoded = encode_euc_kr(asset_path);
                    let mojibake = latin1_string(&encoded);
                    let key = to_lowercase(mojibake.as_str());
                    self.file_table.get(key.as_str())
                }
            },
        }
    }

    /// Where the data of a file starts in the archive: after the header, at
    /// the file's offset.
    pub fn file_position(location: FileLocation) -> (position: u64)
        ensures
            position == location.offset + HEADER_SIZE,
    {
        location.offset as u64 + HEADER_SIZE
    }

    /// The content of a file, inflated from its (decrypted) data; none
    /// where the data is no valid zlib stream.
    pub fn inflate(location: FileLocation, data: &[u8]) -> (content: Option<Vec<u8>>)
        ensures
            match content {
                Some(v) => zlib_inflated(data@) == Some(v@),
                None => zlib_inflated(data@) is None,
            },
    {
        inflate_zlib(data, location.uncompressed_size as usize)
    }

    /// Adds to `files` the name of each file (flag bit 0) whose name ends
    /// with one of `extensions`, each once, in no stated order.
    pub fn get_files_with_extension(&self, files: &mut Vec<String>, extensions: &Vec<String>)
        ensures
            final(files)@.len() >= old(files)@.len(),
            final(files)@.take(old(files)@.len() as int) == old(files)@,
            lists_files(
                final(files)@.skip(old(files)@.len() as int),
                self@,
                extensions@.map_values(|e: String| e@),
            ),
    {
        let ghost exts = extensions@.map_values(|e: String| e@);
        let mut suffixes: Vec<Vec<char>> = Vec::new();
        let mut k: usize = 0;
        while k < extensions.len()
            invariant
                k <= extensions@.len(),
                exts == extensions@.map_values(|e: String| e@),
                suffixes@.len() == k,
                forall|j: int| 0 <= j < k ==> #[trigger] suffixes@[j]@ == exts[j],
            decreases extensions@.len() - k,
        {
            suffixes.push(chars_of(extensions[k].as_str()));
            k += 1;
        }
        proof {
            use_type_invariant(self);
        }
        let entries = self.file_table.names_and_flags();
        let mut found: Vec<String> = Vec::new();
        let ghost mut origin: Seq<int> = Seq::empty();
        let mut i: usize = 0;
        while i < entries.len()
            invariant
                i <= entries@.len(),
                suffixes@.len() == exts.len(),
                forall|j: int| 0 <= j < suffixes@.len() ==> #[trigger] suffixes@[j]@ == exts[j],
                forall|e: int|
                    0 <= e < entries@.len() ==> self@.contains_key(#[trigger] entry_name(entries@[e]))
                        && self@[entry_name(entries@[e])].flags == entries@[e].1,
                forall|a: int, b: int|
                    0 <= a < b < entries@.len() ==> #[trigger] entry_name(entries@[a])
                        != #[trigger] entry_name(entries@[b]),
                origin.len() == found@.len(),
                forall|f: int|
                    0 <= f < found@.len() ==> 0 <= #[trigger] origin[f] < i && entry_name(
                        entries@[origin[f]],
                    ) == found@[f]@ && is_listed_file(found@[f]@, entries@[origin[f]].1, exts),
                forall|f: int, g: int| 0 <= f < g < found@.len() ==> #[trigger] origin[f] < #[trigger] origin[g],
                forall|e: int|
                    0 <= e < i && is_listed_file(#[trigger] entry_name(entries@[e]), entries@[e].1, exts)
                        ==> string_views(found@).contains(entry_name(entries@[e])),
            decreases entries@.len() - i,
        {
            let name = &entries[i].0;
            let flags = entries[i].1;
            assert(entry_name(entries@[i as int]) == name@);
            let listed = flags & 1 != 0 && ends_with_any(name.as_str(), &suffixes, Ghost(exts));
            assert(listed == is_listed_file(name@, flags, exts));
            let ghost before = found@;
            if listed {
                found.push(String::from_str(name.as_str()));
                proof {
                    origin = origin.push(i as int);
                    assert(string_views(found@) =~= string_views(before).push(name@));
                    assert forall|e: int|
                        0 <= e < i + 1 && is_listed_file(
                            #[trigger] entry_name(entries@[e]),
                            entries@[e].1,
                            exts,
                        ) implies string_views(found@).contains(entry_name(entries@[e])) by {
                        if e < i {
                            let f = choose|f: int|
                                0 <= f < string_views(before).len() && string_views(before)[f]
                                    == entry_name(entries@[e]);
                            assert(string_views(found@)[f] == entry_name(entries@[e]));
                        } else {
                            assert(string_views(found@)[found@.len() - 1] == entry_name(entries@[e]));
                        }
                    }
                }
            }
            i += 1;
        }
        let ghost added = found@;
        proof {
            assert forall|f: int, g: int| 0 <= f < g < added.len() implies (#[trigger] added[f])@
                != (#[trigger] added[g])@ by {
                assert(origin[f] < origin[g]);
                assert(entry_name(entries@[origin[f]]) != entry_name(entries@[origin[g]]));
            }
            assert forall|f: int| 0 <= f < added.len() implies self@.contains_key(
                #[trigger] added[f]@,
            ) && is_listed_file(added[f]@, self@[added[f]@].flags, exts) by {
                assert(entry_name(entries@[origin[f]]) == added[f]@);
            }
            assert forall|name: Seq<char>|
                #[trigger] self@.contains_key(name) && is_listed_file(name, self@[name].flags, exts)
                    implies exists|f: int| 0 <= f < added.len() && (#[trigger] added[f])@ == name by {
                let e = choose|e: int|
                    0 <= e < entries@.len() && #[trigger] entry_name(entries@[e]) == name;
                assert(entries@[e].1 == self@[name].flags);
                assert(string_views(added).contains(name));
                let f = choose|f: int| 0 <= f < string_views(added).len() && string_views(added)[f] == name;
                assert(added[f]@ == name);
            }
        }
        let ghost old_files = files@;
        files.append(&mut found);
        assert(files@.take(old_files.len() as int) =~= old_files);
        assert(files@.skip(old_files.len() as int) =~= added);
    }
}

} // verus!

use korangar::loaders::archive::{FileTableRow, NativeArchive, HEADER_SIZE};
use korangar::loaders::map_name_table::MapNameTable;
use korangar::loaders::skill_tree::{SkillTreeLoader, SWORDMAN_JOB_ID};
use std::io::Write;

#[test]
fn skill_tree_loader_starts_empty() {
    let loader = SkillTreeLoader::new();
    assert!(loader.get_tree(SWORDMAN_JOB_ID).is_none());
}

#[test]
fn skill_tree_loader_holds_swordman_tree() {
    let mut loader = SkillTreeLoader::new();
    loader.load();
    let tree = loader.get_tree(1).expect("swordman tree");
    assert_eq!(tree.job_id, 1);
    assert_eq!(tree.skills.len(), 3);
    assert_eq!(tree.skills[0].skill_id, 1);
    assert_eq!(tree.skills[0].name, "NV_BASIC");
    assert_eq!(tree.skills[0].max_level, 9);
    assert_eq!(tree.skills[1].name, "SM_SWORD");
    assert_eq!(tree.skills[2].name, "SM_TWOHAND");
    assert_eq!(tree.skills[2].max_level, 10);
    assert_eq!(tree.skills[2].requirements.len(), 1);
    assert_eq!(tree.skills[2].requirements[0].skill_id, 2);
    assert_eq!(tree.skills[2].requirements[0].min_level, 1);
    assert_eq!(tree.skills[2].row, Some(1));
    assert_eq!(tree.skills[2].col, Some(2));
    assert!(loader.get_tree(2).is_none());
}

const TABLE: &str = "// map aliases\r\nPrt_Fild08.rsw#prt_fild08a.rsw#\r\n  izlude.rsw # izlude_a #\nbroken line without hash\n#missing.rsw#\nempty.rsw##\n// comment.rsw#nope.rsw#\nprt_fild08.rsw#prt_fild08b.rsw#";

#[test]
fn map_name_table_reads_aliases() {
    let table = MapNameTable::from_text(TABLE);
    // The last line for a map wins; keys are matched in lower case.
    assert_eq!(table.resolve("prt_fild08"), "prt_fild08b");
    assert_eq!(table.resolve("PRT_FILD08.rsw"), "prt_fild08b");
    // Aliases are trimmed; one without `.rsw` is returned as it is.
    assert_eq!(table.resolve("izlude"), "izlude_a");
}

#[test]
fn map_name_table_skips_comments_and_incomplete_lines() {
    let table = MapNameTable::from_text(TABLE);
    assert_eq!(table.resolve("comment"), "comment");
    assert_eq!(table.resolve("empty"), "empty");
    assert_eq!(table.resolve("missing"), "missing");
    assert_eq!(table.resolve("broken line without hash"), "broken line without hash");
}

#[test]
fn unknown_map_resolves_to_itself() {
    let table = MapNameTable::default();
    assert_eq!(table.resolve("Geffen"), "Geffen");
    assert_eq!(table.resolve("geffen.rsw"), "geffen.rsw");
}

#[test]
fn map_name_table_decodes_bytes_lossily() {
    let mut bytes = b"caf\xff.rsw#cafe_alias.rsw#\n".to_vec();
    bytes.extend_from_slice(b"moc_castle.rsw#moc_alias.rsw#\n");
    let table = MapNameTable::new(&bytes);
    assert_eq!(table.resolve("caf\u{fffd}"), "cafe_alias");
    assert_eq!(table.resolve("moc_castle"), "moc_alias");
}

#[test]
fn map_name_table_handles_empty_text() {
    let table = MapNameTable::from_text("");
    assert_eq!(table.resolve("x"), "x");
}

fn row(name: &str, flags: u8, offset: u32, uncompressed: u32) -> FileTableRow {
    FileTableRow {
        file_name: name.to_string(),
        compressed_size: 10,
        compressed_size_aligned: 16,
        uncompressed_size: uncompressed,
        flags,
        offset,
    }
}

#[test]
fn archive_index_uses_lower_case_names() {
    let archive = NativeArchive::from_rows(&vec![
        row("data\\Sprite\\A.SPR", 1, 0, 5),
        row("data\\texture\\b.bmp", 1, 100, 6),
        row("DATA\\SPRITE\\a.spr", 1, 200, 7),
    ]);
    assert!(archive.file_exists("data\\sprite\\a.spr"));
    assert!(!archive.file_exists("data\\Sprite\\A.SPR"));
    let location = archive.find_file("data\\sprite\\a.spr").expect("file");
    // The last row of a name wins.
    assert_eq!(location.offset, 200);
    assert_eq!(NativeArchive::file_position(location), 200 + HEADER_SIZE);
    assert!(archive.find_file("data\\missing.txt").is_none());
}

#[test]
fn archive_finds_korean_paths_by_their_mojibake_key() {
    // "유저인터페이스" in EUC-KR bytes, read as Latin-1, is how GRF tools
    // stored the name.
    let (encoded, _, _) = encoding_rs::EUC_KR.encode("유저인터페이스");
    let mojibake: String = encoded.iter().map(|&b| b as char).collect();
    let stored = format!("data\\texture\\{mojibake}\\a.bmp");
    let archive = NativeArchive::from_rows(&vec![row(&stored, 1, 42, 1)]);
    let location = archive.find_file("data\\texture\\유저인터페이스\\a.bmp").expect("file");
    assert_eq!(location.offset, 42);
    assert!(archive.find_file("data\\texture\\a.bmp").is_none());
}

#[test]
fn archive_inflates_zlib_content() {
    let mut encoder = flate2::write::ZlibEncoder::new(Vec::new(), flate2::Compression::default());
    encoder.write_all(b"hello grf").unwrap();
    let compressed = encoder.finish().unwrap();
    let location = NativeArchive::from_rows(&vec![row("a.txt", 1, 0, 9)]).find_file("a.txt").unwrap();
    assert_eq!(NativeArchive::inflate(location, &compressed), Some(b"hello grf".to_vec()));
    assert_eq!(NativeArchive::inflate(location, b"not zlib"), None);
}

#[test]
fn archive_lists_files_with_extensions() {
    let archive = NativeArchive::from_rows(&vec![
        row("a.spr", 1, 0, 1),
        row("b.act", 1, 0, 1),
        row("c.spr", 0, 0, 1),
        row("d.bmp", 1, 0, 1),
        row("e.SPR", 1, 0, 1),
    ]);
    let mut files = vec!["already.there".to_string()];
    archive.get_files_with_extension(&mut files, &vec![".spr".to_string(), ".act".to_string()]);
    assert_eq!(files[0], "already.there");
    let mut found: Vec<String> = files[1..].to_vec();
    found.sort();
    assert_eq!(found, vec!["a.spr".to_string(), "b.act".to_string(), "e.spr".to_string()]);
}

#[test]
fn repeated_loads_keep_consistent_trees() {
    let mut loader = SkillTreeLoader::new();
    loader.load();
    loader.load();
    let tree = loader.get_tree(SWORDMAN_JOB_ID).expect("swordman tree");
    assert_eq!(tree.job_id, SWORDMAN_JOB_ID);
    for skill in &tree.skills {
        for requirement in &skill.requirements {
            let named = tree.skills.iter().find(|s| s.skill_id == requirement.skill_id).expect("named skill");
            assert!(requirement.min_level <= named.max_level);
        }
    }
}

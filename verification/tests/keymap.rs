use image_sorter::discover::Entry;
use image_sorter::keymap::KeyMap;

fn s(text: &str) -> String {
    text.to_string()
}

#[test]
fn a_new_key_map_binds_nothing() {
    let keys = KeyMap::new();
    assert_eq!(keys.get('a'), None);
    assert!(keys.as_map().is_empty());
}

#[test]
fn insert_binds_and_rebinds() {
    let mut keys = KeyMap::new();
    keys.insert('a', s("/one"));
    keys.insert('b', s("/two"));
    assert_eq!(keys.get('a'), Some(&s("/one")));
    assert_eq!(keys.get('b'), Some(&s("/two")));
    assert_eq!(keys.get('A'), None);
    keys.insert('a', s("/three"));
    assert_eq!(keys.get('a'), Some(&s("/three")));
    assert_eq!(keys.get('b'), Some(&s("/two")));
    assert_eq!(keys.as_map().len(), 2);
}

#[test]
fn the_map_is_kept_by_code_point() {
    let mut keys = KeyMap::new();
    keys.insert('é', s("/e"));
    keys.insert('1', s("/1"));
    let listed: Vec<(u32, char, String)> = keys
        .as_map()
        .iter()
        .map(|(code, (key, folder))| (*code, *key, folder.clone()))
        .collect();
    assert_eq!(listed, vec![(0x31, '1', s("/1")), (0xE9, 'é', s("/e"))]);
}

#[test]
fn every_entry_has_its_path() {
    assert_eq!(Entry::File { path: s("/a"), head: None }.path(), "/a");
    assert_eq!(Entry::Dir { path: s("/b"), entries: vec![] }.path(), "/b");
    assert_eq!(Entry::Other { path: s("/c") }.path(), "/c");
}

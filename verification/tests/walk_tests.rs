use sclauncher::install::key_name_matches;
use sclauncher::walk::RegistryWalk;

// A simulated key: its path, its subkeys by name, and its install location.
struct SimKey {
    path: &'static str,
    subkeys: Vec<&'static str>,
    location: Option<&'static str>,
    opens: bool,
}

fn key(path: &'static str, subkeys: Vec<&'static str>, location: Option<&'static str>) -> SimKey {
    SimKey { path, subkeys, location, opens: true }
}

fn search(tree: &[SimKey], term: &str) -> (Vec<String>, Vec<(String, String)>) {
    let mut walk = RegistryWalk::new("HKEY_LOCAL_MACHINE");
    let mut listed = Vec::new();
    while let Some(path) = walk.next_key() {
        listed.push(path.clone());
        let Some(parent) = tree.iter().find(|k| k.path == path) else { continue };
        for name in &parent.subkeys {
            let child_path = format!("{}\\{}", path, name);
            let child = tree.iter().find(|k| k.path == child_path);
            let opened = child.map(|k| k.opens).unwrap_or(false);
            let matched = key_name_matches(term, name);
            let value = if opened && matched == Some(true) {
                child.and_then(|k| k.location).map(|v| v.to_string())
            } else {
                None
            };
            let _ = walk.visit(&path, name, opened, matched, value);
        }
    }
    (listed, walk.results())
}

fn tree() -> Vec<SimKey> {
    let mut locked = key("HKEY_LOCAL_MACHINE\\SECURITY", vec!["StarCraft"], None);
    locked.opens = false;
    vec![
        key("HKEY_LOCAL_MACHINE", vec!["SOFTWARE", "SECURITY", "SYSTEM"], None),
        key("HKEY_LOCAL_MACHINE\\SOFTWARE", vec!["Blizzard", "starcraft"], None),
        locked,
        key("HKEY_LOCAL_MACHINE\\SYSTEM", vec!["StarCraft"], None),
        key("HKEY_LOCAL_MACHINE\\SOFTWARE\\Blizzard", vec!["StarCraft", "StarCraft II"], None),
        key("HKEY_LOCAL_MACHINE\\SOFTWARE\\starcraft", vec![], Some("D:\\Games\\SC")),
        key("HKEY_LOCAL_MACHINE\\SYSTEM\\StarCraft", vec![], None),
        key("HKEY_LOCAL_MACHINE\\SOFTWARE\\Blizzard\\StarCraft", vec![], Some("E:\\SC")),
        key("HKEY_LOCAL_MACHINE\\SOFTWARE\\Blizzard\\StarCraft II", vec![], Some("E:\\SC2")),
    ]
}

#[test]
fn walk_starts_at_the_root() {
    let mut walk = RegistryWalk::new("HKEY_LOCAL_MACHINE");
    assert_eq!(walk.next_key(), Some("HKEY_LOCAL_MACHINE".to_string()));
    assert_eq!(walk.next_key(), None);
    assert_eq!(walk.next_key(), None);
    assert_eq!(walk.results(), vec![]);
}

#[test]
fn keys_are_listed_breadth_first() {
    let (listed, _) = search(&tree(), "StarCraft");
    assert_eq!(
        listed,
        vec![
            "HKEY_LOCAL_MACHINE",
            "HKEY_LOCAL_MACHINE\\SOFTWARE",
            "HKEY_LOCAL_MACHINE\\SYSTEM",
            "HKEY_LOCAL_MACHINE\\SOFTWARE\\Blizzard",
            "HKEY_LOCAL_MACHINE\\SOFTWARE\\starcraft",
            "HKEY_LOCAL_MACHINE\\SYSTEM\\StarCraft",
            "HKEY_LOCAL_MACHINE\\SOFTWARE\\Blizzard\\StarCraft",
            "HKEY_LOCAL_MACHINE\\SOFTWARE\\Blizzard\\StarCraft II",
        ]
    );
}

#[test]
fn hits_are_matching_keys_that_have_the_value() {
    let (_, results) = search(&tree(), "StarCraft");
    assert_eq!(
        results,
        vec![
            ("HKEY_LOCAL_MACHINE\\SOFTWARE\\starcraft".to_string(), "D:\\Games\\SC".to_string()),
            (
                "HKEY_LOCAL_MACHINE\\SOFTWARE\\Blizzard\\StarCraft".to_string(),
                "E:\\SC".to_string()
            ),
        ]
    );
}

#[test]
fn search_without_a_match_yields_nothing() {
    let (listed, results) = search(&tree(), "WarCraft");
    assert_eq!(listed.len(), 8);
    assert_eq!(results, vec![]);
}

#[test]
fn unopened_subkey_leaves_no_trace() {
    let mut walk = RegistryWalk::new("R");
    assert_eq!(walk.next_key(), Some("R".to_string()));
    assert_eq!(walk.visit("R", "a", false, Some(true), Some("v".to_string())), None);
    assert_eq!(walk.next_key(), None);
    assert_eq!(walk.visit("R", "b", true, Some(false), Some("v".to_string())), None);
    assert_eq!(walk.visit("R", "c", true, None, Some("v".to_string())), None);
    assert_eq!(walk.visit("R", "d", true, Some(true), None), None);
    assert_eq!(
        walk.visit("R", "e", true, Some(true), Some("v".to_string())),
        Some(("R\\e".to_string(), "v".to_string()))
    );
    assert_eq!(walk.next_key(), Some("R\\b".to_string()));
    assert_eq!(walk.next_key(), Some("R\\c".to_string()));
    assert_eq!(walk.next_key(), Some("R\\d".to_string()));
    assert_eq!(walk.next_key(), Some("R\\e".to_string()));
    assert_eq!(walk.next_key(), None);
    assert_eq!(walk.results(), vec![("R\\e".to_string(), "v".to_string())]);
}

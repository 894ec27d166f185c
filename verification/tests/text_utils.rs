use mcc::text::{replace_str, str_contains};
use mcc::utils::{replace_map, replace_mcc_config, replace_mcc_config_with_user, Value};

#[test]
fn contains_finds_patterns() {
    assert!(str_contains("[12:00:00] [Server thread/INFO]: Done", "INFO]: "));
    assert!(!str_contains("abc", "abd"));
    assert!(str_contains("abc", ""));
    assert!(str_contains("", ""));
    assert!(!str_contains("ab", "abc"));
    assert!(str_contains("abc", "c"));
}

#[test]
fn replace_matches_from_the_left_without_overlap() {
    assert_eq!(replace_str("aaa", "aa", "b"), "ba");
    assert_eq!(replace_str("a[x]b[x]", "[x]", "1"), "a1b1");
    assert_eq!(replace_str("none here", "[x]", "1"), "none here");
    assert_eq!(replace_str("[x]", "[x]", ""), "");
    assert_eq!(replace_str("ééx", "x", "ü"), "ééü");
}

#[test]
fn replace_with_itself_changes_nothing() {
    assert_eq!(replace_str("a[x]b[x][x", "[x]", "[x]"), "a[x]b[x][x");
}

#[test]
fn replace_map_substitutes_each_placeholder() {
    let map = vec![
        ("var.version.id".to_string(), "1.20.1".to_string()),
        ("game".to_string(), "mc".to_string()),
    ];
    assert_eq!(
        replace_map("[game]/versions/[var.version.id]/[var.version.id].json", map),
        "mc/versions/1.20.1/1.20.1.json"
    );
}

#[test]
fn replace_map_applies_entries_in_order() {
    let first = vec![("a".to_string(), "[b]".to_string()), ("b".to_string(), "x".to_string())];
    assert_eq!(replace_map("[a]", first), "x");
    let second = vec![("b".to_string(), "x".to_string()), ("a".to_string(), "[b]".to_string())];
    assert_eq!(replace_map("[a]", second), "[b]");
}

#[test]
fn replace_map_with_empty_table_is_identity() {
    assert_eq!(replace_map("[env.dir]/java", vec![]), "[env.dir]/java");
}

#[test]
fn mcc_config_for_a_user() {
    assert_eq!(replace_mcc_config_with_user("[env.dir]/java", "steve"), "app/java");
    assert_eq!(
        replace_mcc_config_with_user("[appdata.roaming]/.minecraft/versions", "steve"),
        "C:\\Users\\steve\\AppData\\Roaming/.minecraft/versions"
    );
    assert_eq!(replace_mcc_config_with_user("[unknown]/x", "steve"), "[unknown]/x");
}

#[test]
fn mcc_config_for_the_running_user() {
    let resolved = replace_mcc_config("[appdata.roaming]/.minecraft");
    assert!(resolved.starts_with("C:\\Users\\"));
    assert!(resolved.ends_with("\\AppData\\Roaming/.minecraft"));
    assert_eq!(replace_mcc_config("[env.dir]"), "app");
}

#[test]
fn value_cell_holds_the_last_value() {
    let mut v = Value::new(3u32);
    assert_eq!(v.v, 3);
    v.set(7);
    assert_eq!(v.v, 7);
}

#[test]
fn joined_tables_substitute_in_turn() {
    let a = vec![("x".to_string(), "[y]".to_string())];
    let b = vec![("y".to_string(), "z".to_string())];
    let joined: Vec<(String, String)> = a.iter().cloned().chain(b.iter().cloned()).collect();
    let s = "[x]-[y]";
    assert_eq!(replace_map(s, joined), replace_map(&replace_map(s, a), b));
    assert_eq!(replace_map("[x]-[y]", vec![("x".to_string(), "[y]".to_string()), ("y".to_string(), "z".to_string())]), "z-z");
}

#[test]
fn two_entry_order_does_not_matter_on_placeholder_brackets() {
    let ab = vec![("env.dir".to_string(), "app".to_string()), ("appdata.roaming".to_string(), "C:\\Users\\u".to_string())];
    let ba = vec![("appdata.roaming".to_string(), "C:\\Users\\u".to_string()), ("env.dir".to_string(), "app".to_string())];
    let s = "[env.dir]/java;[appdata.roaming]/x]";
    assert_eq!(replace_map(s, ab), replace_map(s, ba));
}

#[test]
fn order_matters_when_a_bracket_opens_no_placeholder() {
    let ab = vec![("a".to_string(), "x".to_string()), ("x".to_string(), "y".to_string())];
    let ba = vec![("x".to_string(), "y".to_string()), ("a".to_string(), "x".to_string())];
    assert_eq!(replace_map("[[a]]", ab), "y");
    assert_eq!(replace_map("[[a]]", ba), "[x]");
}

#[test]
fn table_order_does_not_matter_on_flat_text() {
    let t = vec![
        ("a".to_string(), "x]".to_string()),
        ("b".to_string(), "y".to_string()),
        ("c".to_string(), "[c".to_string().replace('[', "(")),
    ];
    let s = "[a][b] [q] ]] [c][a";
    let orders = [[0, 1, 2], [0, 2, 1], [1, 0, 2], [1, 2, 0], [2, 0, 1], [2, 1, 0]];
    let first = replace_map(s, t.clone());
    for o in orders {
        let table: Vec<(String, String)> = o.iter().map(|&i| t[i].clone()).collect();
        assert_eq!(replace_map(s, table), first);
    }
    assert_eq!(first, "x]y [q] ]] (c[a");
}

use mcc::cache::Cache;
use mcc::logic::{add_new, profiles_indexed_list, profiles_list, to_list_item, to_list_state_valued};
use mcc::profiles::{Profile, Profiles, Resolution};

fn profile(name: &str, version: &str, typ: &str) -> Profile {
    let mut p = Profile::default();
    p.set_name(name.to_string());
    p.set_version_id(version.to_string());
    p.typ = typ.to_string();
    p
}

#[test]
fn default_profile_is_blank() {
    let p = Profile::default();
    assert_eq!(p.name, "");
    assert_eq!(p.lastVersionId, "");
    assert!(p.gameDir.is_none() && p.javaDir.is_none() && p.javaArgs.is_none() && p.icon.is_none());
    assert!(p.resolution.is_none());
    let r = Resolution::default();
    assert_eq!((r.height, r.width), (0, 0));
}

#[test]
fn setters_change_one_field() {
    let mut p = profile("a", "1.0", "custom");
    p.set_game_dir(Some("/games".to_string()));
    p.set_java_dir(Some("/jdk".to_string()));
    p.set_java_args(Some("-Xmx2G".to_string()));
    assert_eq!(p.gameDir.as_deref(), Some("/games"));
    assert_eq!(p.javaDir.as_deref(), Some("/jdk"));
    assert_eq!(p.javaArgs.as_deref(), Some("-Xmx2G"));
    p.set_java_args(None);
    assert!(p.javaArgs.is_none());
    assert_eq!(p.name, "a");
    assert_eq!(p.lastVersionId, "1.0");
}

#[test]
fn add_then_read_back() {
    let mut t = Profiles::new();
    t.add(profile("one", "1.0", "custom"), "k1");
    t.add(profile("two", "2.0", "release"), "k2");
    t.add(profile("three", "3.0", "custom"), "k1");
    let entries = t.into_entries();
    assert_eq!(entries.len(), 2);
    assert_eq!(entries[0].0, "k1");
    assert_eq!(entries[0].1.name, "three");
    assert_eq!(entries[1].0, "k2");
    assert_eq!(entries[1].1.name, "two");
}

#[test]
fn remove_undoes_add() {
    let mut t = Profiles::new();
    t.add(profile("one", "1.0", "custom"), "k1");
    t.add(profile("two", "2.0", "release"), "k2");
    t.remove("k1");
    t.remove("absent");
    let entries = t.into_entries();
    assert_eq!(entries.len(), 1);
    assert_eq!(entries[0].0, "k2");
}

#[test]
fn lists_of_profiles() {
    let mut t = Profiles::new();
    t.add(profile("one", "1.0", "custom"), "k1");
    t.add(profile("two", "2.0", "release"), "k2");
    assert_eq!(profiles_list(t), vec!["k1 : 1.0 : custom".to_string(), "k2 : 2.0 : release".to_string()]);

    let mut t = Profiles::new();
    t.add(profile("one", "1.0", "custom"), "k1");
    t.add(profile("two", "2.0", "release"), "k2");
    let listed = profiles_indexed_list(t);
    assert_eq!(listed.len(), 2);
    assert_eq!(listed[0].name, "one");
    assert_eq!(listed[1].name, "two");
}

#[test]
fn list_entries_of_profiles() {
    let items = to_list_state_valued(vec![profile("one", "1.0", "custom"), profile("two", "2.0", "release")]);
    assert_eq!(items.len(), 2);
    assert_eq!(items[0].clone().get_list_item(), "one : custom");
    assert_eq!(items[1].clone().get_value().name, "two");
    assert_eq!(to_list_item(items), vec!["one : 1.0 : custom".to_string(), "two : 2.0 : release".to_string()]);
}

#[test]
fn add_new_files_under_the_name() {
    let mut t = Profiles::new();
    add_new(&mut t, profile("fresh", "1.21", "custom"));
    add_new(&mut t, profile("fresh", "1.20", "custom"));
    let entries = t.into_entries();
    assert_eq!(entries.len(), 1);
    assert_eq!(entries[0].0, "fresh");
    assert_eq!(entries[0].1.lastVersionId, "1.20");
}

#[test]
fn cache_file_path() {
    let c = Cache::new("versions".to_string(), "tmp/cache".to_string());
    assert_eq!(c.full_path(), "tmp/cache/versions.cache");
    assert_eq!(c.dir(), "tmp/cache");
}

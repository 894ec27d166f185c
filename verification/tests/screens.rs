use std::sync::atomic::{AtomicUsize, Ordering};
use mcc::components::{key_controller, shortcut, shortcuts_controller, BorderColor, Component, Handle, HintStyle, Rgb, ShortcutPartKind, StatefulList};
use mcc::launch::{launch_paths, stage_label, stage_progress, InstallStage};
use mcc::screens::{key_is_due, settings_leaves, Key, MainAction, MainState, ProfileEditor};

fn focused(s: &MainState) -> (bool, bool, bool, bool) {
    (s.console, s.user, s.profiles, s.user_name_conf)
}

#[test]
fn focus_moves_between_panels() {
    let mut s = MainState::new("steve".to_string());
    s.init_components();
    assert_eq!(focused(&s), (false, false, true, false));
    assert!(s.on_key(Key::Right).is_empty());
    assert_eq!(focused(&s), (false, true, false, false));
    assert!(s.on_key(Key::Right).is_empty());
    assert_eq!(focused(&s), (true, false, false, false));
    assert!(s.on_key(Key::Tab).is_empty());
    assert_eq!(focused(&s), (false, false, true, false));
    s.on_key(Key::Right);
    s.on_key(Key::Down);
    assert_eq!(focused(&s), (false, false, false, true));
    s.on_key(Key::Down);
    assert_eq!(focused(&s), (false, true, false, false));
    s.on_key(Key::Left);
    assert_eq!(focused(&s), (false, false, true, false));
}

#[test]
fn profiles_panel_actions() {
    let mut s = MainState::new(String::new());
    s.init_components();
    assert_eq!(s.on_key(Key::Down), vec![MainAction::ListNext]);
    assert_eq!(s.on_key(Key::Up), vec![MainAction::ListPrevious]);
    assert_eq!(s.on_key(Key::Enter), vec![MainAction::Launch]);
    assert_eq!(s.on_key(Key::Char('c')), vec![MainAction::OpenProfileEditor]);
    assert_eq!(s.on_key(Key::F(2)), vec![MainAction::OpenSettings]);
    assert_eq!(s.on_key(Key::Char('q')), vec![MainAction::Quit]);
}

#[test]
fn user_name_is_typed_and_saved() {
    let mut s = MainState::new("ab".to_string());
    s.init_components();
    s.on_key(Key::Right);
    s.on_key(Key::Down);
    assert_eq!(s.on_key(Key::Char('q')), vec![MainAction::SaveUserName]);
    assert_eq!(s.user_name, "abq");
    assert_eq!(s.on_key(Key::Backspace), vec![MainAction::SaveUserName]);
    s.on_key(Key::Backspace);
    s.on_key(Key::Backspace);
    s.on_key(Key::Backspace);
    assert_eq!(s.user_name, "");
}

#[test]
fn console_scrolls_and_anchors() {
    let mut s = MainState::new(String::new());
    s.init_components();
    s.on_key(Key::Right);
    s.on_key(Key::Right);
    s.console_anchor_logic(40);
    assert_eq!(s.scroll_y, 23);
    s.on_key(Key::Left);
    assert_eq!(s.scroll_x, 0);
    s.on_key(Key::Right);
    s.on_key(Key::Right);
    s.on_key(Key::Left);
    assert_eq!(s.scroll_x, 1);
    s.on_key(Key::Down);
    assert!(!s.anchor);
    assert_eq!(s.scroll_y, 24);
    s.console_anchor_logic(40);
    assert_eq!(s.scroll_y, 24);
    s.on_key(Key::Up);
    s.on_key(Key::Char('a'));
    assert!(s.anchor);
    s.console_anchor_logic(10);
    assert_eq!(s.scroll_y, 0);
    assert_eq!(s.on_key(Key::Char('c')), vec![MainAction::ClearHistory]);
    assert_eq!(s.on_key(Key::Char('q')), vec![MainAction::Quit]);
}

#[test]
fn re_entering_the_main_screen_keeps_other_focus() {
    let mut s = MainState::new(String::new());
    s.init_components();
    s.on_key(Key::Right);
    s.on_key(Key::Right);
    assert_eq!(s.on_key(Key::F(2)), vec![MainAction::OpenSettings]);
    s.init_components();
    assert_eq!(focused(&s), (true, false, true, false));
    assert_eq!(s.on_key(Key::Char('c')), vec![MainAction::ClearHistory, MainAction::OpenProfileEditor]);
}

#[test]
fn profile_editor_fields() {
    let mut e = ProfileEditor::new();
    e.enter();
    assert!(!e.on_key(Key::Char('m')));
    e.on_key(Key::Char('y'));
    e.on_key(Key::Backspace);
    assert_eq!(e.profile.name, "m");
    e.on_key(Key::Down);
    assert!(e.version_active && !e.name_active);
    e.on_key(Key::Char('1'));
    e.on_key(Key::Char('.'));
    e.on_key(Key::Char('2'));
    assert_eq!(e.profile.lastVersionId, "1.2");
    assert_eq!(e.profile.name, "m");
    assert!(e.on_key(Key::Tab));
    e.enter();
    assert!(e.name_active && e.version_active);
    assert_eq!(e.profile.name, "");
    e.on_key(Key::Char('z'));
    assert_eq!(e.profile.name, "z");
    assert_eq!(e.profile.lastVersionId, "z");
}

#[test]
fn settings_screen_keys() {
    assert!(settings_leaves(Key::F(1)));
    assert!(!settings_leaves(Key::F(2)));
    assert!(!settings_leaves(Key::Char('q')));
}

fn ignore(_: u8) {}

#[test]
fn components_focus_and_shortcuts() {
    let mut a: Component<&str, fn(u8)> = Component::new(vec![vec!["a"]]);
    let mut b: Component<&str, fn(u8)> = Component::new(vec![vec!["b"], vec!["bb"]]);
    assert_eq!(a.border(), BorderColor::Gray);
    b.set_active(true);
    assert_eq!(b.border(), BorderColor::White);
    assert!(b.clone().active());
    assert_eq!(shortcuts_controller(vec![a.clone(), b.clone()]), vec![vec!["b"], vec!["bb"]]);
    assert!(shortcuts_controller(vec![a.clone()]).is_empty());
    a.set_key_handle(Handle::new(ignore as fn(u8)));
    b.set_key_handle(Handle::new(ignore as fn(u8)));
    assert_eq!(key_controller(vec![a.clone(), b.clone()], 7u8), vec![1]);
    a.set_active(true);
    assert_eq!(key_controller(vec![a.clone(), b.clone()], 7u8), vec![0, 1]);
    assert!(b.launch_key_event(1u8));
    assert_eq!(a.get_shortcuts(), vec![vec!["a"]]);
}

#[test]
fn shortcut_hint_parts() {
    let parts = shortcut("[q]", " Quit");
    assert_eq!(parts.len(), 3);
    assert_eq!(parts[0].text, "[q]");
    assert_eq!(parts[0].kind, ShortcutPartKind::Key);
    assert_eq!(parts[1].text, " Quit");
    assert_eq!(parts[1].kind, ShortcutPartKind::Description);
    assert_eq!(parts[2].text, "  ");
    assert_eq!(parts[2].kind, ShortcutPartKind::Gap);
    assert_eq!(parts[0].style, Some(HintStyle { bg: Rgb(19, 78, 191), fg: Rgb(251, 251, 238), bold: true }));
    assert_eq!(parts[1].style, Some(HintStyle { bg: Rgb(19, 78, 191), fg: Rgb(251, 251, 238), bold: false }));
    assert_eq!(parts[2].style, None);
}

#[test]
fn list_selection_wraps_around() {
    let mut l = StatefulList::with_items(vec!["a", "b", "c"]);
    assert_eq!(l.selected, None);
    l.next();
    assert_eq!(l.selected, Some(0));
    l.next();
    l.next();
    assert_eq!(l.selected, Some(2));
    l.next();
    assert_eq!(l.selected, Some(0));
    l.previous();
    assert_eq!(l.selected, Some(2));
    l.previous();
    assert_eq!(l.selected, Some(1));
    let mut m = StatefulList::with_items(vec![1]);
    m.previous();
    assert_eq!(m.selected, Some(0));
    m.previous();
    assert_eq!(m.selected, Some(0));
    assert_eq!(m.items, vec![1]);
}

#[test]
fn install_stages_on_the_bar() {
    let mut p = stage_progress(InstallStage::CheckingManifest, 40);
    assert_eq!(p, 0);
    assert_eq!(stage_label(InstallStage::CheckingManifest), " :Checking manifest");
    for (stage, label) in [
        (InstallStage::ClientJson, " :client.json 1/5"),
        (InstallStage::Java, " :java 2/5"),
        (InstallStage::Jar, " :jar 3/5"),
        (InstallStage::Assets, " :assets 4/5"),
    ] {
        p = stage_progress(stage, p);
        assert_eq!(stage_label(stage), label);
    }
    assert_eq!(p, 100);
    assert_eq!(stage_progress(InstallStage::Libraries, 63), 63);
    assert_eq!(stage_label(InstallStage::Libraries), " :libraries 5/5");
    assert_eq!(stage_progress(InstallStage::Running, 63), 0);
    assert_eq!(stage_label(InstallStage::Running), " :Running");
}

#[test]
fn version_paths() {
    let p = launch_paths(
        "1.20.1",
        "R/.minecraft/versions",
        "R/.minecraft/versions/[var.version.id]/libraries",
        "R/.minecraft/versions/[var.version.id]/[var.version.id].json",
        "R/.minecraft/versions/[var.version.id]/[var.version.id].jar",
        "R/.minecraft/versions/[var.version.id]/bin",
    );
    assert_eq!(p.version_dir, "R/.minecraft/versions/1.20.1");
    assert_eq!(p.libraries, "R/.minecraft/versions/1.20.1/libraries");
    assert_eq!(p.json_file, "R/.minecraft/versions/1.20.1/1.20.1.json");
    assert_eq!(p.jar_file, "R/.minecraft/versions/1.20.1/1.20.1.jar");
    assert_eq!(p.bin, "R/.minecraft/versions/1.20.1/bin");
}

#[test]
fn keys_are_due_only_after_the_debounce_time() {
    assert!(key_is_due(110_000_001, 110_000_000));
    assert!(!key_is_due(110_000_000, 110_000_000));
    assert!(!key_is_due(5, 20_000_000));
}

static CALLS: AtomicUsize = AtomicUsize::new(0);

fn record(x: u8) {
    CALLS.fetch_add(x as usize, Ordering::SeqCst);
}

#[test]
fn key_controller_runs_focused_handlers_in_order() {
    let mut a: Component<&str, fn(u8)> = Component::new(vec![]);
    let mut b: Component<&str, fn(u8)> = Component::new(vec![]);
    let mut c: Component<&str, fn(u8)> = Component::new(vec![]);
    a.set_active(true);
    c.set_active(true);
    a.set_key_handle(Handle::new(record as fn(u8)));
    b.set_key_handle(Handle::new(record as fn(u8)));
    assert_eq!(key_controller(vec![a.clone(), b.clone(), c.clone()], 1u8), vec![0]);
    assert_eq!(CALLS.load(Ordering::SeqCst), 1);
    c.set_key_handle(Handle::new(record as fn(u8)));
    assert_eq!(key_controller(vec![a, b, c.clone()], 1u8), vec![0, 2]);
    assert_eq!(CALLS.load(Ordering::SeqCst), 3);
    assert!(c.launch_key_event(4u8));
    assert_eq!(CALLS.load(Ordering::SeqCst), 7);
}

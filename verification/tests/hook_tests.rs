//! Tests for the manager facade, the hook dispatcher and the ready-made
//! hooks.

use wm_core::client::Client;
use wm_core::contrib::{ActiveClientAsRootName, DefaultWorkspace, LayoutSymbolAsRootName};
use wm_core::data_types::Selector;
use wm_core::hooks::HookDispatcher;
use wm_core::manager::WindowManager;
use wm_core::workspace::Workspace;

type Dispatcher = HookDispatcher<ActiveClientAsRootName, LayoutSymbolAsRootName, DefaultWorkspace>;

fn ws(name: &str, layouts: &[&str]) -> Workspace {
    let symbols: Vec<String> = layouts.iter().map(|s| String::from(*s)).collect();
    Workspace::new(String::from(name), symbols)
}

fn strings(v: &[&str]) -> Vec<String> {
    v.iter().map(|s| String::from(*s)).collect()
}

#[test]
fn workspace_starts_on_first_layout_with_no_clients() {
    let w = ws("term", &["[]=", "|||"]);
    assert_eq!(w.name().as_str(), "term");
    assert_eq!(w.len(), 0);
    assert_eq!(w.layout_symbol().as_str(), "[]=");
}

#[test]
fn workspace_add_client_grows_in_order() {
    let mut w = ws("term", &["[]="]);
    w.add_client(11);
    w.add_client(22);
    assert_eq!(w.len(), 2);
    assert_eq!(w.clients().as_slice(), &[11, 22]);
}

#[test]
fn try_set_layout_picks_first_match() {
    let mut w = ws("term", &["[]=", "|||", "[]="]);
    assert!(w.try_set_layout(&String::from("|||")));
    assert_eq!(w.layout_symbol().as_str(), "|||");
    assert!(w.try_set_layout(&String::from("[]=")));
    assert_eq!(w.layout_symbol().as_str(), "[]=");
}

#[test]
fn try_set_layout_rejects_unknown_symbol() {
    let mut w = ws("term", &["[]=", "|||"]);
    assert!(w.try_set_layout(&String::from("|||")));
    assert!(!w.try_set_layout(&String::from("???")));
    assert_eq!(w.layout_symbol().as_str(), "|||");
}

#[test]
fn manager_tracks_root_name_and_spawns() {
    let mut wm = WindowManager::new(vec![ws("main", &["[]="])]);
    assert_eq!(wm.root_window_name().as_str(), "");
    wm.set_root_window_name("hello");
    assert_eq!(wm.root_window_name().as_str(), "hello");

    assert!(wm.spawn_requests().is_empty());
    wm.spawn("firefox");
    wm.spawn("st");
    assert_eq!(wm.spawn_requests().as_slice(), &[String::from("firefox"), String::from("st")]);

    let drained = wm.take_spawn_requests();
    assert_eq!(drained.as_slice(), &[String::from("firefox"), String::from("st")]);
    assert!(wm.spawn_requests().is_empty());
}

#[test]
fn manager_resolves_selectors() {
    let mut wm = WindowManager::new(vec![ws("one", &["[]="]), ws("two", &["|||"])]);
    assert_eq!(wm.workspace_index(&Selector::Index(0)), Some(0));
    assert_eq!(wm.workspace_index(&Selector::Index(1)), Some(1));
    assert_eq!(wm.workspace_index(&Selector::Index(2)), None);
    assert_eq!(wm.workspace_index(&Selector::Focused), Some(0));

    assert!(wm.focus_workspace(1));
    assert_eq!(wm.workspace_index(&Selector::Focused), Some(1));
    assert!(!wm.focus_workspace(5));
    assert_eq!(wm.focused_workspace_index(), 1);
}

#[test]
fn current_layout_symbol_follows_focused_workspace() {
    let mut wm = WindowManager::new(vec![ws("one", &["[]="]), ws("two", &["|||"])]);
    assert_eq!(wm.current_layout_symbol().as_str(), "[]=");
    assert!(wm.focus_workspace(1));
    assert_eq!(wm.current_layout_symbol().as_str(), "|||");
}

#[test]
fn active_client_as_root_name_uses_client_name() {
    let mut wm = WindowManager::new(vec![ws("main", &["[]="])]);
    let mut d = Dispatcher::new();
    d.register_new_client_hook(ActiveClientAsRootName::new());

    let mut c = Client::new(1, Some(String::from("firefox")), String::from("Firefox"), false);
    d.fire_new_client(&mut wm, &mut c);
    assert_eq!(wm.root_window_name().as_str(), "firefox");
}

#[test]
fn active_client_as_root_name_uses_placeholder_without_name() {
    let mut wm = WindowManager::new(vec![ws("main", &["[]="])]);
    let mut d = Dispatcher::new();
    d.register_new_client_hook(ActiveClientAsRootName::new());

    let mut c = Client::new(2, None, String::from("Firefox"), false);
    d.fire_new_client(&mut wm, &mut c);
    assert_eq!(wm.root_window_name().as_str(), "n/a");
}

#[test]
fn layout_symbol_as_root_name_reads_active_workspace() {
    let mut wm = WindowManager::new(vec![ws("one", &["[]="]), ws("two", &["|||"])]);
    let mut d = Dispatcher::new();
    d.register_layout_change_hook(LayoutSymbolAsRootName::new());

    d.fire_layout_change(&mut wm, 0, 0);
    assert_eq!(wm.root_window_name().as_str(), "[]=");

    assert!(wm.focus_workspace(1));
    d.fire_layout_change(&mut wm, 1, 0);
    assert_eq!(wm.root_window_name().as_str(), "|||");
}

#[test]
fn default_workspace_readies_an_empty_matching_workspace() {
    let mut wm = WindowManager::new(vec![ws("main", &["[]="]), ws("www", &["|||", "[]="])]);
    let mut d = Dispatcher::new();
    d.register_workspace_change_hook(DefaultWorkspace::new(
        String::from("www"),
        String::from("[]="),
        strings(&["firefox"]),
    ));

    assert!(wm.focus_workspace(1));
    d.fire_workspace_change(&mut wm, 0, 1);

    assert_eq!(wm.workspace(1).layout_symbol().as_str(), "[]=");
    assert_eq!(wm.spawn_requests().as_slice(), &[String::from("firefox")]);
}

#[test]
fn default_workspace_ignores_an_occupied_workspace() {
    let mut target = ws("www", &["|||", "[]="]);
    target.add_client(9);
    let mut wm = WindowManager::new(vec![ws("main", &["[]="]), target]);
    let mut d = Dispatcher::new();
    d.register_workspace_change_hook(DefaultWorkspace::new(
        String::from("www"),
        String::from("[]="),
        strings(&["firefox"]),
    ));

    d.fire_workspace_change(&mut wm, 0, 1);

    assert_eq!(wm.workspace(1).layout_symbol().as_str(), "|||");
    assert!(wm.spawn_requests().is_empty());
}

#[test]
fn default_workspace_ignores_a_name_mismatch() {
    let mut wm = WindowManager::new(vec![ws("main", &["[]="]), ws("mail", &["|||"])]);
    let mut d = Dispatcher::new();
    d.register_workspace_change_hook(DefaultWorkspace::new(
        String::from("www"),
        String::from("[]="),
        strings(&["firefox"]),
    ));

    d.fire_workspace_change(&mut wm, 0, 1);

    assert_eq!(wm.workspace(1).layout_symbol().as_str(), "|||");
    assert!(wm.spawn_requests().is_empty());
}

#[test]
fn default_workspace_survives_a_selector_miss() {
    let mut wm = WindowManager::new(vec![ws("main", &["[]="])]);
    let mut d = Dispatcher::new();
    d.register_workspace_change_hook(DefaultWorkspace::new(
        String::from("www"),
        String::from("[]="),
        strings(&["firefox"]),
    ));

    d.fire_workspace_change(&mut wm, 0, 7);

    assert!(wm.spawn_requests().is_empty());
    assert_eq!(wm.workspace(0).layout_symbol().as_str(), "[]=");
}

#[test]
fn default_workspace_spawns_even_when_the_layout_is_unknown() {
    let mut wm = WindowManager::new(vec![ws("www", &["|||"])]);
    let mut d = Dispatcher::new();
    d.register_workspace_change_hook(DefaultWorkspace::new(
        String::from("www"),
        String::from("[]="),
        strings(&["firefox"]),
    ));

    d.fire_workspace_change(&mut wm, 0, 0);

    // the unknown symbol is a local failure: the layout stays, the spawn runs
    assert_eq!(wm.workspace(0).layout_symbol().as_str(), "|||");
    assert_eq!(wm.spawn_requests().as_slice(), &[String::from("firefox")]);
}

#[test]
fn default_workspace_spawns_programs_in_configured_order() {
    let mut wm = WindowManager::new(vec![ws("www", &["[]="])]);
    let mut d = Dispatcher::new();
    d.register_workspace_change_hook(DefaultWorkspace::new(
        String::from("www"),
        String::from("[]="),
        strings(&["firefox", "thunderbird", "st"]),
    ));

    d.fire_workspace_change(&mut wm, 0, 0);

    assert_eq!(
        wm.spawn_requests().as_slice(),
        &[String::from("firefox"), String::from("thunderbird"), String::from("st")],
    );
}

#[test]
fn hooks_fire_in_registration_order_once_each() {
    let mut wm = WindowManager::new(vec![ws("www", &["[]="])]);
    let mut d = Dispatcher::new();
    d.register_workspace_change_hook(DefaultWorkspace::new(
        String::from("www"),
        String::from("[]="),
        strings(&["first"]),
    ));
    d.register_workspace_change_hook(DefaultWorkspace::new(
        String::from("www"),
        String::from("[]="),
        strings(&["second"]),
    ));

    d.fire_workspace_change(&mut wm, 0, 0);

    // both hooks matched the still-empty workspace: one spawn each, in
    // registration order
    assert_eq!(wm.spawn_requests().as_slice(), &[String::from("first"), String::from("second")]);
}

#[test]
fn hook_registration_order_decides_dispatch_order() {
    let mut wm = WindowManager::new(vec![ws("www", &["[]="])]);
    let mut d = Dispatcher::new();
    d.register_workspace_change_hook(DefaultWorkspace::new(
        String::from("www"),
        String::from("[]="),
        strings(&["second"]),
    ));
    d.register_workspace_change_hook(DefaultWorkspace::new(
        String::from("www"),
        String::from("[]="),
        strings(&["first"]),
    ));

    d.fire_workspace_change(&mut wm, 0, 0);

    assert_eq!(wm.spawn_requests().as_slice(), &[String::from("second"), String::from("first")]);
}

#[test]
fn firing_without_hooks_changes_nothing() {
    let mut wm = WindowManager::new(vec![ws("main", &["[]="])]);
    let mut d = Dispatcher::new();
    let mut c = Client::new(1, Some(String::from("firefox")), String::from("Firefox"), false);

    d.fire_new_client(&mut wm, &mut c);
    d.fire_layout_change(&mut wm, 0, 0);
    d.fire_workspace_change(&mut wm, 0, 0);

    assert_eq!(wm.root_window_name().as_str(), "");
    assert!(wm.spawn_requests().is_empty());
}

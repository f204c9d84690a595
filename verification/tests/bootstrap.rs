use timeapp_ui::bootstrap::{executable_plan, library_plan};
use timeapp_ui::menu::{quit_entry, tray_menu};
use timeapp_ui::plugins::{executable_plugins, library_plugins, Launcher, LogLevel, PluginConfig};

#[test]
fn library_plugins_debug_attaches_info_log() {
    let ps = library_plugins(true);
    assert_eq!(ps.len(), 1);
    match &ps[0] {
        PluginConfig::Log { level } => assert_eq!(*level, LogLevel::Info),
        other => panic!("expected a log plugin, got {:?}", other),
    }
}

#[test]
fn library_plugins_release_attaches_none() {
    let ps = library_plugins(false);
    assert_eq!(ps.len(), 0);
}

#[test]
fn executable_plugins_single_plain_login_agent_autostart() {
    let ps = executable_plugins();
    assert_eq!(ps.len(), 1);
    match &ps[0] {
        PluginConfig::Autostart { launcher, args } => {
            assert_eq!(*launcher, Launcher::LaunchAgent);
            assert!(args.is_none());
        }
        other => panic!("expected an autostart plugin, got {:?}", other),
    }
}

#[test]
fn quit_entry_is_enabled_quit() {
    let e = quit_entry();
    assert_eq!(e.id, "quit");
    assert_eq!(e.label, "Quit");
    assert!(e.enabled);
}

#[test]
fn tray_menu_holds_exactly_the_quit_entry() {
    let m = tray_menu();
    assert_eq!(m.entries.len(), 1);
    assert_eq!(m.entries[0].id, "quit");
    assert_eq!(m.entries[0].label, "Quit");
    assert!(m.entries[0].enabled);
}

#[test]
fn library_plan_debug_matches_plugin_set() {
    let p = library_plan(true);
    assert_eq!(p.plugins.len(), 1);
    assert!(matches!(p.plugins[0], PluginConfig::Log { level: LogLevel::Info }));
}

#[test]
fn library_plan_release_is_bare() {
    let p = library_plan(false);
    assert!(p.plugins.is_empty());
}

#[test]
fn executable_plan_has_autostart_and_tray() {
    let p = executable_plan();
    assert_eq!(p.plugins.len(), 1);
    assert!(matches!(
        p.plugins[0],
        PluginConfig::Autostart { launcher: Launcher::LaunchAgent, args: None }
    ));
    assert_eq!(p.tray.entries.len(), 1);
    assert_eq!(p.tray.entries[0].id, "quit");
    assert_eq!(p.tray.entries[0].label, "Quit");
    assert!(p.tray.entries[0].enabled);
}

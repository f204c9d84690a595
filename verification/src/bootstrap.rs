//! The two composition roots: what each entry point asks the application
//! framework to assemble before the event loop starts.

use vstd::prelude::*;
use crate::menu::{quit_id, quit_label, tray_menu, TrayMenu};
use crate::plugins::{
    executable_plugins, library_plugins, spec_executable_plugins, spec_library_plugins,
    PluginConfig,
};

verus! {

/// The library entry point's plan: plugins only, no tray.
pub struct LibraryPlan {
    pub plugins: Vec<PluginConfig>,
}

/// The executable entry point's plan: plugins, and the tray menu that the
/// setup callback installs.
pub struct ExecutablePlan {
    pub plugins: Vec<PluginConfig>,
    pub tray: TrayMenu,
}

/// Builds the library entry point's plan for the given build kind: in a
/// debug build one logging plugin at informational severity, in a release
/// build no plugin at all. Construction itself cannot fail.
pub fn library_plan(debug: bool) -> (p: LibraryPlan)
    ensures
        p.plugins@ == spec_library_plugins(debug),
{
    LibraryPlan { plugins: library_plugins(debug) }
}

/// Builds the executable entry point's plan: exactly one autostart plugin,
/// login-agent style with no extra arguments, and a tray menu holding the
/// single enabled quit entry. Construction itself cannot fail.
pub fn executable_plan() -> (p: ExecutablePlan)
    ensures
        p.plugins@ == spec_executable_plugins(),
        p.tray.entries@.len() == 1,
        p.tray.entries@[0].id@ == quit_id(),
        p.tray.entries@[0].label@ == quit_label(),
        p.tray.entries@[0].enabled,
        p.tray.wf(),
{
    ExecutablePlan { plugins: executable_plugins(), tray: tray_menu() }
}

} // verus!

//! The tray menu definition: one "Quit" entry.

use vstd::prelude::*;

verus! {

/// The identifier of the quit entry.
pub open spec fn quit_id() -> Seq<char> {
    "quit"@
}

/// The display label of the quit entry.
pub open spec fn quit_label() -> Seq<char> {
    "Quit"@
}

/// One entry of the tray menu: an identifier the event handler matches on,
/// a display label, and whether the entry can be selected.
pub struct MenuEntry {
    pub id: String,
    pub label: String,
    pub enabled: bool,
}

/// The menu attached to the tray icon.
pub struct TrayMenu {
    pub entries: Vec<MenuEntry>,
}

impl TrayMenu {
    /// Entry identifiers are unique, so an event names at most one entry.
    pub open spec fn wf(self) -> bool {
        forall|i: int, j: int|
            0 <= i < j < self.entries@.len() ==> self.entries@[i].id@ != self.entries@[j].id@
    }
}

/// The quit entry: identifier "quit", label "Quit", enabled, no accelerator.
pub fn quit_entry() -> (e: MenuEntry)
    ensures
        e.id@ == quit_id(),
        e.label@ == quit_label(),
        e.enabled,
{
    MenuEntry { id: "quit".to_owned(), label: "Quit".to_owned(), enabled: true }
}

/// The whole tray menu: exactly one entry, the quit entry.
pub fn tray_menu() -> (m: TrayMenu)
    ensures
        m.entries@.len() == 1,
        m.entries@[0].id@ == quit_id(),
        m.entries@[0].label@ == quit_label(),
        m.entries@[0].enabled,
        m.wf(),
{
    let mut entries: Vec<MenuEntry> = Vec::new();
    entries.push(quit_entry());
    TrayMenu { entries }
}

} // verus!

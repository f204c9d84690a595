//! The shell's event handling: what each menu event makes the process do,
//! and the phases the shell passes through.

use vstd::prelude::*;
use crate::menu::quit_id;
use crate::text::str_eq;

verus! {

/// What the shell does in response to a menu event.
#[derive(Clone, Copy, Debug, PartialEq, Eq, Structural)]
pub enum MenuAction {
    /// Terminate the whole process immediately with the given exit code,
    /// skipping any graceful shutdown.
    Exit { code: i32 },
    /// Leave the process running; the event names no entry of ours.
    Ignore,
}

/// The phases of the shell, in the order it passes through them.
#[derive(Clone, Copy, Debug, PartialEq, Eq, Structural)]
pub enum ShellPhase {
    /// Before the setup callback has built the tray.
    Uninitialized,
    /// The tray is installed and the event loop is running.
    TrayActive,
    /// The process is being torn down.
    Terminated,
}

/// An event the event loop hands to the shell.
#[derive(Debug)]
pub enum ShellEvent {
    /// The setup callback finished building the menu and the tray icon.
    SetupCompleted,
    /// A menu entry with the given identifier was selected.
    MenuSelected { id: String },
}

/// The action taken for a menu event: selecting the quit entry terminates
/// the process with exit code 0, any other identifier is ignored.
pub open spec fn spec_menu_action(id: Seq<char>) -> MenuAction {
    if id == quit_id() {
        MenuAction::Exit { code: 0 }
    } else {
        MenuAction::Ignore
    }
}

/// Decides what a menu event with the given entry identifier does.
pub fn menu_event_action(id: &str) -> (a: MenuAction)
    ensures
        a == spec_menu_action(id@),
{
    if str_eq(id, "quit") {
        MenuAction::Exit { code: 0 }
    } else {
        MenuAction::Ignore
    }
}

/// One step of the shell: from the current phase and an incoming event to
/// the next phase and the action the event loop must carry out.
pub open spec fn spec_step(phase: ShellPhase, event: ShellEvent) -> (ShellPhase, MenuAction) {
    match (phase, event) {
        (ShellPhase::Uninitialized, ShellEvent::SetupCompleted) => (
            ShellPhase::TrayActive,
            MenuAction::Ignore,
        ),
        (ShellPhase::TrayActive, ShellEvent::MenuSelected { id }) => if id@ == quit_id() {
            (ShellPhase::Terminated, MenuAction::Exit { code: 0 })
        } else {
            (ShellPhase::TrayActive, MenuAction::Ignore)
        },
        _ => (phase, MenuAction::Ignore),
    }
}

/// Advances the shell by one event.
pub fn step(phase: ShellPhase, event: &ShellEvent) -> (r: (ShellPhase, MenuAction))
    ensures
        r == spec_step(phase, *event),
{
    match (phase, event) {
        (ShellPhase::Uninitialized, ShellEvent::SetupCompleted) => (
            ShellPhase::TrayActive,
            MenuAction::Ignore,
        ),
        (ShellPhase::TrayActive, ShellEvent::MenuSelected { id }) => {
            match menu_event_action(id.as_str()) {
                MenuAction::Exit { code } => (ShellPhase::Terminated, MenuAction::Exit { code }),
                MenuAction::Ignore => (ShellPhase::TrayActive, MenuAction::Ignore),
            }
        },
        _ => (phase, MenuAction::Ignore),
    }
}

/// Selecting the quit entry while the tray is active terminates the
/// process with exit code 0.
pub proof fn lemma_quit_terminates(id: String)
    requires
        id@ == quit_id(),
    ensures
        spec_step(ShellPhase::TrayActive, ShellEvent::MenuSelected { id }) == (
            ShellPhase::Terminated,
            (MenuAction::Exit { code: 0 }),
        ),
{
}

/// A menu event whose identifier is not "quit" leaves the shell running
/// and unchanged.
pub proof fn lemma_other_event_ignored(id: String)
    requires
        id@ != quit_id(),
    ensures
        spec_step(ShellPhase::TrayActive, ShellEvent::MenuSelected { id }) == (
            ShellPhase::TrayActive,
            MenuAction::Ignore,
        ),
{
}

/// The only way the shell ever asks for the process to end is with exit
/// code 0, and only on the quit entry from the active tray.
pub proof fn lemma_exit_only_quit_and_zero(phase: ShellPhase, event: ShellEvent)
    ensures
        spec_step(phase, event).1 is Exit ==> {
            &&& spec_step(phase, event).1->code == 0
            &&& phase == ShellPhase::TrayActive
            &&& event matches ShellEvent::MenuSelected { id } && id@ == quit_id()
        },
{
}

} // verus!

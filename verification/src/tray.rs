//! The close-action setting and the tray decisions that depend on it.
//!
//! The user chooses whether closing the main window minimizes the
//! application to the tray or exits it.  The setting is kept in an explicit
//! store injected by the host instead of ambient global state; the host
//! applies the returned directives to the real tray and window.

use vstd::prelude::*;

verus! {

/// The stored close behaviour.  `"minimize"` hides to the tray; anything
/// else — including the initial empty value — exits.
pub struct CloseSettings {
    pub action: String,
}

/// What the host must do with the tray after the setting changed.
#[derive(Clone, Copy, Debug, PartialEq, Eq)]
pub enum TrayDirective {
    /// Install the show/quit menu and make the tray icon visible.
    ShowWithMenu,
    /// Hide the tray icon.
    Hide,
}

/// Why a close-action change could not be applied.
#[derive(Clone, Copy, Debug, PartialEq, Eq)]
pub enum TrayUpdateError {
    /// The host has no system tray to configure.
    TrayUnavailable,
}

/// What the host does when the user asks to close the main window.
#[derive(Clone, Copy, Debug, PartialEq, Eq)]
pub enum CloseRequestAction {
    /// Keep the process alive and hide the window to the tray.
    HideToTray,
    /// Stop the worker, then let the window close and the process exit.
    ShutdownAndClose,
}

/// What a click on a tray menu entry means.
#[derive(Clone, Copy, Debug, PartialEq, Eq)]
pub enum TrayMenuAction {
    /// Bring the main window back and focus it.
    ShowWindow,
    /// Stop the worker and exit the application.
    Quit,
    /// An entry this module does not know.
    Ignore,
}

impl CloseSettings {
    /// The initial setting: empty, which means exit on close.
    pub fn new() -> (r: CloseSettings)
        ensures
            r.action@ == Seq::<char>::empty(),
    {
        CloseSettings { action: String::new() }
    }
}

/// The currently stored close action.
pub fn get_close_action(settings: &CloseSettings) -> (r: String)
    ensures
        r@ == settings.action@,
{
    settings.action.clone()
}

/// Stores the requested close action, then decides what happens to the
/// tray: `"minimize"` wants the tray shown with its menu, anything else
/// wants it hidden.  The setting is stored even when no tray exists, in
/// which case the change is reported as unappliable.
pub fn set_close_action(settings: &mut CloseSettings, action: String, tray_available: bool) -> (r:
    Result<TrayDirective, TrayUpdateError>)
    ensures
        final(settings).action@ == action@,
        !tray_available ==> r == Err::<TrayDirective, TrayUpdateError>(
            TrayUpdateError::TrayUnavailable,
        ),
        tray_available && action@ == "minimize"@ ==> r == Ok::<TrayDirective, TrayUpdateError>(
            TrayDirective::ShowWithMenu,
        ),
        tray_available && action@ != "minimize"@ ==> r == Ok::<TrayDirective, TrayUpdateError>(
            TrayDirective::Hide,
        ),
{
    let minimize = action == String::from_str("minimize");
    settings.action = action;
    if !tray_available {
        Err(TrayUpdateError::TrayUnavailable)
    } else if minimize {
        Ok(TrayDirective::ShowWithMenu)
    } else {
        Ok(TrayDirective::Hide)
    }
}

/// Decides a close request from the stored setting: hide to the tray only
/// when `"minimize"` was chosen.
pub fn close_request_action(settings: &CloseSettings) -> (a: CloseRequestAction)
    ensures
        a is HideToTray <==> settings.action@ == "minimize"@,
{
    if settings.action == String::from_str("minimize") {
        CloseRequestAction::HideToTray
    } else {
        CloseRequestAction::ShutdownAndClose
    }
}

/// Maps a tray menu entry to its meaning.
pub fn tray_menu_action(id: &String) -> (a: TrayMenuAction)
    ensures
        a is ShowWindow <==> id@ == "show"@,
        a is Quit <==> id@ == "quit"@,
{
    proof {
        reveal_strlit("show");
        reveal_strlit("quit");
        assert("show"@ != "quit"@) by {
            assert("show"@[0] == 's');
            assert("quit"@[0] == 'q');
        }
    }
    if *id == String::from_str("show") {
        TrayMenuAction::ShowWindow
    } else if *id == String::from_str("quit") {
        TrayMenuAction::Quit
    } else {
        TrayMenuAction::Ignore
    }
}

} // verus!

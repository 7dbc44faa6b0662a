//! Decisions of the window, the tray icon and the version label.

use vstd::prelude::*;
use vstd::string::StringExecFns;
use crate::text::{chars_of, string_of, trim, trim_chars};

verus! {

/// The port freed when the application quits or its main window is destroyed.
pub const DEFAULT_PORT: u16 = 3000;

/// Label of the main window, the only one whose closing matters.
pub open spec fn main_label() -> Seq<char> {
    "main"@
}

/// The disabled first line of the tray menu.
pub open spec fn tray_title_spec(project_name: Seq<char>) -> Seq<char> {
    if project_name.len() == 0 {
        "KenBun"@
    } else {
        "KenBun: "@ + project_name
    }
}

/// The disabled first line of the tray menu: the application's name, followed
/// by the project's when one is open.
pub fn tray_title(project_name: &str) -> (s: String)
    ensures
        s@ == tray_title_spec(project_name@),
{
    if project_name.is_empty() {
        String::from_str("KenBun")
    } else {
        let mut s = String::from_str("KenBun: ");
        s.append(project_name);
        s
    }
}

/// The tray entry that starts or stops the server.
pub open spec fn toggle_label_spec(is_running: bool) -> Seq<char> {
    if is_running { "Stop Server"@ } else { "Start Server"@ }
}

/// The tray entry that starts or stops the server.
pub fn toggle_label(is_running: bool) -> (s: String)
    ensures
        s@ == toggle_label_spec(is_running),
{
    if is_running {
        String::from_str("Stop Server")
    } else {
        String::from_str("Start Server")
    }
}

/// What a click on a tray menu entry does.
pub enum TrayAction {
    /// Stop the server on `DEFAULT_PORT` and leave the application.
    Quit,
    /// Ask the window to start or stop the server.
    Toggle,
    /// Nothing.
    Ignore,
}

/// The entry `quit` quits, the entry `toggle` toggles, any other does nothing.
pub fn tray_menu_action(id: &str) -> (a: TrayAction)
    ensures
        a is Quit <==> id@ == "quit"@,
        a is Toggle <==> id@ == "toggle"@,
{
    let id = id.to_owned();
    let quit = String::from_str("quit");
    let toggle = String::from_str("toggle");
    proof {
        reveal_strlit("quit");
        reveal_strlit("toggle");
        assert("quit"@.len() != "toggle"@.len());
    }
    if id == quit {
        TrayAction::Quit
    } else if id == toggle {
        TrayAction::Toggle
    } else {
        TrayAction::Ignore
    }
}

/// The window events that the application handles.
pub enum WindowEventKind {
    /// The window has been destroyed.
    Destroyed,
    /// The user asked to close the window.
    CloseRequested,
    /// Anything else.
    Other,
}

/// What the application does on a window event.
pub enum WindowAction {
    /// Kill the running server, if any.
    StopServer,
    /// Hide the window instead of closing it; the server keeps running.
    Hide,
    /// Nothing.
    Nothing,
}

/// Only the main window counts: destroying it stops the server, closing it
/// hides it to the tray.
pub fn window_event_action(label: &str, event: WindowEventKind) -> (a: WindowAction)
    ensures
        a is StopServer <==> (label@ == main_label() && event is Destroyed),
        a is Hide <==> (label@ == main_label() && event is CloseRequested),
{
    let label = label.to_owned();
    let main = String::from_str("main");
    if label == main {
        match event {
            WindowEventKind::Destroyed => WindowAction::StopServer,
            WindowEventKind::CloseRequested => WindowAction::Hide,
            WindowEventKind::Other => WindowAction::Nothing,
        }
    } else {
        WindowAction::Nothing
    }
}

/// The version shown: `bun --version`'s output without surrounding white
/// space, or `Not Found` when the command failed or printed nothing else.
pub open spec fn version_label_spec(output: Option<Seq<char>>) -> Seq<char> {
    match output {
        Some(text) => if trim(text).len() > 0 { trim(text) } else { "Not Found"@ },
        None => "Not Found"@,
    }
}

/// The version shown, from the text `bun --version` printed (`None` when it
/// could not be run).
pub fn bun_version_label(output: Option<&str>) -> (s: String)
    ensures
        s@ == version_label_spec(match output { Some(t) => Some(t@), None => None }),
{
    match output {
        Some(text) => {
            let chars = chars_of(text);
            let trimmed = trim_chars(&chars);
            if trimmed.len() > 0 {
                string_of(&trimmed)
            } else {
                String::from_str("Not Found")
            }
        },
        None => String::from_str("Not Found"),
    }
}

} // verus!

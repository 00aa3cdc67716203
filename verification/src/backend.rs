//! Backend-facing pieces: command invocation routed through the sandbox,
//! and the window/command listings.

use vstd::prelude::*;

use crate::webview::{json_quote, json_quoted};

verus! {

/// Request to call a registered host command.
#[derive(Debug)]
pub struct InvokeRequest {
    /// The command name.
    pub command: String,
    /// JSON text of the command's arguments.
    pub args: String,
}

/// One registered host command.
#[derive(Debug)]
pub struct CommandInfo {
    /// The command name.
    pub name: String,
}

/// One open window, as listed to the controller.
#[derive(Debug)]
pub struct WindowInfo {
    /// The window label.
    pub label: String,
    /// The window title, where the host could read it.
    pub title: Option<String>,
    /// The window's current location, where the host could read it.
    pub url: Option<String>,
    /// Whether the window is visible.
    pub is_visible: bool,
    /// Whether the window is focused.
    pub is_focused: bool,
}

/// The script that calls a registered host command from inside the
/// sandbox and reports its result or failure. The command name is
/// embedded as a JSON string literal; the arguments as their JSON text.
pub open spec fn invoke_script_spec(command: Seq<char>, args: Seq<char>) -> Seq<char> {
    "\n        try {\n            const result = await window.__TAURI__.core.invoke("@
        + json_quoted(command) + ", "@ + args
        + ");\n            return result;\n        } catch(e) {\n            throw new Error('invoke failed: ' + e);\n        }\n        "@
}

/// Build the invoke script for `command` with `args` (JSON text).
pub fn invoke_script(command: &str, args: &str) -> (r: String)
    ensures
        r@ == invoke_script_spec(command@, args@),
{
    let mut s = String::new();
    s.append("\n        try {\n            const result = await window.__TAURI__.core.invoke(");
    let qc = json_quote(command);
    s.append(qc.as_str());
    s.append(", ");
    s.append(args);
    s.append(");\n            return result;\n        } catch(e) {\n            throw new Error('invoke failed: ' + e);\n        }\n        ");
    s
}

/// The registered-command listing. The host exposes no command registry,
/// so the listing is empty until applications register metadata.
pub fn commands() -> (r: Vec<CommandInfo>)
    ensures
        r@.len() == 0,
{
    Vec::new()
}

/// The managed-state report: a fixed note, as JSON text, saying that
/// state inspection needs application integration.
pub fn state_note() -> (r: String)
    ensures
        r@ == "{\"note\":\"state inspection requires app integration - register state types with the plugin\"}"@,
{
    String::from_str(
        "{\"note\":\"state inspection requires app integration - register state types with the plugin\"}",
    )
}

} // verus!

//! Which program takes the text to the clipboard.
use crate::hotkey::names::Platform;
use crate::text::same_text;
use vstd::prelude::*;
use vstd::string::*;

verus! {

/// A program that reads text from its input and puts it on the clipboard.
#[derive(Debug, Clone, Copy, PartialEq, Eq, Structural)]
pub enum ClipboardTool {
    /// `pbcopy`, on macOS.
    Pbcopy,
    /// `wl-copy`, under Wayland.
    WlCopy,
    /// `xclip -selection clipboard`, under X11.
    Xclip,
}

/// The tool for a platform and a kind of session.
pub open spec fn tool_for(platform: Platform, session_type: Seq<char>) -> ClipboardTool {
    match platform {
        Platform::MacOs => ClipboardTool::Pbcopy,
        Platform::Linux => if session_type == "wayland"@ {
            ClipboardTool::WlCopy
        } else {
            ClipboardTool::Xclip
        },
    }
}

/// Whether a session of this kind runs under Wayland.
pub fn is_wayland(session_type: &str) -> (b: bool)
    ensures
        b == (session_type@ == "wayland"@),
{
    same_text(session_type, "wayland")
}

/// Picks the tool: `pbcopy` on macOS; on Linux `wl-copy` where the
/// session's kind is `wayland`, else `xclip`.
pub fn clipboard_tool(platform: Platform, session_type: &str) -> (tool: ClipboardTool)
    ensures
        tool == tool_for(platform, session_type@),
{
    match platform {
        Platform::MacOs => ClipboardTool::Pbcopy,
        Platform::Linux => {
            if is_wayland(session_type) {
                ClipboardTool::WlCopy
            } else {
                ClipboardTool::Xclip
            }
        },
    }
}

impl ClipboardTool {
    /// The name of the program.
    pub open spec fn program_text(self) -> Seq<char> {
        match self {
            ClipboardTool::Pbcopy => "pbcopy"@,
            ClipboardTool::WlCopy => "wl-copy"@,
            ClipboardTool::Xclip => "xclip"@,
        }
    }

    /// The arguments of the program.
    pub open spec fn argument_texts(self) -> Seq<Seq<char>> {
        match self {
            ClipboardTool::Xclip => seq!["-selection"@, "clipboard"@],
            _ => Seq::empty(),
        }
    }

    /// The name of the program.
    pub fn program(self) -> (name: &'static str)
        ensures
            name@ == self.program_text(),
    {
        match self {
            ClipboardTool::Pbcopy => "pbcopy",
            ClipboardTool::WlCopy => "wl-copy",
            ClipboardTool::Xclip => "xclip",
        }
    }

    /// The arguments of the program.
    pub fn arguments(self) -> (args: Vec<&'static str>)
        ensures
            args@.len() == self.argument_texts().len(),
            forall|i: int| 0 <= i < args@.len() ==> (#[trigger] args@[i])@ == self.argument_texts()[i],
    {
        let mut args: Vec<&'static str> = Vec::new();
        match self {
            ClipboardTool::Xclip => {
                args.push("-selection");
                args.push("clipboard");
            },
            _ => {},
        }
        args
    }

    /// The error of a program that could not be started.
    pub fn spawn_error(self, reason: &str) -> (message: String)
        ensures
            message@ == "Failed to spawn "@ + self.program_text() + ": "@ + reason@,
    {
        let mut message = String::from_str("Failed to spawn ");
        message.append(self.program());
        message.append(": ");
        message.append(reason);
        message
    }

    /// The error of a program that ended without success.
    pub fn exit_error(self, status: &str) -> (message: String)
        ensures
            message@ == self.program_text() + " exited with status "@ + status@,
    {
        let mut message = String::from_str(self.program());
        message.append(" exited with status ");
        message.append(status);
        message
    }
}

} // verus!

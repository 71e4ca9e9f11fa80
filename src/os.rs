//! Desktop integration: the key sequences sent to the focused window.
use crate::text::{views_of, words_of, words_text};
use vstd::prelude::*;
use vstd::string::StringExecFns;

verus! {

/// Which display server the desktop session runs on.
#[derive(Clone, Copy, PartialEq, Eq, Structural, Debug)]
pub enum SessionKind {
    Wayland,
    X11,
}

/// Pastes and key commands for the focused window.
pub struct OSIntegration;

/// Tray icon and desktop notifications.
pub struct UiManager;

/// Key input on Linux desktops, through `xdotool` on X11 and `wtype` on Wayland.
pub struct LinuxPaste;

/// The `wtype` arguments for one key of a command, if it is one `wtype` can send.
pub open spec fn wtype_args_for(key: Seq<char>) -> Option<Seq<Seq<char>>> {
    if key == "ctrl+shift+Left"@ {
        Some(seq!["-M"@, "ctrl"@, "-M"@, "shift"@, "-P"@, "Left"@])
    } else if key == "BackSpace"@ {
        Some(seq!["-P"@, "BackSpace"@])
    } else if key == "ctrl+b"@ {
        Some(seq!["-M"@, "ctrl"@, "-P"@, "b"@])
    } else if key == "ctrl+i"@ {
        Some(seq!["-M"@, "ctrl"@, "-P"@, "i"@])
    } else if key == "ctrl+a"@ {
        Some(seq!["-M"@, "ctrl"@, "-P"@, "a"@])
    } else if key == "Return"@ {
        Some(seq!["-P"@, "Return"@])
    } else {
        None
    }
}

/// A tool that sends the paste shortcut to the focused window.
#[derive(Clone, Copy, PartialEq, Eq, Structural, Debug)]
pub enum PasteTool {
    Xdotool,
    Wtype,
    Ydotool,
}

/// The arguments that make each tool press the paste shortcut.
pub open spec fn paste_args_for(tool: PasteTool) -> Seq<Seq<char>> {
    match tool {
        PasteTool::Xdotool => seq!["key"@, "ctrl+v"@],
        PasteTool::Wtype => seq!["-M"@, "ctrl"@, "-P"@, "v"@, "-m"@, "ctrl"@],
        PasteTool::Ydotool => seq!["key"@, "29:56"@],
    }
}

/// How to send a key command.
pub enum KeyPlan {
    /// Run `xdotool key <keys>`.
    Xdotool(String),
    /// Run `wtype` once per argument list, in order; then fail with the error, if any.
    Wtype(Vec<Vec<String>>, Option<String>),
}

fn strings_of(lits: Vec<&str>) -> (r: Vec<String>)
    ensures
        views_of(r@) == lits@.map_values(|s: &str| s@),
{
    let mut r: Vec<String> = Vec::new();
    let mut i: usize = 0;
    while i < lits.len()
        invariant
            0 <= i <= lits@.len(),
            r@.len() == i,
            forall|j: int| 0 <= j < i ==> #[trigger] r@[j]@ == lits@[j]@,
        decreases lits@.len() - i,
    {
        r.push(String::from_str(lits[i]));
        i = i + 1;
    }
    assert(views_of(r@) =~= lits@.map_values(|s: &str| s@));
    r
}

fn same_key(a: &String, lit: &str) -> (r: bool)
    ensures
        r == (a@ == lit@),
{
    *a == String::from_str(lit)
}

impl LinuxPaste {
    /// The session kind named by the session-type setting; X11 unless it says "wayland".
    pub fn session_kind(setting: &Option<String>) -> (r: SessionKind)
        ensures
            r == SessionKind::Wayland <==> (setting matches Some(s) && s@ == "wayland"@),
    {
        match setting {
            Some(s) => if same_key(s, "wayland") {
                SessionKind::Wayland
            } else {
                SessionKind::X11
            },
            None => SessionKind::X11,
        }
    }

    /// The paste tool for an X11 session: `xdotool`, when installed.
    pub fn paste_x11(has_xdotool: bool) -> (r: Result<PasteTool, String>)
        ensures
            has_xdotool ==> r == Ok::<PasteTool, String>(PasteTool::Xdotool),
            !has_xdotool ==> (r matches Err(m) && m@
                == "xdotool not found. Please install it (sudo pacman -S xdotool)"@),
    {
        if !has_xdotool {
            return Err(String::from_str("xdotool not found. Please install it (sudo pacman -S xdotool)"));
        }
        Ok(PasteTool::Xdotool)
    }

    /// The paste tool for a Wayland session: `wtype` when installed, else `ydotool`.
    pub fn paste_wayland(has_wtype: bool, has_ydotool: bool) -> (r: Result<PasteTool, String>)
        ensures
            has_wtype ==> r == Ok::<PasteTool, String>(PasteTool::Wtype),
            !has_wtype && has_ydotool ==> r == Ok::<PasteTool, String>(PasteTool::Ydotool),
            !has_wtype && !has_ydotool ==> (r matches Err(m) && m@
                == "No Wayland paste tool found. Install wtype or ydotool"@),
    {
        if has_wtype {
            return Ok(PasteTool::Wtype);
        }
        if has_ydotool {
            return Ok(PasteTool::Ydotool);
        }
        Err(String::from_str("No Wayland paste tool found. Install wtype or ydotool"))
    }

    /// The arguments that make `tool` press the paste shortcut.
    pub fn paste_args(tool: PasteTool) -> (r: Vec<String>)
        ensures
            views_of(r@) == paste_args_for(tool),
    {
        match tool {
            PasteTool::Xdotool => strings_of(vec!["key", "ctrl+v"]),
            PasteTool::Wtype => strings_of(vec!["-M", "ctrl", "-P", "v", "-m", "ctrl"]),
            PasteTool::Ydotool => strings_of(vec!["key", "29:56"]),
        }
    }

    /// The `wtype` arguments for one key, if `wtype` can send it.
    pub fn wtype_args(key: &String) -> (r: Option<Vec<String>>)
        ensures
            match (r, wtype_args_for(key@)) {
                (Some(v), Some(w)) => views_of(v@) == w,
                (None, None) => true,
                _ => false,
            },
    {
        if same_key(key, "ctrl+shift+Left") {
            Some(strings_of(vec!["-M", "ctrl", "-M", "shift", "-P", "Left"]))
        } else if same_key(key, "BackSpace") {
            Some(strings_of(vec!["-P", "BackSpace"]))
        } else if same_key(key, "ctrl+b") {
            Some(strings_of(vec!["-M", "ctrl", "-P", "b"]))
        } else if same_key(key, "ctrl+i") {
            Some(strings_of(vec!["-M", "ctrl", "-P", "i"]))
        } else if same_key(key, "ctrl+a") {
            Some(strings_of(vec!["-M", "ctrl", "-P", "a"]))
        } else if same_key(key, "Return") {
            Some(strings_of(vec!["-P", "Return"]))
        } else {
            None
        }
    }

    /// How to send the whitespace-separated key command `keys` in a session of
    /// kind `session`, given which key tools are installed.
    ///
    /// On X11 the whole command goes to `xdotool`. On Wayland each key goes to
    /// `wtype` in turn; the first key it cannot send ends the plan with an error.
    pub fn execute_command(
        keys: &str,
        session: SessionKind,
        has_xdotool: bool,
        has_wtype: bool,
    ) -> (r: Result<KeyPlan, String>)
        ensures
            session == SessionKind::X11 ==> match r {
                Ok(KeyPlan::Xdotool(k)) => has_xdotool && k@ == keys@,
                Err(m) => !has_xdotool && m@ == "xdotool not found"@,
                _ => false,
            },
            session == SessionKind::Wayland ==> match r {
                Ok(KeyPlan::Wtype(steps, err)) => {
                    let words = words_of(keys@);
                    let n = steps@.len();
                    &&& has_wtype
                    &&& n <= words.len()
                    &&& forall|j: int|
                        0 <= j < n ==> wtype_args_for(words[j]) == Some(
                            #[trigger] views_of(steps@[j]@),
                        )
                    &&& match err {
                        None => n == words.len(),
                        Some(m) => n < words.len() && wtype_args_for(words[n as int]) is None
                            && m@ == "Unsupported key sequence: "@ + words[n as int],
                    }
                },
                Err(m) => !has_wtype && m@ == "wtype not found"@,
                _ => false,
            },
    {
        match session {
            SessionKind::X11 => {
                if !has_xdotool {
                    return Err(String::from_str("xdotool not found"));
                }
                Ok(KeyPlan::Xdotool(String::from_str(keys)))
            },
            SessionKind::Wayland => {
                if !has_wtype {
                    return Err(String::from_str("wtype not found"));
                }
                let words = words_text(keys);
                let mut steps: Vec<Vec<String>> = Vec::new();
                let mut i: usize = 0;
                while i < words.len()
                    invariant
                        session == SessionKind::Wayland,
                        has_wtype,
                        0 <= i <= words@.len(),
                        words@.map_values(|s: String| s@) == words_of(keys@),
                        steps@.len() == i,
                        forall|j: int|
                            0 <= j < i ==> wtype_args_for(words_of(keys@)[j]) == Some(
                                #[trigger] views_of(steps@[j]@),
                            ),
                    decreases words@.len() - i,
                {
                    assert(words_of(keys@)[i as int] == words@[i as int]@);
                    match Self::wtype_args(&words[i]) {
                        Some(args) => {
                            steps.push(args);
                        },
                        None => {
                            let m = String::from_str("Unsupported key sequence: ").concat(
                                words[i].as_str(),
                            );
                            return Ok(KeyPlan::Wtype(steps, Some(m)));
                        },
                    }
                    i = i + 1;
                }
                Ok(KeyPlan::Wtype(steps, None))
            },
        }
    }
}

} // verus!

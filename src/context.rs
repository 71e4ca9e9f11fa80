//! The foreground application's context and the refinement prompt it selects.
use crate::text::{contains_seq, contains_text, lower_of, starts_with_seq, starts_with_text, to_lower};
use crate::text::{trim_text, trimmed};
use crate::transcript::SensitiveTranscript;
use vstd::prelude::*;
use vstd::string::StringExecFns;

verus! {

/// Where refinement requests go; only local endpoints are allowed.
pub const OLLAMA_URL: &'static str = "http://localhost:11434/api/generate";

/// The refinement model.
pub const MODEL: &'static str = "llama3.2:3b";

pub const BASE_PROMPT: &'static str = "You are a text refinement engine. Correct grammar, remove filler words (uhm, ah), and fix punctuation.";

pub const CODING_PROMPT: &'static str = "You are in a CODE EDITOR. Format the output as a concise code comment or documentation string. Do not add markdown code blocks.";

pub const CHAT_PROMPT: &'static str = "You are in a CHAT APP. Keep the tone casual, use appropriate emojis, and keep it short.";

pub const BROWSER_PROMPT: &'static str = "You are in a WEB BROWSER. Format as clear, searchable text or a summary.";

pub const TERMINAL_PROMPT: &'static str = "You are in a TERMINAL. Format the output as a shell command or a concise explanation. Do not wrap in markdown blocks if it's a command.";

pub const DEFAULT_PROMPT: &'static str = "Return ONLY the corrected text without preamble.";

pub const ENDPOINT_REJECTED: &'static str = "Security Violation: External API endpoints are strictly forbidden.";

#[derive(Clone, Copy, PartialEq, Eq, Structural, Debug)]
pub enum AppMode {
    Coding,
    Chat,
    Browser,
    Terminal,
    Default,
}

/// The foreground application, its mode and the system prompt for refinement.
#[derive(Debug)]
pub struct ContextInfo {
    pub app_name: String,
    pub mode: AppMode,
    pub system_prompt: String,
}

/// The mode of an application, from its name in lower case.
pub open spec fn mode_for(lower: Seq<char>) -> AppMode {
    if contains_seq(lower, "code"@) || contains_seq(lower, "cursor"@) || contains_seq(
        lower,
        "intellij"@,
    ) || contains_seq(lower, "rustrover"@) || contains_seq(lower, "vim"@) || contains_seq(
        lower,
        "neovim"@,
    ) {
        AppMode::Coding
    } else if contains_seq(lower, "whatsapp"@) || contains_seq(lower, "telegram"@)
        || contains_seq(lower, "discord"@) || contains_seq(lower, "slack"@) || contains_seq(
        lower,
        "signal"@,
    ) {
        AppMode::Chat
    } else if contains_seq(lower, "chrome"@) || contains_seq(lower, "edge"@) || contains_seq(
        lower,
        "firefox"@,
    ) || contains_seq(lower, "brave"@) || contains_seq(lower, "arc"@) {
        AppMode::Browser
    } else if contains_seq(lower, "terminal"@) || contains_seq(lower, "powershell"@)
        || contains_seq(lower, "cmd"@) || contains_seq(lower, "wezterm"@) || contains_seq(
        lower,
        "alacritty"@,
    ) {
        AppMode::Terminal
    } else {
        AppMode::Default
    }
}

/// The prompt suffix of each mode.
pub open spec fn mode_prompt(mode: AppMode) -> Seq<char> {
    match mode {
        AppMode::Coding => CODING_PROMPT@,
        AppMode::Chat => CHAT_PROMPT@,
        AppMode::Browser => BROWSER_PROMPT@,
        AppMode::Terminal => TERMINAL_PROMPT@,
        AppMode::Default => DEFAULT_PROMPT@,
    }
}

/// The base prompt, a space, then `suffix`.
pub open spec fn full_prompt(suffix: Seq<char>) -> Seq<char> {
    BASE_PROMPT@ + " "@ + suffix
}

/// The prompt suffix for an application matched by its exact name.
pub open spec fn named_app_prompt(app: Seq<char>) -> Seq<char> {
    if app == "Cursor"@ || app == "Code"@ || app == "VSCodium"@ {
        CODING_PROMPT@
    } else if app == "WhatsApp"@ || app == "Telegram"@ || app == "Discord"@ || app == "Signal"@ {
        CHAT_PROMPT@
    } else {
        DEFAULT_PROMPT@
    }
}

/// Whether `url` is a local endpoint.
pub open spec fn endpoint_is_local(url: Seq<char>) -> bool {
    starts_with_seq(url, "http://127.0.0.1"@) || starts_with_seq(url, "http://localhost"@)
}

fn mode_for_exec(lower: &str) -> (r: AppMode)
    ensures
        r == mode_for(lower@),
{
    if contains_text(lower, "code") || contains_text(lower, "cursor") || contains_text(
        lower,
        "intellij",
    ) || contains_text(lower, "rustrover") || contains_text(lower, "vim") || contains_text(
        lower,
        "neovim",
    ) {
        AppMode::Coding
    } else if contains_text(lower, "whatsapp") || contains_text(lower, "telegram")
        || contains_text(lower, "discord") || contains_text(lower, "slack") || contains_text(
        lower,
        "signal",
    ) {
        AppMode::Chat
    } else if contains_text(lower, "chrome") || contains_text(lower, "edge") || contains_text(
        lower,
        "firefox",
    ) || contains_text(lower, "brave") || contains_text(lower, "arc") {
        AppMode::Browser
    } else if contains_text(lower, "terminal") || contains_text(lower, "powershell")
        || contains_text(lower, "cmd") || contains_text(lower, "wezterm") || contains_text(
        lower,
        "alacritty",
    ) {
        AppMode::Terminal
    } else {
        AppMode::Default
    }
}

fn same_text(a: &String, lit: &str) -> (r: bool)
    ensures
        r == (a@ == lit@),
{
    *a == String::from_str(lit)
}

fn with_base_prompt(suffix: &str) -> (r: String)
    ensures
        r@ == full_prompt(suffix@),
{
    String::from_str(BASE_PROMPT).concat(" ").concat(suffix)
}

/// Chooses refinement prompts from the foreground application.
pub struct ContextEngine;

impl ContextEngine {
    /// Accepts only local refinement endpoints.
    pub fn validate_endpoint(url: &str) -> (r: Result<(), String>)
        ensures
            r is Ok <==> endpoint_is_local(url@),
            r matches Err(m) ==> m@ == ENDPOINT_REJECTED@,
    {
        if !starts_with_text(url, "http://127.0.0.1") && !starts_with_text(url, "http://localhost") {
            return Err(String::from_str(ENDPOINT_REJECTED));
        }
        Ok(())
    }

    /// The context of the application named `app_name`: its mode, found by
    /// keyword in the lower-cased name, and the matching system prompt.
    pub fn get_context(app_name: String) -> (r: ContextInfo)
        ensures
            r.app_name@ == app_name@,
            r.mode == mode_for(lower_of(app_name@)),
            r.system_prompt@ == full_prompt(mode_prompt(r.mode)),
    {
        let lower = to_lower(app_name.as_str());
        let mode = mode_for_exec(lower.as_str());
        let suffix: &str = match mode {
            AppMode::Coding => CODING_PROMPT,
            AppMode::Chat => CHAT_PROMPT,
            AppMode::Browser => BROWSER_PROMPT,
            AppMode::Terminal => TERMINAL_PROMPT,
            AppMode::Default => DEFAULT_PROMPT,
        };
        ContextInfo { app_name, mode, system_prompt: with_base_prompt(suffix) }
    }

    /// The system prompt for the application named exactly `app`.
    pub fn determine_system_prompt(app: &str) -> (r: String)
        ensures
            r@ == full_prompt(named_app_prompt(app@)),
    {
        let a = String::from_str(app);
        if same_text(&a, "Cursor") || same_text(&a, "Code") || same_text(&a, "VSCodium") {
            with_base_prompt(CODING_PROMPT)
        } else if same_text(&a, "WhatsApp") || same_text(&a, "Telegram") || same_text(
            &a,
            "Discord",
        ) || same_text(&a, "Signal") {
            with_base_prompt(CHAT_PROMPT)
        } else {
            with_base_prompt(DEFAULT_PROMPT)
        }
    }

    /// The text to paste: the refinement service's answer, trimmed, when there
    /// is one; the raw transcript otherwise.
    pub fn choose_refined(raw: &SensitiveTranscript, response: Option<String>) -> (r: String)
        ensures
            response matches Some(t) ==> r@ == trimmed(t@),
            response is None ==> r@ == raw@,
    {
        match response {
            Some(t) => trim_text(t.as_str()),
            None => String::from_str(raw.as_str()),
        }
    }
}

} // verus!

use vibeflow::context::{AppMode, ContextEngine, OLLAMA_URL};
use vibeflow::device::{
    choose_config, exhausted_error, find_named, plan_attempts, select_config, AudioEngine,
    Candidate, ConfigRange, DeviceError, SampleFormat, Strategy,
};
use vibeflow::os::{KeyPlan, LinuxPaste, PasteTool, SessionKind};
use vibeflow::transcript::SensitiveTranscript;

fn names(v: &[&str]) -> Vec<String> {
    v.iter().map(|s| s.to_string()).collect()
}

fn cfg(format: SampleFormat, rate: u32) -> ConfigRange {
    ConfigRange { format, max_sample_rate: rate, channels: 2 }
}

#[test]
fn named_device_falls_back_to_shared_keyword() {
    let list = names(&["Built-in Microphone", "USB Audio CODEC"]);
    assert_eq!(find_named(&list, "USB Mic"), Some(1));
}

#[test]
fn named_device_prefers_exact_match() {
    let list = names(&["USB Audio CODEC", "USB Mic"]);
    assert_eq!(find_named(&list, "USB Mic"), Some(1));
}

#[test]
fn named_device_fallback_ignores_case() {
    let list = names(&["Webcam", "generic analog input"]);
    assert_eq!(find_named(&list, "Generic Headset"), Some(1));
}

#[test]
fn named_device_not_found() {
    let list = names(&["Built-in Microphone", "HDMI Output"]);
    assert_eq!(find_named(&list, "Studio Mic"), None);
    assert_eq!(find_named(&Vec::new(), "USB Mic"), None);
}

#[test]
fn plan_for_named_device() {
    let list = names(&["Built-in Microphone", "USB Audio CODEC"]);
    let p = plan_attempts(Strategy::AutoHeal, &Some("USB Mic".to_string()), &list, true);
    assert_eq!(p, Ok(vec![Candidate::Listed(1)]));
    let p = plan_attempts(Strategy::DefaultOnly, &Some("Line In".to_string()), &list, true);
    assert_eq!(p, Err(DeviceError::DeviceNotFound));
}

#[test]
fn plan_auto_heal_tries_default_then_every_device() {
    let list = names(&["a", "b", "c"]);
    let p = plan_attempts(Strategy::AutoHeal, &None, &list, true);
    assert_eq!(
        p,
        Ok(vec![Candidate::Default, Candidate::Listed(0), Candidate::Listed(1), Candidate::Listed(2)])
    );
    let p = plan_attempts(Strategy::AutoHeal, &None, &list, false);
    assert_eq!(p, Ok(vec![Candidate::Listed(0), Candidate::Listed(1), Candidate::Listed(2)]));
    let p = plan_attempts(Strategy::AutoHeal, &None, &Vec::new(), false);
    assert_eq!(p, Err(DeviceError::DeviceNotFound));
}

#[test]
fn plan_default_only_fails_fast() {
    let list = names(&["a", "b"]);
    assert_eq!(
        plan_attempts(Strategy::DefaultOnly, &None, &list, true),
        Ok(vec![Candidate::Default])
    );
    assert_eq!(
        plan_attempts(Strategy::DefaultOnly, &None, &list, false),
        Err(DeviceError::DeviceNotFound)
    );
}

#[test]
fn exhausted_search_reports_device_not_found() {
    assert_eq!(exhausted_error(1, DeviceError::StreamBuildFailed), DeviceError::StreamBuildFailed);
    assert_eq!(exhausted_error(4, DeviceError::StreamBuildFailed), DeviceError::DeviceNotFound);
}

#[test]
fn config_prefers_float_format() {
    let c = vec![cfg(SampleFormat::I16, 48000), cfg(SampleFormat::F32, 44100), cfg(SampleFormat::F32, 96000)];
    assert_eq!(select_config(&c), Ok(1));
    assert_eq!(choose_config(&c), Ok(cfg(SampleFormat::F32, 44100)));
}

#[test]
fn config_falls_back_to_first_integer_format() {
    let c = vec![cfg(SampleFormat::U16, 22050), cfg(SampleFormat::I16, 48000)];
    assert_eq!(select_config(&c), Ok(0));
    assert_eq!(choose_config(&c), Ok(cfg(SampleFormat::U16, 22050)));
}

#[test]
fn config_errors() {
    assert_eq!(select_config(&Vec::new()), Err(DeviceError::NoSupportedConfig));
    assert_eq!(choose_config(&Vec::new()), Err(DeviceError::NoSupportedConfig));
    let c = vec![cfg(SampleFormat::Other, 48000)];
    assert_eq!(choose_config(&c), Err(DeviceError::UnsupportedSampleFormat));
}

#[test]
fn device_list_strips_alsa_prefixes_and_dedups() {
    let raw = names(&[
        "sysdefault:CARD=Microphone,DEV=0",
        "default:CARD=Microphone",
        "pulse",
        "pulse",
    ]);
    assert_eq!(AudioEngine::list_input_devices(&raw), names(&["Microphone", "pulse"]));
}

#[test]
fn device_list_names_q9_microphones() {
    let raw = names(&["hw:CARD=q9pro,DEV=0", "front:CARD=Q9,DEV=0"]);
    assert_eq!(AudioEngine::list_input_devices(&raw), names(&["Q9 Microphone \u{1f399}\u{fe0f}"]));
}

#[test]
fn device_list_is_never_empty() {
    assert_eq!(AudioEngine::list_input_devices(&Vec::new()), names(&["Default Microphone"]));
}

#[test]
fn context_modes_by_keyword() {
    let c = ContextEngine::get_context("Visual Studio Code".to_string());
    assert_eq!(c.mode, AppMode::Coding);
    assert_eq!(c.app_name, "Visual Studio Code");
    assert_eq!(
        c.system_prompt,
        "You are a text refinement engine. Correct grammar, remove filler words (uhm, ah), and fix punctuation. You are in a CODE EDITOR. Format the output as a concise code comment or documentation string. Do not add markdown code blocks."
    );
    assert_eq!(ContextEngine::get_context("Slack".to_string()).mode, AppMode::Chat);
    assert_eq!(ContextEngine::get_context("Mozilla Firefox".to_string()).mode, AppMode::Browser);
    assert_eq!(ContextEngine::get_context("WezTerm".to_string()).mode, AppMode::Terminal);
    let d = ContextEngine::get_context("Finder".to_string());
    assert_eq!(d.mode, AppMode::Default);
    assert_eq!(
        d.system_prompt,
        "You are a text refinement engine. Correct grammar, remove filler words (uhm, ah), and fix punctuation. Return ONLY the corrected text without preamble."
    );
}

#[test]
fn system_prompt_by_exact_app_name() {
    let p = ContextEngine::determine_system_prompt("Discord");
    assert!(p.ends_with("You are in a CHAT APP. Keep the tone casual, use appropriate emojis, and keep it short."));
    let p = ContextEngine::determine_system_prompt("Cursor");
    assert!(p.contains("CODE EDITOR"));
    let p = ContextEngine::determine_system_prompt("cursor");
    assert!(p.ends_with("Return ONLY the corrected text without preamble."));
}

#[test]
fn only_local_endpoints_are_accepted() {
    assert_eq!(ContextEngine::validate_endpoint(OLLAMA_URL), Ok(()));
    assert_eq!(ContextEngine::validate_endpoint("http://127.0.0.1:8080/x"), Ok(()));
    assert_eq!(
        ContextEngine::validate_endpoint("https://api.example.com"),
        Err("Security Violation: External API endpoints are strictly forbidden.".to_string())
    );
}

#[test]
fn refined_text_or_raw_transcript() {
    let raw = SensitiveTranscript::new("uhm hello".to_string());
    assert_eq!(ContextEngine::choose_refined(&raw, Some("  Hello. \n".to_string())), "Hello.");
    assert_eq!(ContextEngine::choose_refined(&raw, None), "uhm hello");
}

#[test]
fn session_kind_from_setting() {
    assert_eq!(LinuxPaste::session_kind(&Some("wayland".to_string())), SessionKind::Wayland);
    assert_eq!(LinuxPaste::session_kind(&Some("x11".to_string())), SessionKind::X11);
    assert_eq!(LinuxPaste::session_kind(&None), SessionKind::X11);
}

#[test]
fn x11_command_goes_to_xdotool() {
    match LinuxPaste::execute_command("ctrl+b", SessionKind::X11, true, false) {
        Ok(KeyPlan::Xdotool(k)) => assert_eq!(k, "ctrl+b"),
        _ => panic!("expected an xdotool plan"),
    }
    match LinuxPaste::execute_command("ctrl+b", SessionKind::X11, false, true) {
        Err(m) => assert_eq!(m, "xdotool not found"),
        _ => panic!("expected a missing-tool error"),
    }
}

#[test]
fn wayland_command_maps_each_key_to_wtype() {
    match LinuxPaste::execute_command("ctrl+shift+Left BackSpace", SessionKind::Wayland, false, true) {
        Ok(KeyPlan::Wtype(steps, None)) => {
            assert_eq!(steps, vec![names(&["-M", "ctrl", "-M", "shift", "-P", "Left"]), names(&["-P", "BackSpace"])]);
        }
        _ => panic!("expected a wtype plan"),
    }
    match LinuxPaste::execute_command("Return F5 ctrl+a", SessionKind::Wayland, false, true) {
        Ok(KeyPlan::Wtype(steps, Some(m))) => {
            assert_eq!(steps, vec![names(&["-P", "Return"])]);
            assert_eq!(m, "Unsupported key sequence: F5");
        }
        _ => panic!("expected a plan that stops at the unsupported key"),
    }
    match LinuxPaste::execute_command("Return", SessionKind::Wayland, true, false) {
        Err(m) => assert_eq!(m, "wtype not found"),
        _ => panic!("expected a missing-tool error"),
    }
}

#[test]
fn paste_tool_per_session() {
    assert_eq!(LinuxPaste::paste_x11(true), Ok(PasteTool::Xdotool));
    assert_eq!(
        LinuxPaste::paste_x11(false),
        Err("xdotool not found. Please install it (sudo pacman -S xdotool)".to_string())
    );
    assert_eq!(LinuxPaste::paste_wayland(true, true), Ok(PasteTool::Wtype));
    assert_eq!(LinuxPaste::paste_wayland(false, true), Ok(PasteTool::Ydotool));
    assert_eq!(
        LinuxPaste::paste_wayland(false, false),
        Err("No Wayland paste tool found. Install wtype or ydotool".to_string())
    );
    assert_eq!(LinuxPaste::paste_args(PasteTool::Ydotool), names(&["key", "29:56"]));
    assert_eq!(LinuxPaste::paste_args(PasteTool::Wtype), names(&["-M", "ctrl", "-P", "v", "-m", "ctrl"]));
}

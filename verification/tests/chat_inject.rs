use radio_check::chat_inject::{
    chat_open_delay, chat_open_key, failure_prefix, injection_plan, key_from_lowercase, parse_key, test_message,
    ChatKey, InjectionStep, PasteKey,
};
use radio_check::settings::{RadioCheckSettings, SimPreset};

#[test]
fn named_keys() {
    assert_eq!(parse_key("enter"), ChatKey::Return);
    assert_eq!(parse_key("return"), ChatKey::Return);
    assert_eq!(parse_key("tab"), ChatKey::Tab);
    assert_eq!(parse_key("space"), ChatKey::Space);
    assert_eq!(parse_key("escape"), ChatKey::Escape);
    assert_eq!(parse_key("esc"), ChatKey::Escape);
    assert_eq!(parse_key("f1"), ChatKey::F1);
    assert_eq!(parse_key("f9"), ChatKey::F9);
    assert_eq!(parse_key("f10"), ChatKey::F10);
    assert_eq!(parse_key("f12"), ChatKey::F12);
}

#[test]
fn key_names_ignore_case() {
    // lowercasing happens before the lookup
    assert_eq!(parse_key("ENTER"), ChatKey::Return);
    assert_eq!(parse_key("Esc"), ChatKey::Escape);
    assert_eq!(parse_key("F11"), ChatKey::F11);
    assert_eq!(parse_key("T"), ChatKey::Unicode('t'));
    // without lowercasing, upper-case names are not in the table
    assert_eq!(key_from_lowercase("F11"), ChatKey::Return);
    assert_eq!(key_from_lowercase("T"), ChatKey::Unicode('T'));
}

#[test]
fn single_characters() {
    assert_eq!(parse_key("t"), ChatKey::Unicode('t'));
    assert_eq!(parse_key("y"), ChatKey::Unicode('y'));
    assert_eq!(parse_key("m"), ChatKey::Unicode('m'));
    assert_eq!(parse_key("c"), ChatKey::Unicode('c'));
    assert_eq!(parse_key("/"), ChatKey::Unicode('/'));
    assert_eq!(parse_key("7"), ChatKey::Unicode('7'));
}

#[test]
fn unknown_names_fall_back_to_return() {
    assert_eq!(parse_key(""), ChatKey::Return);
    assert_eq!(parse_key("f13"), ChatKey::Return);
    assert_eq!(parse_key("ctrl"), ChatKey::Return);
    // one character but two bytes in UTF-8: not a single-byte key name
    assert_eq!(parse_key("é"), ChatKey::Return);
    assert_eq!(key_from_lowercase("ß"), ChatKey::Return);
}

#[test]
fn chat_open_keys_by_preset() {
    assert_eq!(chat_open_key(SimPreset::IRacing, "f2"), ChatKey::Return);
    assert_eq!(chat_open_key(SimPreset::AssettoCorsaACC, "f2"), ChatKey::Unicode('t'));
    assert_eq!(chat_open_key(SimPreset::Generic, "F2"), ChatKey::F2);
    assert_eq!(chat_open_key(SimPreset::Generic, "nonsense"), ChatKey::Return);
}

#[test]
fn delay_is_clamped() {
    assert_eq!(chat_open_delay(0), 50);
    assert_eq!(chat_open_delay(49), 50);
    assert_eq!(chat_open_delay(50), 50);
    assert_eq!(chat_open_delay(150), 150);
    assert_eq!(chat_open_delay(2000), 2000);
    assert_eq!(chat_open_delay(2001), 2000);
    assert_eq!(chat_open_delay(u64::MAX), 2000);
    // clamping twice changes nothing
    for ms in [0u64, 10, 50, 700, 2000, 9000] {
        assert_eq!(chat_open_delay(chat_open_delay(ms)), chat_open_delay(ms));
    }
}

#[test]
fn empty_message_types_nothing() {
    let s = RadioCheckSettings::default();
    assert!(injection_plan("", &s, PasteKey::LetterV).is_empty());
}

#[test]
fn default_plan_with_sending() {
    let s = RadioCheckSettings::default();
    let plan = injection_plan("box box", &s, PasteKey::LetterV);
    assert_eq!(
        plan,
        vec![
            InjectionStep::Click(ChatKey::Return),
            InjectionStep::Pause(150),
            InjectionStep::CopyMessage,
            InjectionStep::Pause(30),
            InjectionStep::Press(ChatKey::Control),
            InjectionStep::Click(ChatKey::Unicode('v')),
            InjectionStep::Pause(50),
            InjectionStep::Release(ChatKey::Control),
            InjectionStep::Pause(50),
            InjectionStep::Click(ChatKey::Return),
        ]
    );
}

#[test]
fn windows_plan_without_sending() {
    let mut s = RadioCheckSettings::default();
    s.auto_send = false;
    s.sim_preset = SimPreset::Generic;
    s.chat_open_key = "Y".to_string();
    s.chat_open_delay_ms = 10_000;
    let plan = injection_plan("copy", &s, PasteKey::VirtualKeyV);
    assert_eq!(
        plan,
        vec![
            InjectionStep::Click(ChatKey::Unicode('y')),
            InjectionStep::Pause(2000),
            InjectionStep::CopyMessage,
            InjectionStep::Pause(30),
            InjectionStep::Press(ChatKey::Control),
            InjectionStep::Click(ChatKey::Other(0x56)),
            InjectionStep::Pause(50),
            InjectionStep::Release(ChatKey::Control),
        ]
    );
}

#[test]
fn acc_plan_opens_with_t() {
    let mut s = RadioCheckSettings::default();
    s.sim_preset = SimPreset::AssettoCorsaACC;
    s.chat_open_delay_ms = 1;
    let plan = injection_plan("pit this lap", &s, PasteKey::LetterV);
    assert_eq!(plan[0], InjectionStep::Click(ChatKey::Unicode('t')));
    assert_eq!(plan[1], InjectionStep::Pause(50));
    assert_eq!(plan.len(), 10);
}

#[test]
fn plans_release_control() {
    for auto_send in [true, false] {
        let mut s = RadioCheckSettings::default();
        s.auto_send = auto_send;
        let plan = injection_plan("x", &s, PasteKey::LetterV);
        let presses = plan.iter().filter(|st| **st == InjectionStep::Press(ChatKey::Control)).count();
        let releases = plan.iter().filter(|st| **st == InjectionStep::Release(ChatKey::Control)).count();
        assert_eq!(presses, releases);
        assert_eq!(*plan.last().unwrap() == InjectionStep::Click(ChatKey::Return), auto_send);
    }
}

#[test]
fn test_message_text() {
    assert_eq!(test_message(), "RadioCheck test");
}

#[test]
fn failure_prefixes() {
    let s = RadioCheckSettings::default();
    let plan = injection_plan("copy", &s, PasteKey::LetterV);
    let prefixes: Vec<Option<&str>> = plan
        .iter()
        .enumerate()
        .map(|(i, st)| failure_prefix(*st, i == 0, PasteKey::LetterV))
        .collect();
    assert_eq!(
        prefixes,
        vec![
            Some("Failed to press chat-open key"),
            None,
            Some("Failed to set clipboard"),
            None,
            Some("Failed to press Ctrl"),
            Some("Failed to click v"),
            None,
            Some("Failed to release Ctrl"),
            None,
            Some("Failed to press Enter to send"),
        ]
    );
    assert_eq!(
        failure_prefix(InjectionStep::Click(ChatKey::Other(0x56)), false, PasteKey::VirtualKeyV),
        Some("Failed to click V")
    );
}

use radio_check::settings::{
    ModelUnloadTimeout, OrtAcceleratorSetting, RadioCheckSettings, ShortcutBinding, ShortcutBindings,
    SimPreset, SoundTheme, WhisperAcceleratorSetting, DEFAULT_CORRECTION_THRESHOLD_BITS,
    DEFAULT_FEEDBACK_VOLUME_BITS,
};

fn binding(hotkey: &str) -> ShortcutBinding {
    ShortcutBinding { hotkey: hotkey.to_string() }
}

#[test]
fn sound_theme_paths() {
    assert_eq!(SoundTheme::Marimba.as_str(), "marimba");
    assert_eq!(SoundTheme::Pop.as_str(), "pop");
    assert_eq!(SoundTheme::Custom.as_str(), "custom");
    assert_eq!(SoundTheme::Marimba.to_start_path(), "resources/marimba_start.wav");
    assert_eq!(SoundTheme::Marimba.to_stop_path(), "resources/marimba_stop.wav");
    assert_eq!(SoundTheme::Pop.to_start_path(), "resources/pop_start.wav");
    assert_eq!(SoundTheme::Custom.to_stop_path(), "resources/custom_stop.wav");
}

#[test]
fn sound_theme_paths_are_distinct() {
    let themes = [SoundTheme::Marimba, SoundTheme::Pop, SoundTheme::Custom];
    for a in themes {
        for b in themes {
            assert_ne!(a.to_start_path(), b.to_stop_path());
            if a != b {
                assert_ne!(a.to_start_path(), b.to_start_path());
                assert_ne!(a.to_stop_path(), b.to_stop_path());
            }
        }
    }
}

#[test]
fn enum_defaults() {
    assert_eq!(SoundTheme::default(), SoundTheme::Marimba);
    assert_eq!(WhisperAcceleratorSetting::default(), WhisperAcceleratorSetting::Auto);
    assert_eq!(OrtAcceleratorSetting::default(), OrtAcceleratorSetting::Auto);
    assert_eq!(ModelUnloadTimeout::default(), ModelUnloadTimeout::FiveMinutes);
}

#[test]
fn unload_timeouts_in_seconds() {
    assert_eq!(ModelUnloadTimeout::Never.to_seconds(), None);
    assert_eq!(ModelUnloadTimeout::OneMinute.to_seconds(), Some(60));
    assert_eq!(ModelUnloadTimeout::FiveMinutes.to_seconds(), Some(300));
    assert_eq!(ModelUnloadTimeout::FifteenMinutes.to_seconds(), Some(900));
    assert_eq!(ModelUnloadTimeout::Immediately.to_seconds(), Some(0));
}

#[test]
fn default_settings() {
    let s = RadioCheckSettings::default();
    assert_eq!(s.bindings.len(), 2);
    assert_eq!(s.bindings.get("transcribe").unwrap().hotkey, "F1");
    assert_eq!(s.bindings.get("cancel").unwrap().hotkey, "Escape");
    assert!(s.push_to_talk);
    assert_eq!(s.sim_preset, SimPreset::IRacing);
    assert_eq!(s.chat_open_key, "enter");
    assert!(s.auto_send);
    assert_eq!(s.chat_open_delay_ms, 150);
    assert_eq!(s.selected_microphone, None);
    assert_eq!(s.selected_output_device, None);
    assert!(!s.always_on_microphone);
    assert!(!s.mute_while_recording);
    assert!(s.audio_feedback);
    assert_eq!(f32::from_bits(s.audio_feedback_volume_bits), 0.5f32);
    assert_eq!(DEFAULT_FEEDBACK_VOLUME_BITS, 0.5f32.to_bits());
    assert_eq!(s.sound_theme, SoundTheme::Marimba);
    assert_eq!(s.selected_model, "");
    assert_eq!(s.model_unload_timeout, ModelUnloadTimeout::FiveMinutes);
    assert_eq!(s.whisper_accelerator, WhisperAcceleratorSetting::Auto);
    assert_eq!(s.ort_accelerator, OrtAcceleratorSetting::Auto);
    assert_eq!(s.whisper_gpu_device, -1);
    assert_eq!(s.selected_language, "en");
    assert!(!s.translate_to_english);
    assert_eq!(s.custom_words.len(), 47);
    assert_eq!(s.custom_words[0], "box");
    assert_eq!(s.custom_words[30], "Balance of Performance");
    assert_eq!(s.custom_words[46], "Portimao");
    assert!(s.custom_filler_words.is_empty());
    assert_eq!(f64::from_bits(s.word_correction_threshold_bits), 0.8f64);
    assert_eq!(DEFAULT_CORRECTION_THRESHOLD_BITS, 0.8f64.to_bits());
    assert_eq!(s.app_language, "en");
    assert_eq!(s.extra_recording_buffer_ms, 0);
    assert_eq!(s.clamshell_microphone, None);
    assert!(!s.debug_mode);
    assert!(s.update_checks_enabled);
}

#[test]
fn bindings_read_back_what_was_written() {
    let mut b = ShortcutBindings::new();
    assert_eq!(b.len(), 0);
    assert!(b.get("transcribe").is_none());
    b.insert("transcribe".to_string(), binding("F1"));
    b.insert("cancel".to_string(), binding("Escape"));
    assert_eq!(b.get("transcribe").unwrap().hotkey, "F1");
    b.insert("transcribe".to_string(), binding("F2"));
    assert_eq!(b.len(), 2);
    assert_eq!(b.get("transcribe").unwrap().hotkey, "F2");
    assert_eq!(b.get("cancel").unwrap().hotkey, "Escape");
    assert!(b.get("missing").is_none());
}

#[test]
fn bindings_clone_and_list() {
    let mut b = ShortcutBindings::new();
    b.insert("transcribe".to_string(), binding("F1"));
    b.insert("cancel".to_string(), binding("Escape"));
    b.insert("push".to_string(), binding("F3"));
    let c = b.clone();
    assert_eq!(c.len(), 3);
    assert_eq!(c.get("push").unwrap().hotkey, "F3");
    let list = b.to_vec();
    assert_eq!(list.len(), 3);
    let ids: Vec<&str> = list.iter().map(|(id, _)| id.as_str()).collect();
    assert!(ids.contains(&"transcribe") && ids.contains(&"cancel") && ids.contains(&"push"));
}

#[test]
fn startup_bindings_leave_out_cancel() {
    let s = RadioCheckSettings::default();
    let startup = s.bindings.startup_bindings();
    assert_eq!(startup.len(), 1);
    assert_eq!(startup[0].0, "transcribe");
    assert_eq!(startup[0].1.hotkey, "F1");

    let mut b = ShortcutBindings::new();
    b.insert("a".to_string(), binding("F5"));
    b.insert("b".to_string(), binding("F6"));
    let startup = b.startup_bindings();
    assert_eq!(startup.len(), 2);
}

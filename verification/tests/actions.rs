use radio_check::actions::{
    action_for_binding, classify_recording_error, recording_start_outcome,
    recording_start_steps, stop_step, RecordingErrorKind, ShortcutActionKind, StartStep, StopAction,
    StopEvent, StopPhase, TrayState,
};

#[test]
fn binding_actions() {
    assert_eq!(action_for_binding("transcribe"), Some(ShortcutActionKind::Transcribe));
    assert_eq!(action_for_binding("cancel"), Some(ShortcutActionKind::Cancel));
    assert_eq!(action_for_binding("Transcribe"), None);
    assert_eq!(action_for_binding(""), None);
}

#[test]
fn error_kinds() {
    assert_eq!(classify_recording_error(true, true), RecordingErrorKind::MicrophonePermissionDenied);
    assert_eq!(classify_recording_error(true, false), RecordingErrorKind::MicrophonePermissionDenied);
    assert_eq!(classify_recording_error(false, true), RecordingErrorKind::NoInputDevice);
    assert_eq!(classify_recording_error(false, false), RecordingErrorKind::Unknown);
    assert_eq!(RecordingErrorKind::MicrophonePermissionDenied.as_str(), "microphone_permission_denied");
    assert_eq!(RecordingErrorKind::NoInputDevice.as_str(), "no_input_device");
    assert_eq!(RecordingErrorKind::Unknown.as_str(), "unknown");
}

#[test]
fn start_steps_by_microphone_mode() {
    assert_eq!(
        recording_start_steps(false),
        vec![
            StartStep::LoadModel,
            StartStep::PreloadVad,
            StartStep::SetTray(TrayState::Recording),
            StartStep::StartRecording,
        ]
    );
    assert_eq!(
        recording_start_steps(true),
        vec![
            StartStep::LoadModel,
            StartStep::PreloadVad,
            StartStep::SetTray(TrayState::Recording),
            StartStep::FeedbackThenMute(0),
            StartStep::StartRecording,
        ]
    );
}

#[test]
fn start_outcomes() {
    assert_eq!(
        recording_start_outcome(false, &Ok(()), false, false),
        vec![
            StartStep::FeedbackThenMute(100),
            StartStep::RegisterCancelShortcut,
            StartStep::EmitRecordingStarted,
            StartStep::ShowOverlay,
        ]
    );
    assert_eq!(
        recording_start_outcome(true, &Ok(()), false, false),
        vec![StartStep::RegisterCancelShortcut, StartStep::EmitRecordingStarted, StartStep::ShowOverlay]
    );
    assert_eq!(
        recording_start_outcome(false, &Err("no input device found".to_string()), false, true),
        vec![
            StartStep::SetTray(TrayState::Idle),
            StartStep::EmitRecordingError(RecordingErrorKind::NoInputDevice, "no input device found".to_string()),
        ]
    );
    assert_eq!(
        recording_start_outcome(true, &Err("access denied".to_string()), true, false),
        vec![
            StartStep::SetTray(TrayState::Idle),
            StartStep::EmitRecordingError(RecordingErrorKind::MicrophonePermissionDenied, "access denied".to_string()),
        ]
    );
}

fn run(events: Vec<StopEvent>) -> (StopPhase, Vec<StopAction>) {
    let mut phase = StopPhase::Idle;
    let mut all = Vec::new();
    for e in events.iter() {
        let (next, acts) = stop_step(phase, e);
        phase = next;
        all.extend(acts);
    }
    (phase, all)
}

fn finished_count(acts: &[StopAction]) -> usize {
    acts.iter().filter(|a| **a == StopAction::NotifyProcessingFinished).count()
}

#[test]
fn stop_happy_path() {
    let (phase, acts) = run(vec![
        StopEvent::Stop,
        StopEvent::Samples(Some(16000)),
        StopEvent::Transcribed(Ok("box box".to_string())),
        StopEvent::Dispatched(true),
        StopEvent::Injected(Ok(())),
    ]);
    assert_eq!(phase, StopPhase::Finished);
    assert_eq!(
        acts,
        vec![
            StopAction::UnregisterCancelShortcut,
            StopAction::SetTray(TrayState::Transcribing),
            StopAction::RemoveMute,
            StopAction::PlayStopSound,
            StopAction::EmitRecordingStopped,
            StopAction::StopRecording,
            StopAction::Transcribe,
            StopAction::EmitTranscriptionComplete("box box".to_string()),
            StopAction::DispatchInjection("box box".to_string()),
            StopAction::NotifyProcessingFinished,
            StopAction::HideOverlay,
            StopAction::SetTray(TrayState::Idle),
        ]
    );
}

#[test]
fn stop_early_ends() {
    for events in [
        vec![StopEvent::Stop, StopEvent::Samples(None)],
        vec![StopEvent::Stop, StopEvent::Samples(Some(0))],
        vec![StopEvent::Stop, StopEvent::Samples(Some(5)), StopEvent::Transcribed(Err("model".to_string()))],
        vec![
            StopEvent::Stop,
            StopEvent::Samples(Some(5)),
            StopEvent::Transcribed(Ok("copy".to_string())),
            StopEvent::Dispatched(false),
        ],
    ] {
        let (phase, acts) = run(events);
        assert_eq!(phase, StopPhase::Finished);
        let n = acts.len();
        assert_eq!(
            &acts[n - 3..],
            &[StopAction::HideOverlay, StopAction::SetTray(TrayState::Idle), StopAction::NotifyProcessingFinished]
        );
        assert_eq!(finished_count(&acts), 1);
    }
}

#[test]
fn stop_empty_transcription_keeps_overlay() {
    let (phase, acts) = run(vec![
        StopEvent::Stop,
        StopEvent::Samples(Some(5)),
        StopEvent::Transcribed(Ok(String::new())),
    ]);
    assert_eq!(phase, StopPhase::Finished);
    assert!(!acts.contains(&StopAction::HideOverlay));
    assert_eq!(
        &acts[acts.len() - 2..],
        &[StopAction::SetTray(TrayState::Idle), StopAction::NotifyProcessingFinished]
    );
}

#[test]
fn stop_injection_error() {
    let (phase, acts) = run(vec![
        StopEvent::Stop,
        StopEvent::Samples(Some(5)),
        StopEvent::Transcribed(Ok("affirm".to_string())),
        StopEvent::Dispatched(true),
        StopEvent::Injected(Err("Enigo not initialized".to_string())),
    ]);
    assert_eq!(phase, StopPhase::Finished);
    assert_eq!(
        &acts[acts.len() - 3..],
        &[
            StopAction::EmitInjectionError("Enigo not initialized".to_string()),
            StopAction::HideOverlay,
            StopAction::SetTray(TrayState::Idle)
        ]
    );
    assert_eq!(finished_count(&acts), 1);
}

#[test]
fn stop_ignores_events_out_of_order() {
    let (next, acts) = stop_step(StopPhase::Idle, &StopEvent::Samples(Some(3)));
    assert_eq!(next, StopPhase::Idle);
    assert!(acts.is_empty());
    let (next, acts) = stop_step(StopPhase::AwaitingSamples, &StopEvent::Stop);
    assert_eq!(next, StopPhase::AwaitingSamples);
    assert!(acts.is_empty());
    let (next, acts) = stop_step(StopPhase::Finished, &StopEvent::Stop);
    assert_eq!(next, StopPhase::Finished);
    assert!(acts.is_empty());
}

//! What the shortcuts do: which action a binding triggers, and the steps of
//! the transcription pipeline that starts and stops a recording.
//!
//! The application performs each step and reports what came of it; the
//! functions here decide what follows.
use vstd::prelude::*;
use crate::text::text_equals;

verus! {

// ---------------------------------------------------------------------------
// Binding actions
// ---------------------------------------------------------------------------

/// The action that a shortcut binding triggers.
#[derive(Clone, Copy, Debug, PartialEq, Eq, Structural)]
pub enum ShortcutActionKind {
    /// Record while held (or toggled), then transcribe and type the text.
    Transcribe,
    /// Cancel the running recording or transcription.
    Cancel,
}

/// The action bound to a binding id: `transcribe` and `cancel` have one,
/// every other id has none.
pub open spec fn action_for(id: Seq<char>) -> Option<ShortcutActionKind> {
    if id == "transcribe"@ {
        Some(ShortcutActionKind::Transcribe)
    } else if id == "cancel"@ {
        Some(ShortcutActionKind::Cancel)
    } else {
        None
    }
}

/// Looks up the action of a binding id.
pub fn action_for_binding(id: &str) -> (r: Option<ShortcutActionKind>)
    ensures
        r == action_for(id@),
{
    if text_equals(id, "transcribe") {
        Some(ShortcutActionKind::Transcribe)
    } else if text_equals(id, "cancel") {
        Some(ShortcutActionKind::Cancel)
    } else {
        None
    }
}

// ---------------------------------------------------------------------------
// Starting a recording
// ---------------------------------------------------------------------------

/// The icon that the tray shows.
#[derive(Clone, Copy, Debug, PartialEq, Eq, Structural)]
pub enum TrayState {
    Idle,
    Recording,
    Transcribing,
}

/// Why a recording could not start, as the user interface is told.
#[derive(Clone, Copy, Debug, PartialEq, Eq, Structural)]
pub enum RecordingErrorKind {
    MicrophonePermissionDenied,
    NoInputDevice,
    Unknown,
}

/// The name of an error kind in the `recording-error` event.
pub open spec fn error_kind_name(kind: RecordingErrorKind) -> Seq<char> {
    match kind {
        RecordingErrorKind::MicrophonePermissionDenied => "microphone_permission_denied"@,
        RecordingErrorKind::NoInputDevice => "no_input_device"@,
        RecordingErrorKind::Unknown => "unknown"@,
    }
}

impl RecordingErrorKind {
    /// The name of the kind in the `recording-error` event.
    pub fn as_str(self) -> (r: &'static str)
        ensures
            r@ == error_kind_name(self),
    {
        match self {
            RecordingErrorKind::MicrophonePermissionDenied => "microphone_permission_denied",
            RecordingErrorKind::NoInputDevice => "no_input_device",
            RecordingErrorKind::Unknown => "unknown",
        }
    }
}

/// The kind of a recording error, given whether the error text tells of a
/// denied microphone permission and whether it tells of a missing input
/// device; the permission wins when both hold.
pub open spec fn error_kind(permission_denied: bool, no_input_device: bool) -> RecordingErrorKind {
    if permission_denied {
        RecordingErrorKind::MicrophonePermissionDenied
    } else if no_input_device {
        RecordingErrorKind::NoInputDevice
    } else {
        RecordingErrorKind::Unknown
    }
}

/// Classifies a recording error.
pub fn classify_recording_error(permission_denied: bool, no_input_device: bool) -> (r: RecordingErrorKind)
    ensures
        r == error_kind(permission_denied, no_input_device),
{
    if permission_denied {
        RecordingErrorKind::MicrophonePermissionDenied
    } else if no_input_device {
        RecordingErrorKind::NoInputDevice
    } else {
        RecordingErrorKind::Unknown
    }
}

/// One step of starting a recording.
#[derive(Clone, Debug, PartialEq, Eq)]
pub enum StartStep {
    /// Begin loading the transcription model.
    LoadModel,
    /// Load the voice-activity detector in the background.
    PreloadVad,
    /// Show this tray icon.
    SetTray(TrayState),
    /// In the background: wait this many milliseconds, play the start sound
    /// and mute the system output.
    FeedbackThenMute(u64),
    /// Start recording from the microphone; its outcome is reported back.
    StartRecording,
    /// Register the cancel shortcut.
    RegisterCancelShortcut,
    /// Tell the user interface that recording started.
    EmitRecordingStarted,
    /// Show the recording overlay.
    ShowOverlay,
    /// Tell the user interface why recording failed: the error's kind and
    /// its text as the detail.
    EmitRecordingError(RecordingErrorKind, String),
}

/// The steps taken when a transcribe shortcut is pressed, up to and with
/// starting the recording. With an always-on microphone the start sound
/// is played right away; otherwise only once the recording runs.
pub open spec fn start_steps(always_on: bool) -> Seq<StartStep> {
    let head = seq![StartStep::LoadModel, StartStep::PreloadVad, StartStep::SetTray(TrayState::Recording)];
    if always_on {
        head + seq![StartStep::FeedbackThenMute(0), StartStep::StartRecording]
    } else {
        head + seq![StartStep::StartRecording]
    }
}

/// The steps that follow the start of a recording, given its outcome and,
/// for a failure, how its error is classified.
pub open spec fn start_outcome_steps(always_on: bool, outcome: Result<(), String>, kind: RecordingErrorKind) -> Seq<StartStep> {
    match outcome {
        Ok(_) => {
            let feedback = if always_on {
                Seq::<StartStep>::empty()
            } else {
                seq![StartStep::FeedbackThenMute(100)]
            };
            feedback + seq![StartStep::RegisterCancelShortcut, StartStep::EmitRecordingStarted, StartStep::ShowOverlay]
        },
        Err(e) => seq![StartStep::SetTray(TrayState::Idle), StartStep::EmitRecordingError(kind, e)],
    }
}

/// The steps of pressing a transcribe shortcut, up to starting the recording.
pub fn recording_start_steps(always_on: bool) -> (r: Vec<StartStep>)
    ensures
        r@ == start_steps(always_on),
{
    let mut steps: Vec<StartStep> = Vec::new();
    steps.push(StartStep::LoadModel);
    steps.push(StartStep::PreloadVad);
    steps.push(StartStep::SetTray(TrayState::Recording));
    if always_on {
        steps.push(StartStep::FeedbackThenMute(0));
    }
    steps.push(StartStep::StartRecording);
    assert(steps@ =~= start_steps(always_on));
    steps
}

/// The steps after the recording was asked to start: the cancel shortcut,
/// the event and the overlay when it started; the idle icon and the error
/// event, with the error text as its detail, when it did not. The two flags
/// tell how the error text reads (a denied microphone permission, a missing
/// input device).
pub fn recording_start_outcome(
    always_on: bool,
    outcome: &Result<(), String>,
    permission_denied: bool,
    no_input_device: bool,
) -> (r: Vec<StartStep>)
    ensures
        r@ == start_outcome_steps(always_on, *outcome, error_kind(permission_denied, no_input_device)),
{
    let mut steps: Vec<StartStep> = Vec::new();
    match outcome {
        Ok(_) => {
            if !always_on {
                steps.push(StartStep::FeedbackThenMute(100));
            }
            steps.push(StartStep::RegisterCancelShortcut);
            steps.push(StartStep::EmitRecordingStarted);
            steps.push(StartStep::ShowOverlay);
        },
        Err(e) => {
            steps.push(StartStep::SetTray(TrayState::Idle));
            let kind = classify_recording_error(permission_denied, no_input_device);
            steps.push(StartStep::EmitRecordingError(kind, e.clone()));
        },
    }
    assert(steps@ =~= start_outcome_steps(always_on, *outcome, error_kind(permission_denied, no_input_device)));
    steps
}

/// A failed start asks, whatever its error kind, for exactly two steps: the
/// idle tray icon, then the error event with the error text. Showing the
/// overlay, announcing the recording and registering the cancel shortcut
/// are asked for only when the recording started.
pub proof fn lemma_failed_start_reports_only(always_on: bool, outcome: Result<(), String>, kind: RecordingErrorKind)
    ensures
        outcome matches Err(e) ==> start_outcome_steps(always_on, outcome, kind)
            == seq![StartStep::SetTray(TrayState::Idle), StartStep::EmitRecordingError(kind, e)],
        forall|i: int|
            0 <= i < start_outcome_steps(always_on, outcome, kind).len() && (
                #[trigger] start_outcome_steps(always_on, outcome, kind)[i] == StartStep::ShowOverlay
                || start_outcome_steps(always_on, outcome, kind)[i] == StartStep::EmitRecordingStarted
                || start_outcome_steps(always_on, outcome, kind)[i] == StartStep::RegisterCancelShortcut
            ) ==> outcome is Ok,
{
}

/// A recording that starts registers the cancel shortcut and shows the
/// overlay, and plays the start sound once; one that fails leaves the tray
/// idle, reports its error with the error text as detail, and registers no
/// cancel shortcut.
pub proof fn lemma_start_outcome(always_on: bool, outcome: Result<(), String>, kind: RecordingErrorKind)
    ensures
        ({
            let all = start_steps(always_on) + start_outcome_steps(always_on, outcome, kind);
            let out = start_outcome_steps(always_on, outcome, kind);
            &&& outcome is Ok ==> out.contains(StartStep::RegisterCancelShortcut) && out.contains(StartStep::ShowOverlay)
            &&& outcome is Ok ==> (exists|i: int| 0 <= i < all.len() && #[trigger] all[i] matches StartStep::FeedbackThenMute(_))
            &&& outcome matches Err(e) ==> out.last() == StartStep::EmitRecordingError(kind, e)
                && out.contains(StartStep::SetTray(TrayState::Idle))
                && !out.contains(StartStep::RegisterCancelShortcut)
                && !all.contains(StartStep::RegisterCancelShortcut)
        }),
{
    let all = start_steps(always_on) + start_outcome_steps(always_on, outcome, kind);
    let out = start_outcome_steps(always_on, outcome, kind);
    if outcome is Ok {
        if always_on {
            assert(out[0] == StartStep::RegisterCancelShortcut);
            assert(out[2] == StartStep::ShowOverlay);
            assert(all[3] matches StartStep::FeedbackThenMute(_));
        } else {
            assert(out[1] == StartStep::RegisterCancelShortcut);
            assert(out[3] == StartStep::ShowOverlay);
            assert(all[4] matches StartStep::FeedbackThenMute(_));
        }
    } else {
        assert(out[0] == StartStep::SetTray(TrayState::Idle));
        assert(forall|i: int| 0 <= i < all.len() ==> all[i] != StartStep::RegisterCancelShortcut);
    }
}

// ---------------------------------------------------------------------------
// Stopping a recording
// ---------------------------------------------------------------------------

/// Where the stop pipeline is.
#[derive(Clone, Copy, Debug, PartialEq, Eq, Structural)]
pub enum StopPhase {
    /// Nothing asked yet.
    Idle,
    /// The recording was asked to stop; waiting for its samples.
    AwaitingSamples,
    /// The samples are being transcribed.
    AwaitingTranscription,
    /// The typing of the text was handed to the main thread; waiting to learn
    /// whether it was taken.
    AwaitingDispatch,
    /// The main thread is typing the text.
    AwaitingInjection,
    /// The pipeline is over.
    Finished,
}

/// What the application reports to the stop pipeline.
#[derive(Debug)]
pub enum StopEvent {
    /// The stop shortcut was released or pressed again.
    Stop,
    /// The recording stopped with this many samples, or with none at all.
    Samples(Option<usize>),
    /// The transcription finished: its text, or its error.
    Transcribed(Result<String, String>),
    /// Whether the main thread took the typing job.
    Dispatched(bool),
    /// The typing finished: fine, or with its error.
    Injected(Result<(), String>),
}

/// What the stop pipeline asks the application to do.
#[derive(Clone, Debug, PartialEq, Eq)]
pub enum StopAction {
    UnregisterCancelShortcut,
    SetTray(TrayState),
    RemoveMute,
    PlayStopSound,
    EmitRecordingStopped,
    /// Stop the recording and report its samples.
    StopRecording,
    /// Transcribe the samples and report the outcome.
    Transcribe,
    /// Tell the user interface the transcribed text.
    EmitTranscriptionComplete(String),
    /// Hand the typing of this text to the main thread and report whether it
    /// was taken.
    DispatchInjection(String),
    /// Tell the user interface why typing failed: this error text.
    EmitInjectionError(String),
    HideOverlay,
    /// Tell the coordinator that the processing task is over.
    NotifyProcessingFinished,
}

/// The phase that follows an event.
pub open spec fn next_phase(phase: StopPhase, event: StopEvent) -> StopPhase {
    match (phase, event) {
        (StopPhase::Idle, StopEvent::Stop) => StopPhase::AwaitingSamples,
        (StopPhase::AwaitingSamples, StopEvent::Samples(n)) => match n {
            Some(count) => if count > 0 { StopPhase::AwaitingTranscription } else { StopPhase::Finished },
            None => StopPhase::Finished,
        },
        (StopPhase::AwaitingTranscription, StopEvent::Transcribed(outcome)) => match outcome {
            Ok(text) => if text@.len() > 0 { StopPhase::AwaitingDispatch } else { StopPhase::Finished },
            Err(_) => StopPhase::Finished,
        },
        (StopPhase::AwaitingDispatch, StopEvent::Dispatched(taken)) => if taken {
            StopPhase::AwaitingInjection
        } else {
            StopPhase::Finished
        },
        (StopPhase::AwaitingInjection, StopEvent::Injected(_)) => StopPhase::Finished,
        _ => phase,
    }
}

/// The closing actions of a pipeline that ends early: hide the overlay,
/// show the idle icon, and end the processing task.
pub open spec fn closing_actions() -> Seq<StopAction> {
    seq![StopAction::HideOverlay, StopAction::SetTray(TrayState::Idle), StopAction::NotifyProcessingFinished]
}

/// The actions that an event asks for. An event that does not fit the phase
/// asks for nothing. An empty transcription only returns the tray to idle
/// and leaves the overlay as it is.
pub open spec fn stop_actions(phase: StopPhase, event: StopEvent) -> Seq<StopAction> {
    match (phase, event) {
        (StopPhase::Idle, StopEvent::Stop) => seq![
            StopAction::UnregisterCancelShortcut,
            StopAction::SetTray(TrayState::Transcribing),
            StopAction::RemoveMute,
            StopAction::PlayStopSound,
            StopAction::EmitRecordingStopped,
            StopAction::StopRecording,
        ],
        (StopPhase::AwaitingSamples, StopEvent::Samples(n)) => match n {
            Some(count) => if count > 0 { seq![StopAction::Transcribe] } else { closing_actions() },
            None => closing_actions(),
        },
        (StopPhase::AwaitingTranscription, StopEvent::Transcribed(outcome)) => match outcome {
            Ok(text) => if text@.len() > 0 {
                seq![StopAction::EmitTranscriptionComplete(text), StopAction::DispatchInjection(text)]
            } else {
                seq![StopAction::SetTray(TrayState::Idle), StopAction::NotifyProcessingFinished]
            },
            Err(_) => closing_actions(),
        },
        (StopPhase::AwaitingDispatch, StopEvent::Dispatched(taken)) => if taken {
            seq![StopAction::NotifyProcessingFinished]
        } else {
            closing_actions()
        },
        (StopPhase::AwaitingInjection, StopEvent::Injected(outcome)) => match outcome {
            Ok(_) => seq![StopAction::HideOverlay, StopAction::SetTray(TrayState::Idle)],
            Err(e) => seq![StopAction::EmitInjectionError(e), StopAction::HideOverlay, StopAction::SetTray(TrayState::Idle)],
        },
        _ => Seq::empty(),
    }
}

fn closing_vec() -> (r: Vec<StopAction>)
    ensures
        r@ == closing_actions(),
{
    let mut v: Vec<StopAction> = Vec::new();
    v.push(StopAction::HideOverlay);
    v.push(StopAction::SetTray(TrayState::Idle));
    v.push(StopAction::NotifyProcessingFinished);
    assert(v@ =~= closing_actions());
    v
}

/// Advances the stop pipeline by one event: the next phase and the actions
/// to carry out, in order.
pub fn stop_step(phase: StopPhase, event: &StopEvent) -> (r: (StopPhase, Vec<StopAction>))
    ensures
        r.0 == next_phase(phase, *event),
        r.1@ == stop_actions(phase, *event),
{
    let mut acts: Vec<StopAction> = Vec::new();
    match (phase, event) {
        (StopPhase::Idle, StopEvent::Stop) => {
            acts.push(StopAction::UnregisterCancelShortcut);
            acts.push(StopAction::SetTray(TrayState::Transcribing));
            acts.push(StopAction::RemoveMute);
            acts.push(StopAction::PlayStopSound);
            acts.push(StopAction::EmitRecordingStopped);
            acts.push(StopAction::StopRecording);
            assert(acts@ =~= stop_actions(phase, *event));
            (StopPhase::AwaitingSamples, acts)
        },
        (StopPhase::AwaitingSamples, StopEvent::Samples(n)) => {
            match n {
                Some(count) => {
                    if *count > 0 {
                        acts.push(StopAction::Transcribe);
                        assert(acts@ =~= stop_actions(phase, *event));
                        (StopPhase::AwaitingTranscription, acts)
                    } else {
                        (StopPhase::Finished, closing_vec())
                    }
                },
                None => (StopPhase::Finished, closing_vec()),
            }
        },
        (StopPhase::AwaitingTranscription, StopEvent::Transcribed(outcome)) => {
            match outcome {
                Ok(text) => {
                    if !text.as_str().is_empty() {
                        acts.push(StopAction::EmitTranscriptionComplete(text.clone()));
                        acts.push(StopAction::DispatchInjection(text.clone()));
                        assert(acts@ =~= stop_actions(phase, *event));
                        (StopPhase::AwaitingDispatch, acts)
                    } else {
                        acts.push(StopAction::SetTray(TrayState::Idle));
                        acts.push(StopAction::NotifyProcessingFinished);
                        assert(acts@ =~= stop_actions(phase, *event));
                        (StopPhase::Finished, acts)
                    }
                },
                Err(_) => (StopPhase::Finished, closing_vec()),
            }
        },
        (StopPhase::AwaitingDispatch, StopEvent::Dispatched(taken)) => {
            if *taken {
                acts.push(StopAction::NotifyProcessingFinished);
                assert(acts@ =~= stop_actions(phase, *event));
                (StopPhase::AwaitingInjection, acts)
            } else {
                (StopPhase::Finished, closing_vec())
            }
        },
        (StopPhase::AwaitingInjection, StopEvent::Injected(outcome)) => {
            if let Err(e) = outcome {
                acts.push(StopAction::EmitInjectionError(e.clone()));
            }
            acts.push(StopAction::HideOverlay);
            acts.push(StopAction::SetTray(TrayState::Idle));
            assert(acts@ =~= stop_actions(phase, *event));
            (StopPhase::Finished, acts)
        },
        _ => {
            assert(acts@ =~= stop_actions(phase, *event));
            (phase, acts)
        },
    }
}

// ---------------------------------------------------------------------------
// Properties of the stop pipeline
// ---------------------------------------------------------------------------

/// The phase reached and the actions asked for along a run of events.
pub open spec fn stop_run(phase: StopPhase, events: Seq<StopEvent>) -> (StopPhase, Seq<StopAction>)
    decreases events.len(),
{
    if events.len() == 0 {
        (phase, Seq::empty())
    } else {
        let first = stop_run(phase, events.drop_last());
        (next_phase(first.0, events.last()), first.1 + stop_actions(first.0, events.last()))
    }
}

/// How many times a list of actions ends the processing task.
pub open spec fn finish_count(acts: Seq<StopAction>) -> nat
    decreases acts.len(),
{
    if acts.len() == 0 {
        0
    } else {
        finish_count(acts.drop_last()) + if acts.last() == StopAction::NotifyProcessingFinished { 1nat } else { 0nat }
    }
}

/// Whether the processing task of a phase has already ended.
pub open spec fn task_over(phase: StopPhase) -> nat {
    match phase {
        StopPhase::AwaitingInjection | StopPhase::Finished => 1,
        _ => 0,
    }
}

proof fn lemma_finish_count_concat(a: Seq<StopAction>, b: Seq<StopAction>)
    ensures
        finish_count(a + b) == finish_count(a) + finish_count(b),
    decreases b.len(),
{
    if b.len() > 0 {
        lemma_finish_count_concat(a, b.drop_last());
        assert((a + b).drop_last() =~= a + b.drop_last());
    }
}

proof fn lemma_step_finish_count(phase: StopPhase, event: StopEvent)
    ensures
        task_over(phase) + finish_count(stop_actions(phase, event)) == task_over(next_phase(phase, event)),
{
    reveal_with_fuel(finish_count, 7);
}

proof fn lemma_run_finish_count(phase: StopPhase, events: Seq<StopEvent>)
    ensures
        task_over(phase) + finish_count(stop_run(phase, events).1) == task_over(stop_run(phase, events).0),
    decreases events.len(),
{
    if events.len() > 0 {
        let first = stop_run(phase, events.drop_last());
        lemma_run_finish_count(phase, events.drop_last());
        lemma_step_finish_count(first.0, events.last());
        lemma_finish_count_concat(first.1, stop_actions(first.0, events.last()));
    }
}

/// Whatever the application reports, a run that starts idle and ends
/// finished tells the coordinator exactly once that processing is over.
pub proof fn lemma_processing_finished_once(events: Seq<StopEvent>)
    requires
        stop_run(StopPhase::Idle, events).0 == StopPhase::Finished,
    ensures
        finish_count(stop_run(StopPhase::Idle, events).1) == 1,
{
    lemma_run_finish_count(StopPhase::Idle, events);
}

/// Every event that ends the pipeline shows the idle tray icon.
pub proof fn lemma_finish_shows_idle(phase: StopPhase, event: StopEvent)
    requires
        phase != StopPhase::Finished,
        next_phase(phase, event) == StopPhase::Finished,
    ensures
        stop_actions(phase, event).contains(StopAction::SetTray(TrayState::Idle)),
{
    let acts = stop_actions(phase, event);
    if acts == closing_actions() {
        assert(acts[1] == StopAction::SetTray(TrayState::Idle));
    } else {
        match (phase, event) {
            (StopPhase::AwaitingTranscription, StopEvent::Transcribed(_)) => {
                assert(acts[0] == StopAction::SetTray(TrayState::Idle));
            },
            (StopPhase::AwaitingInjection, StopEvent::Injected(outcome)) => {
                if outcome is Ok {
                    assert(acts[1] == StopAction::SetTray(TrayState::Idle));
                } else {
                    assert(acts[2] == StopAction::SetTray(TrayState::Idle));
                }
            },
            _ => {},
        }
    }
}

/// Only a successful, non-empty transcription is shown and typed: an action
/// that emits or types a text is asked for only by the event that brought
/// that text as the transcription, while the pipeline waited for it; a
/// failed transcription ends the pipeline with exactly the closing actions,
/// typing nothing.
pub proof fn lemma_typed_text_is_transcription(phase: StopPhase, event: StopEvent)
    ensures
        ({
            let acts = stop_actions(phase, event);
            &&& forall|i: int| 0 <= i < acts.len() ==> (#[trigger] acts[i] matches StopAction::DispatchInjection(t)
                ==> phase == StopPhase::AwaitingTranscription && event == StopEvent::Transcribed(Ok(t)) && t@.len() > 0)
            &&& forall|i: int| 0 <= i < acts.len() ==> (#[trigger] acts[i] matches StopAction::EmitTranscriptionComplete(t)
                ==> phase == StopPhase::AwaitingTranscription && event == StopEvent::Transcribed(Ok(t)) && t@.len() > 0)
            &&& (phase == StopPhase::AwaitingTranscription && event is Transcribed && event->Transcribed_0 is Err) ==> {
                &&& acts == seq![
                    StopAction::HideOverlay,
                    StopAction::SetTray(TrayState::Idle),
                    StopAction::NotifyProcessingFinished,
                ]
                &&& next_phase(phase, event) == StopPhase::Finished
            }
        }),
{
}

/// Along any run of events, every text that the pipeline types or shows is
/// the text of a successful transcription reported in that run.
pub proof fn lemma_run_types_only_transcriptions(phase: StopPhase, events: Seq<StopEvent>, i: int)
    requires
        0 <= i < stop_run(phase, events).1.len(),
        stop_run(phase, events).1[i] matches StopAction::DispatchInjection(_)
            || stop_run(phase, events).1[i] matches StopAction::EmitTranscriptionComplete(_),
    ensures
        ({
            let t = match stop_run(phase, events).1[i] {
                StopAction::DispatchInjection(t) => t,
                StopAction::EmitTranscriptionComplete(t) => t,
                _ => arbitrary(),
            };
            exists|j: int| 0 <= j < events.len() && #[trigger] events[j] == StopEvent::Transcribed(Ok(t)) && t@.len() > 0
        }),
    decreases events.len(),
{
    let first = stop_run(phase, events.drop_last());
    let last = stop_actions(first.0, events.last());
    let all = stop_run(phase, events).1;
    assert(all == first.1 + last);
    let t = match all[i] {
        StopAction::DispatchInjection(t) => t,
        StopAction::EmitTranscriptionComplete(t) => t,
        _ => arbitrary(),
    };
    if i < first.1.len() {
        assert(all[i] == first.1[i]);
        lemma_run_types_only_transcriptions(phase, events.drop_last(), i);
        let j = choose|j: int| 0 <= j < events.drop_last().len() && #[trigger] events.drop_last()[j] == StopEvent::Transcribed(Ok(t)) && t@.len() > 0;
        assert(events[j] == events.drop_last()[j]);
    } else {
        let k = i - first.1.len();
        assert(all[i] == last[k]);
        lemma_typed_text_is_transcription(first.0, events.last());
        assert(last[k] matches StopAction::DispatchInjection(_) || last[k] matches StopAction::EmitTranscriptionComplete(_));
        assert(events[events.len() - 1] == events.last());
    }
}

/// The finished pipeline ignores every later event.
pub proof fn lemma_finished_is_final(event: StopEvent)
    ensures
        next_phase(StopPhase::Finished, event) == StopPhase::Finished,
        stop_actions(StopPhase::Finished, event).len() == 0,
{
}

} // verus!

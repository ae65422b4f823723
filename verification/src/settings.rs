//! The settings model: the presets and options of the tool, its shortcut
//! bindings, and their defaults.
use vstd::prelude::*;
use vstd::string::*;
use crate::text::text_equals;

verus! {

// ---------------------------------------------------------------------------
// Racing-specific types
// ---------------------------------------------------------------------------

/// The racing simulator whose chat box receives the messages.
#[derive(Clone, Copy, Debug, PartialEq, Eq, Structural)]
pub enum SimPreset {
    IRacing,
    AssettoCorsaACC,
    Generic,
}

// ---------------------------------------------------------------------------
// Audio and model options
// ---------------------------------------------------------------------------

/// The set of sounds played when a recording starts and stops.
#[derive(Clone, Copy, Debug, PartialEq, Eq, Structural)]
pub enum SoundTheme {
    Marimba,
    Pop,
    Custom,
}

/// The name of a sound theme in its resource file names.
pub open spec fn theme_name(theme: SoundTheme) -> Seq<char> {
    match theme {
        SoundTheme::Marimba => "marimba"@,
        SoundTheme::Pop => "pop"@,
        SoundTheme::Custom => "custom"@,
    }
}

/// The resource path of the sound that starts a recording.
pub open spec fn start_path(theme: SoundTheme) -> Seq<char> {
    "resources/"@ + theme_name(theme) + "_start.wav"@
}

/// The resource path of the sound that stops a recording.
pub open spec fn stop_path(theme: SoundTheme) -> Seq<char> {
    "resources/"@ + theme_name(theme) + "_stop.wav"@
}

impl Default for SoundTheme {
    fn default() -> (r: SoundTheme)
        ensures
            r == SoundTheme::Marimba,
    {
        SoundTheme::Marimba
    }
}

impl SoundTheme {
    /// The theme's name in resource file names.
    pub fn as_str(self) -> (r: &'static str)
        ensures
            r@ == theme_name(self),
    {
        match self {
            SoundTheme::Marimba => "marimba",
            SoundTheme::Pop => "pop",
            SoundTheme::Custom => "custom",
        }
    }

    /// The resource path of the theme's start sound,
    /// `resources/<name>_start.wav`.
    pub fn to_start_path(self) -> (r: String)
        ensures
            r@ == start_path(self),
    {
        let mut path = String::from_str("resources/");
        path.append(self.as_str());
        path.append("_start.wav");
        path
    }

    /// The resource path of the theme's stop sound,
    /// `resources/<name>_stop.wav`.
    pub fn to_stop_path(self) -> (r: String)
        ensures
            r@ == stop_path(self),
    {
        let mut path = String::from_str("resources/");
        path.append(self.as_str());
        path.append("_stop.wav");
        path
    }
}

/// Different themes never share a start sound, nor a stop sound.
pub proof fn lemma_sound_paths_distinct(a: SoundTheme, b: SoundTheme)
    requires
        a != b,
    ensures
        start_path(a) != start_path(b),
        stop_path(a) != stop_path(b),
{
    reveal_strlit("resources/");
    reveal_strlit("marimba");
    reveal_strlit("pop");
    reveal_strlit("custom");
    reveal_strlit("_start.wav");
    reveal_strlit("_stop.wav");
    assert(start_path(a).len() != start_path(b).len());
    assert(stop_path(a).len() != stop_path(b).len());
}

/// No start sound is the stop sound of any theme.
pub proof fn lemma_start_is_not_stop(a: SoundTheme, b: SoundTheme)
    ensures
        start_path(a) != stop_path(b),
{
    reveal_strlit("resources/");
    reveal_strlit("marimba");
    reveal_strlit("pop");
    reveal_strlit("custom");
    reveal_strlit("_start.wav");
    reveal_strlit("_stop.wav");
    let s = start_path(a);
    let t = stop_path(b);
    if s.len() == t.len() {
        // both end in ".wav"; the character before it is 't' in one and 'p' in the other
        assert(s[s.len() - 5] == 't');
        assert(t[t.len() - 5] == 'p');
    }
}

/// Where Whisper models run.
#[derive(Clone, Copy, Debug, PartialEq, Eq, Structural)]
pub enum WhisperAcceleratorSetting {
    Auto,
    Cpu,
    Gpu,
}

impl Default for WhisperAcceleratorSetting {
    fn default() -> (r: WhisperAcceleratorSetting)
        ensures
            r == WhisperAcceleratorSetting::Auto,
    {
        WhisperAcceleratorSetting::Auto
    }
}

/// Where ONNX Runtime models run.
#[derive(Clone, Copy, Debug, PartialEq, Eq, Structural)]
pub enum OrtAcceleratorSetting {
    Auto,
    Cpu,
    Cuda,
    DirectMl,
    Rocm,
}

impl Default for OrtAcceleratorSetting {
    fn default() -> (r: OrtAcceleratorSetting)
        ensures
            r == OrtAcceleratorSetting::Auto,
    {
        OrtAcceleratorSetting::Auto
    }
}

/// How long an idle transcription model stays loaded.
#[derive(Clone, Copy, Debug, PartialEq, Eq, Structural)]
pub enum ModelUnloadTimeout {
    Never,
    OneMinute,
    FiveMinutes,
    FifteenMinutes,
    /// Unload immediately after each transcription.
    Immediately,
}

impl Default for ModelUnloadTimeout {
    fn default() -> (r: ModelUnloadTimeout)
        ensures
            r == ModelUnloadTimeout::FiveMinutes,
    {
        ModelUnloadTimeout::FiveMinutes
    }
}

/// The idle time, in seconds, after which a model is unloaded; `None` for never.
pub open spec fn unload_seconds(t: ModelUnloadTimeout) -> Option<u64> {
    match t {
        ModelUnloadTimeout::Never => None,
        ModelUnloadTimeout::OneMinute => Some(60),
        ModelUnloadTimeout::FiveMinutes => Some(300),
        ModelUnloadTimeout::FifteenMinutes => Some(900),
        ModelUnloadTimeout::Immediately => Some(0),
    }
}

impl ModelUnloadTimeout {
    /// The idle time in seconds after which the model is unloaded, `None`
    /// when it stays loaded; the duration that the timeout converts to.
    pub fn to_seconds(self) -> (r: Option<u64>)
        ensures
            r == unload_seconds(self),
    {
        match self {
            ModelUnloadTimeout::Never => None,
            ModelUnloadTimeout::OneMinute => Some(60),
            ModelUnloadTimeout::FiveMinutes => Some(5 * 60),
            ModelUnloadTimeout::FifteenMinutes => Some(15 * 60),
            ModelUnloadTimeout::Immediately => Some(0),
        }
    }
}

// ---------------------------------------------------------------------------
// Shortcut bindings
// ---------------------------------------------------------------------------

/// The hotkey of one shortcut, as text such as `F1` or `Escape`.
#[derive(Clone, Debug)]
pub struct ShortcutBinding {
    pub hotkey: String,
}

/// No binding id occurs twice in a list of bindings.
pub open spec fn ids_distinct(s: Seq<(String, ShortcutBinding)>) -> bool {
    forall|i: int, j: int|
        0 <= i < s.len() && 0 <= j < s.len() && i != j ==> #[trigger] s[i].0@ != #[trigger] s[j].0@
}

/// The map from binding id to hotkey text that a list of bindings holds.
pub open spec fn binding_map(s: Seq<(String, ShortcutBinding)>) -> Map<Seq<char>, Seq<char>>
    decreases s.len(),
{
    if s.len() == 0 {
        Map::empty()
    } else {
        binding_map(s.drop_last()).insert(s.last().0@, s.last().1.hotkey@)
    }
}

proof fn lemma_binding_map_dom(s: Seq<(String, ShortcutBinding)>, k: Seq<char>)
    ensures
        binding_map(s).contains_key(k) <==> exists|i: int| 0 <= i < s.len() && #[trigger] s[i].0@ == k,
    decreases s.len(),
{
    if s.len() > 0 {
        let t = s.drop_last();
        lemma_binding_map_dom(t, k);
        if binding_map(s).contains_key(k) && k != s.last().0@ {
            let i = choose|i: int| 0 <= i < t.len() && #[trigger] t[i].0@ == k;
            assert(s[i].0@ == k);
        }
        if exists|i: int| 0 <= i < s.len() && #[trigger] s[i].0@ == k {
            let i = choose|i: int| 0 <= i < s.len() && #[trigger] s[i].0@ == k;
            if i < s.len() - 1 {
                assert(t[i].0@ == k);
            }
        }
    }
}

proof fn lemma_binding_map_at(s: Seq<(String, ShortcutBinding)>, i: int)
    requires
        ids_distinct(s),
        0 <= i < s.len(),
    ensures
        binding_map(s).contains_key(s[i].0@),
        binding_map(s)[s[i].0@] == s[i].1.hotkey@,
    decreases s.len(),
{
    if i < s.len() - 1 {
        let t = s.drop_last();
        assert(ids_distinct(t)) by {
            assert forall|a: int, b: int|
                0 <= a < t.len() && 0 <= b < t.len() && a != b implies #[trigger] t[a].0@ != #[trigger] t[b].0@ by {
                assert(t[a] == s[a] && t[b] == s[b]);
            }
        }
        lemma_binding_map_at(t, i);
        assert(t[i] == s[i]);
        assert(s[i].0@ != s[s.len() - 1].0@);
    }
}

proof fn lemma_ids_distinct_update(s: Seq<(String, ShortcutBinding)>, j: int, e: (String, ShortcutBinding))
    requires
        ids_distinct(s),
        0 <= j < s.len(),
        s[j].0@ == e.0@,
    ensures
        ids_distinct(s.update(j, e)),
{
    let u = s.update(j, e);
    assert forall|a: int, b: int|
        0 <= a < u.len() && 0 <= b < u.len() && a != b implies #[trigger] u[a].0@ != #[trigger] u[b].0@ by {
        assert(u[a].0@ == s[a].0@);
        assert(u[b].0@ == s[b].0@);
    }
}

proof fn lemma_binding_map_update(s: Seq<(String, ShortcutBinding)>, j: int, e: (String, ShortcutBinding))
    requires
        ids_distinct(s),
        0 <= j < s.len(),
        s[j].0@ == e.0@,
    ensures
        binding_map(s.update(j, e)) =~= binding_map(s).insert(e.0@, e.1.hotkey@),
{
    let u = s.update(j, e);
    lemma_ids_distinct_update(s, j, e);
    let m = binding_map(s).insert(e.0@, e.1.hotkey@);
    assert forall|k: Seq<char>| #[trigger] binding_map(u).contains_key(k) <==> m.contains_key(k) by {
        lemma_binding_map_dom(u, k);
        lemma_binding_map_dom(s, k);
        if exists|i: int| 0 <= i < s.len() && #[trigger] s[i].0@ == k {
            let i = choose|i: int| 0 <= i < s.len() && #[trigger] s[i].0@ == k;
            assert(u[i].0@ == k);
        }
        if exists|i: int| 0 <= i < u.len() && #[trigger] u[i].0@ == k {
            let i = choose|i: int| 0 <= i < u.len() && #[trigger] u[i].0@ == k;
            assert(s[i].0@ == k);
        }
    }
    assert forall|k: Seq<char>| #[trigger] binding_map(u).contains_key(k) implies binding_map(u)[k] == m[k] by {
        lemma_binding_map_dom(u, k);
        let i = choose|i: int| 0 <= i < u.len() && #[trigger] u[i].0@ == k;
        lemma_binding_map_at(u, i);
        if i != j {
            lemma_binding_map_at(s, i);
            assert(u[i] == s[i]);
        }
    }
}

/// The shortcut bindings of the settings, by binding id (such as
/// `transcribe` or `cancel`). Each id has at most one binding.
#[derive(Debug)]
pub struct ShortcutBindings {
    entries: Vec<(String, ShortcutBinding)>,
}

impl View for ShortcutBindings {
    type V = Map<Seq<char>, Seq<char>>;

    /// The hotkey text of each bound id.
    closed spec fn view(&self) -> Map<Seq<char>, Seq<char>> {
        binding_map(self.entries@)
    }
}

impl Clone for ShortcutBindings {
    fn clone(&self) -> (r: ShortcutBindings)
        ensures
            r@ == self@,
    {
        let entries = self.copy_entries(None);
        ShortcutBindings { entries }
    }
}

impl ShortcutBindings {
    #[verifier::type_invariant]
    spec fn well_formed(self) -> bool {
        ids_distinct(self.entries@)
    }

    /// No bindings.
    pub fn new() -> (r: ShortcutBindings)
        ensures
            r@ == Map::<Seq<char>, Seq<char>>::empty(),
    {
        let r = ShortcutBindings { entries: Vec::new() };
        assert(r.entries@.len() == 0);
        r
    }

    /// The number of bound ids.
    pub fn len(&self) -> (r: usize)
        ensures
            r == self@.dom().len(),
    {
        proof {
            use_type_invariant(self);
            self.lemma_len();
        }
        self.entries.len()
    }

    proof fn lemma_len(&self)
        requires
            ids_distinct(self.entries@),
        ensures
            self@.dom().finite(),
            self@.dom().len() == self.entries@.len(),
    {
        lemma_binding_map_len(self.entries@);
    }

    /// The binding of `id`, if it has one.
    pub fn get(&self, id: &str) -> (r: Option<&ShortcutBinding>)
        ensures
            r is Some <==> self@.contains_key(id@),
            r matches Some(b) ==> b.hotkey@ == self@[id@],
    {
        proof {
            use_type_invariant(self);
        }
        let n: usize = self.entries.len();
        let mut i: usize = 0;
        while i < n
            invariant
                n == self.entries@.len(),
                i <= n,
                ids_distinct(self.entries@),
                forall|k: int| 0 <= k < i ==> #[trigger] self.entries@[k].0@ != id@,
            decreases n - i,
        {
            if text_equals(self.entries[i].0.as_str(), id) {
                proof {
                    lemma_binding_map_at(self.entries@, i as int);
                }
                return Some(&self.entries[i].1);
            }
            i = i + 1;
        }
        proof {
            lemma_binding_map_dom(self.entries@, id@);
        }
        None
    }

    /// Binds `id` to `binding`, replacing the binding that `id` had.
    pub fn insert(&mut self, id: String, binding: ShortcutBinding)
        ensures
            final(self)@ == old(self)@.insert(id@, binding.hotkey@),
    {
        proof {
            use_type_invariant(&*self);
        }
        let mut entries: Vec<(String, ShortcutBinding)> = Vec::new();
        std::mem::swap(&mut entries, &mut self.entries);
        let ghost before = entries@;
        assert(before == old(self).entries@);
        let n: usize = entries.len();
        let mut i: usize = 0;
        while i < n
            invariant
                n == entries@.len(),
                entries@ == before,
                binding_map(before) == old(self)@,
                i <= n,
                ids_distinct(before),
                forall|k: int| 0 <= k < i ==> #[trigger] before[k].0@ != id@,
            decreases n - i,
        {
            if text_equals(entries[i].0.as_str(), id.as_str()) {
                let ghost e = (id, binding);
                proof {
                    lemma_binding_map_update(before, i as int, e);
                    lemma_ids_distinct_update(before, i as int, e);
                }
                entries.set(i, (id, binding));
                assert(entries@ =~= before.update(i as int, e));
                assert(binding_map(entries@) == binding_map(before).insert(id@, binding.hotkey@));
                self.entries = entries;
                assert(self@ == binding_map(entries@));
                return;
            }
            i = i + 1;
        }
        proof {
            lemma_binding_map_dom(before, id@);
        }
        entries.push((id, binding));
        assert(entries@.drop_last() =~= before);
        assert(ids_distinct(entries@)) by {
            let s = entries@;
            assert forall|a: int, b: int|
                0 <= a < s.len() && 0 <= b < s.len() && a != b implies #[trigger] s[a].0@ != #[trigger] s[b].0@ by {
                if a < n && b < n {
                    assert(s[a] == before[a] && s[b] == before[b]);
                } else if a < n {
                    assert(s[a] == before[a]);
                } else if b < n {
                    assert(s[b] == before[b]);
                }
            }
        }
        self.entries = entries;
    }

    /// Copies of the bindings, leaving out the id `skip` when it is given.
    fn copy_entries(&self, skip: Option<&str>) -> (r: Vec<(String, ShortcutBinding)>)
        ensures
            ids_distinct(r@),
            binding_map(r@) == match skip {
                Some(s) => self@.remove(s@),
                None => self@,
            },
    {
        proof {
            use_type_invariant(self);
        }
        let ghost all = self.entries@;
        let ghost excluded: Option<Seq<char>> = match skip {
            Some(s) => Some(s@),
            None => None,
        };
        let n: usize = self.entries.len();
        let mut out: Vec<(String, ShortcutBinding)> = Vec::new();
        let mut i: usize = 0;
        while i < n
            invariant
                n == all.len(),
                all == self.entries@,
                i <= n,
                ids_distinct(all),
                ids_distinct(out@),
                excluded == match skip {
                    Some(s) => Some(s@),
                    None => None::<Seq<char>>,
                },
                binding_map(out@) == match excluded {
                    Some(x) => binding_map(all.take(i as int)).remove(x),
                    None => binding_map(all.take(i as int)),
                },
            decreases n - i,
        {
            let keep = match skip {
                Some(s) => !text_equals(self.entries[i].0.as_str(), s),
                None => true,
            };
            let ghost prev = out@;
            let ghost e = all[i as int];
            assert(all.take(i + 1).drop_last() =~= all.take(i as int));
            assert(all.take(i + 1).last() == e);
            if keep {
                proof {
                    // the id is new among the copies
                    lemma_binding_map_dom(prev, e.0@);
                    lemma_binding_map_dom(all.take(i as int), e.0@);
                    if exists|k: int| 0 <= k < i && #[trigger] all.take(i as int)[k].0@ == e.0@ {
                        let k = choose|k: int| 0 <= k < i && #[trigger] all.take(i as int)[k].0@ == e.0@;
                        assert(all[k].0@ == all[i as int].0@);
                    }
                }
                let id = self.entries[i].0.clone();
                let hotkey = self.entries[i].1.hotkey.clone();
                out.push((id, ShortcutBinding { hotkey }));
                assert(out@.drop_last() =~= prev);
                assert(ids_distinct(out@)) by {
                    let s = out@;
                    assert forall|a: int, b: int|
                        0 <= a < s.len() && 0 <= b < s.len() && a != b implies #[trigger] s[a].0@ != #[trigger] s[b].0@ by {
                        if a < prev.len() && b < prev.len() {
                            assert(s[a] == prev[a] && s[b] == prev[b]);
                        } else if a < prev.len() {
                            assert(s[a] == prev[a]);
                            lemma_binding_map_dom(prev, s[b].0@);
                        } else if b < prev.len() {
                            assert(s[b] == prev[b]);
                            lemma_binding_map_dom(prev, s[a].0@);
                        }
                    }
                }
                assert(binding_map(out@) =~= match excluded {
                    Some(x) => binding_map(all.take(i + 1)).remove(x),
                    None => binding_map(all.take(i + 1)),
                });
            } else {
                assert(binding_map(out@) =~= match excluded {
                    Some(x) => binding_map(all.take(i + 1)).remove(x),
                    None => binding_map(all.take(i + 1)),
                });
            }
            i = i + 1;
        }
        assert(all.take(n as int) =~= all);
        out
    }

    /// The bindings as a list of (id, binding) pairs, one per bound id.
    pub fn to_vec(&self) -> (r: Vec<(String, ShortcutBinding)>)
        ensures
            ids_distinct(r@),
            binding_map(r@) == self@,
    {
        self.copy_entries(None)
    }

    /// The bindings that are registered when the tool starts: all but
    /// `cancel`, which is registered only while a recording runs.
    pub fn startup_bindings(&self) -> (r: Vec<(String, ShortcutBinding)>)
        ensures
            ids_distinct(r@),
            binding_map(r@) == self@.remove("cancel"@),
    {
        self.copy_entries(Some("cancel"))
    }
}

proof fn lemma_binding_map_len(s: Seq<(String, ShortcutBinding)>)
    requires
        ids_distinct(s),
    ensures
        binding_map(s).dom().finite(),
        binding_map(s).dom().len() == s.len(),
    decreases s.len(),
{
    if s.len() > 0 {
        let t = s.drop_last();
        assert(ids_distinct(t)) by {
            assert forall|a: int, b: int|
                0 <= a < t.len() && 0 <= b < t.len() && a != b implies #[trigger] t[a].0@ != #[trigger] t[b].0@ by {
                assert(t[a] == s[a] && t[b] == s[b]);
            }
        }
        lemma_binding_map_len(t);
        lemma_binding_map_dom(t, s.last().0@);
        if binding_map(t).contains_key(s.last().0@) {
            let i = choose|i: int| 0 <= i < t.len() && #[trigger] t[i].0@ == s.last().0@;
            assert(s[i].0@ == s[s.len() - 1].0@);
        }
    }
}

/// What `ShortcutBindings::insert` writes is what `ShortcutBindings::get`
/// reads back: when `after` is `before` with `id` bound to `hotkey` (the
/// state that `insert` leaves), `id` is bound to `hotkey` in `after`, and
/// every other id is bound in `after` exactly as in `before`.
pub proof fn lemma_bind_then_lookup(before: ShortcutBindings, after: ShortcutBindings, id: Seq<char>, hotkey: Seq<char>, other: Seq<char>)
    requires
        after@ == before@.insert(id, hotkey),
        other != id,
    ensures
        after@.contains_key(id),
        after@[id] == hotkey,
        after@.contains_key(other) == before@.contains_key(other),
        before@.contains_key(other) ==> after@[other] == before@[other],
{
}

// ---------------------------------------------------------------------------
// Main settings
// ---------------------------------------------------------------------------

/// All settings of the tool.
///
/// The two fractional settings are held as the IEEE-754 bit patterns of their
/// values (`f32` for the feedback volume, `f64` for the correction
/// threshold): the library only stores and hands them on.
#[derive(Clone, Debug)]
pub struct RadioCheckSettings {
    // Hotkeys
    pub bindings: ShortcutBindings,
    pub push_to_talk: bool,
    // Racing sim chat injection
    pub sim_preset: SimPreset,
    /// Key that opens the chat box (used for the `Generic` preset).
    pub chat_open_key: String,
    /// Press Enter automatically after pasting to send the message.
    pub auto_send: bool,
    /// Delay (ms) between pressing the chat-open key and pasting.
    pub chat_open_delay_ms: u64,
    // Audio
    pub selected_microphone: Option<String>,
    pub selected_output_device: Option<String>,
    pub always_on_microphone: bool,
    pub mute_while_recording: bool,
    pub audio_feedback: bool,
    /// Bits of the `f32` feedback volume.
    pub audio_feedback_volume_bits: u32,
    pub sound_theme: SoundTheme,
    // Model
    /// Empty text = no model selected.
    pub selected_model: String,
    pub model_unload_timeout: ModelUnloadTimeout,
    pub whisper_accelerator: WhisperAcceleratorSetting,
    pub ort_accelerator: OrtAcceleratorSetting,
    pub whisper_gpu_device: i32,
    // Transcription
    pub selected_language: String,
    pub translate_to_english: bool,
    pub custom_words: Vec<String>,
    pub custom_filler_words: Vec<String>,
    /// Bits of the `f64` word-correction threshold.
    pub word_correction_threshold_bits: u64,
    pub app_language: String,
    pub extra_recording_buffer_ms: u64,
    // Clamshell (macOS only)
    pub clamshell_microphone: Option<String>,
    // Misc
    pub debug_mode: bool,
    pub update_checks_enabled: bool,
}

/// The bits of the `f32` value 0.5, the default feedback volume.
pub const DEFAULT_FEEDBACK_VOLUME_BITS: u32 = 0x3F00_0000u32;

/// The bits of the `f64` value 0.8, the default word-correction threshold.
pub const DEFAULT_CORRECTION_THRESHOLD_BITS: u64 = 0x3FE9_9999_9999_999Au64;

/// The words that transcription favours out of the box: racing radio
/// phrases, sim terms and track names.
pub open spec fn default_custom_words() -> Seq<Seq<char>> {
    seq![
        "box"@, "box box"@, "push push"@,
        "affirm"@, "copy"@, "check copy"@,
        "understood"@, "radio check"@,
        "DRS"@, "safety car"@, "VSC"@,
        "pit lane"@, "pit window"@, "pit exit"@,
        "undercut"@, "overcut"@, "fuel load"@,
        "out lap"@, "in lap"@, "warm up"@,
        "outlap"@, "inlap"@,
        "iRating"@, "SoF"@, "caution"@,
        "yellow flag"@, "black flag"@, "checkered"@,
        "incident"@, "protest"@,
        "Balance of Performance"@, "BoP"@,
        "TC"@, "ABS"@, "brake bias"@,
        "Spa"@, "Monza"@, "Suzuka"@,
        "Nurburgring"@, "Silverstone"@, "Le Mans"@,
        "Zandvoort"@, "Imola"@, "Bahrain"@,
        "Interlagos"@, "Hungaroring"@, "Portimao"@,
    ]
}

/// The texts of a list of strings.
pub open spec fn texts(v: Seq<String>) -> Seq<Seq<char>> {
    v.map_values(|w: String| w@)
}

fn default_custom_word_list() -> (r: Vec<String>)
    ensures
        texts(r@) == default_custom_words(),
{
    let words: [&str; 47] = [
        "box", "box box", "push push",
        "affirm", "copy", "check copy",
        "understood", "radio check",
        "DRS", "safety car", "VSC",
        "pit lane", "pit window", "pit exit",
        "undercut", "overcut", "fuel load",
        "out lap", "in lap", "warm up",
        "outlap", "inlap",
        "iRating", "SoF", "caution",
        "yellow flag", "black flag", "checkered",
        "incident", "protest",
        "Balance of Performance", "BoP",
        "TC", "ABS", "brake bias",
        "Spa", "Monza", "Suzuka",
        "Nurburgring", "Silverstone", "Le Mans",
        "Zandvoort", "Imola", "Bahrain",
        "Interlagos", "Hungaroring", "Portimao",
    ];
    let ghost expected = default_custom_words();
    assert(expected.len() == 47);
    assert forall|k: int| 0 <= k < 47 implies #[trigger] words@[k]@ == expected[k] by {
        assert(words@[k]@ == expected[k]);
    }
    let mut out: Vec<String> = Vec::new();
    let mut i: usize = 0;
    while i < 47
        invariant
            i <= 47,
            out@.len() == i,
            forall|k: int| 0 <= k < 47 ==> #[trigger] words@[k]@ == expected[k],
            forall|k: int| 0 <= k < i ==> #[trigger] out@[k]@ == expected[k],
        decreases 47 - i,
    {
        out.push(String::from_str(words[i]));
        i = i + 1;
    }
    assert(texts(out@) =~= expected);
    out
}

impl Default for RadioCheckSettings {
    /// The settings of a first start: F1 to talk and Escape to cancel,
    /// the iRacing preset with Enter to open the chat and automatic sending
    /// after 150 ms, the Marimba sounds at half volume, no model selected
    /// and unloaded after five minutes, English, and the racing vocabulary.
    fn default() -> (s: RadioCheckSettings)
        ensures
            s.bindings@ == map!["transcribe"@ => "F1"@, "cancel"@ => "Escape"@],
            s.push_to_talk,
            s.sim_preset == SimPreset::IRacing,
            s.chat_open_key@ == "enter"@,
            s.auto_send,
            s.chat_open_delay_ms == 150,
            s.selected_microphone is None,
            s.selected_output_device is None,
            !s.always_on_microphone,
            !s.mute_while_recording,
            s.audio_feedback,
            s.audio_feedback_volume_bits == DEFAULT_FEEDBACK_VOLUME_BITS,
            s.sound_theme == SoundTheme::Marimba,
            s.selected_model@ == Seq::<char>::empty(),
            s.model_unload_timeout == ModelUnloadTimeout::FiveMinutes,
            s.whisper_accelerator == WhisperAcceleratorSetting::Auto,
            s.ort_accelerator == OrtAcceleratorSetting::Auto,
            s.whisper_gpu_device == -1,
            s.selected_language@ == "en"@,
            !s.translate_to_english,
            texts(s.custom_words@) == default_custom_words(),
            s.custom_filler_words@.len() == 0,
            s.word_correction_threshold_bits == DEFAULT_CORRECTION_THRESHOLD_BITS,
            s.app_language@ == "en"@,
            s.extra_recording_buffer_ms == 0,
            s.clamshell_microphone is None,
            !s.debug_mode,
            s.update_checks_enabled,
    {
        let mut bindings = ShortcutBindings::new();
        bindings.insert(String::from_str("transcribe"), ShortcutBinding { hotkey: String::from_str("F1") });
        bindings.insert(String::from_str("cancel"), ShortcutBinding { hotkey: String::from_str("Escape") });
        assert(bindings@ =~= map!["transcribe"@ => "F1"@, "cancel"@ => "Escape"@]);
        RadioCheckSettings {
            bindings,
            push_to_talk: true,
            sim_preset: SimPreset::IRacing,
            chat_open_key: String::from_str("enter"),
            auto_send: true,
            chat_open_delay_ms: 150,
            selected_microphone: None,
            selected_output_device: None,
            always_on_microphone: false,
            mute_while_recording: false,
            audio_feedback: true,
            audio_feedback_volume_bits: DEFAULT_FEEDBACK_VOLUME_BITS,
            sound_theme: SoundTheme::Marimba,
            selected_model: String::new(),
            model_unload_timeout: ModelUnloadTimeout::FiveMinutes,
            whisper_accelerator: WhisperAcceleratorSetting::Auto,
            ort_accelerator: OrtAcceleratorSetting::Auto,
            whisper_gpu_device: -1,
            selected_language: String::from_str("en"),
            translate_to_english: false,
            custom_words: default_custom_word_list(),
            custom_filler_words: Vec::new(),
            word_correction_threshold_bits: DEFAULT_CORRECTION_THRESHOLD_BITS,
            app_language: String::from_str("en"),
            extra_recording_buffer_ms: 0,
            clamshell_microphone: None,
            debug_mode: false,
            update_checks_enabled: true,
        }
    }
}

} // verus!

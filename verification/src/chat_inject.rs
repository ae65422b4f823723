//! Typing a transcribed message into a simulator's chat box: which key opens
//! the chat, and the keystroke plan that pastes the message and sends it.
use vstd::prelude::*;
use vstd::string::*;
use crate::settings::{RadioCheckSettings, SimPreset};
use crate::text::{
    ascii_lower, ascii_lowercase_text, is_one_byte, is_single_ascii, lowercase_text, text_equals, to_lowercase,
};
use vstd::utf8::is_ascii_chars;

verus! {

/// A key that the tool presses on the user's keyboard.
#[derive(Clone, Copy, Debug, PartialEq, Eq, Structural)]
pub enum ChatKey {
    Return,
    Tab,
    Space,
    Escape,
    Control,
    F1,
    F2,
    F3,
    F4,
    F5,
    F6,
    F7,
    F8,
    F9,
    F10,
    F11,
    F12,
    /// The key that types this character.
    Unicode(char),
    /// A key given by its platform key code.
    Other(u32),
}

/// The key that a lowercase key name stands for: the named keys, any single
/// ASCII character as the key that types it, and `Return` for every other
/// name.
pub open spec fn key_for_lowercase(name: Seq<char>) -> ChatKey {
    if name == "enter"@ || name == "return"@ {
        ChatKey::Return
    } else if name == "tab"@ {
        ChatKey::Tab
    } else if name == "space"@ {
        ChatKey::Space
    } else if name == "escape"@ || name == "esc"@ {
        ChatKey::Escape
    } else if name == "f1"@ {
        ChatKey::F1
    } else if name == "f2"@ {
        ChatKey::F2
    } else if name == "f3"@ {
        ChatKey::F3
    } else if name == "f4"@ {
        ChatKey::F4
    } else if name == "f5"@ {
        ChatKey::F5
    } else if name == "f6"@ {
        ChatKey::F6
    } else if name == "f7"@ {
        ChatKey::F7
    } else if name == "f8"@ {
        ChatKey::F8
    } else if name == "f9"@ {
        ChatKey::F9
    } else if name == "f10"@ {
        ChatKey::F10
    } else if name == "f11"@ {
        ChatKey::F11
    } else if name == "f12"@ {
        ChatKey::F12
    } else if is_single_ascii(name) {
        ChatKey::Unicode(name[0])
    } else {
        ChatKey::Return
    }
}

/// The key for a key name that is already in lowercase.
pub fn key_from_lowercase(name: &str) -> (k: ChatKey)
    ensures
        k == key_for_lowercase(name@),
{
    if text_equals(name, "enter") || text_equals(name, "return") {
        ChatKey::Return
    } else if text_equals(name, "tab") {
        ChatKey::Tab
    } else if text_equals(name, "space") {
        ChatKey::Space
    } else if text_equals(name, "escape") || text_equals(name, "esc") {
        ChatKey::Escape
    } else if text_equals(name, "f1") {
        ChatKey::F1
    } else if text_equals(name, "f2") {
        ChatKey::F2
    } else if text_equals(name, "f3") {
        ChatKey::F3
    } else if text_equals(name, "f4") {
        ChatKey::F4
    } else if text_equals(name, "f5") {
        ChatKey::F5
    } else if text_equals(name, "f6") {
        ChatKey::F6
    } else if text_equals(name, "f7") {
        ChatKey::F7
    } else if text_equals(name, "f8") {
        ChatKey::F8
    } else if text_equals(name, "f9") {
        ChatKey::F9
    } else if text_equals(name, "f10") {
        ChatKey::F10
    } else if text_equals(name, "f11") {
        ChatKey::F11
    } else if text_equals(name, "f12") {
        ChatKey::F12
    } else if is_one_byte(name) {
        // single letters such as "t", "y", "m" or "c" land here
        ChatKey::Unicode(name.get_char(0))
    } else {
        ChatKey::Return
    }
}

/// Maps a human-readable key name, in any letter case, to a key; a name that
/// names no key gives `Return`.
pub fn parse_key(key_str: &str) -> (k: ChatKey)
    ensures
        k == key_for_lowercase(lowercase_text(key_str@)),
        is_ascii_chars(key_str@) ==> k == key_for_lowercase(ascii_lowercase_text(key_str@)),
{
    let lower = to_lowercase(key_str);
    key_from_lowercase(lower.as_str())
}

/// The key that opens the chat box of a simulator; `configured` is the
/// lowercase form of the configured key name, used for the generic preset.
pub open spec fn open_key_for(preset: SimPreset, configured: Seq<char>) -> ChatKey {
    match preset {
        SimPreset::IRacing => ChatKey::Return,
        SimPreset::AssettoCorsaACC => ChatKey::Unicode('t'),
        SimPreset::Generic => key_for_lowercase(configured),
    }
}

/// The key that opens the chat box: Enter in iRacing, `t` in Assetto Corsa
/// Competizione, the configured key for any other simulator.
pub fn chat_open_key(preset: SimPreset, configured_key: &str) -> (k: ChatKey)
    ensures
        k == open_key_for(preset, lowercase_text(configured_key@)),
{
    match preset {
        SimPreset::IRacing => ChatKey::Return,
        SimPreset::AssettoCorsaACC => ChatKey::Unicode('t'),
        SimPreset::Generic => parse_key(configured_key),
    }
}

/// The shortest wait after opening the chat box, in milliseconds.
pub const MIN_CHAT_OPEN_DELAY_MS: u64 = 50;

/// The longest wait after opening the chat box, in milliseconds.
pub const MAX_CHAT_OPEN_DELAY_MS: u64 = 2000;

/// The configured wait kept within 50 and 2000 milliseconds.
pub open spec fn clamped_delay(ms: u64) -> u64 {
    if ms < MIN_CHAT_OPEN_DELAY_MS {
        MIN_CHAT_OPEN_DELAY_MS
    } else if ms > MAX_CHAT_OPEN_DELAY_MS {
        MAX_CHAT_OPEN_DELAY_MS
    } else {
        ms
    }
}

/// The wait between opening the chat box and pasting.
pub fn chat_open_delay(ms: u64) -> (r: u64)
    ensures
        r == clamped_delay(ms),
        MIN_CHAT_OPEN_DELAY_MS <= r <= MAX_CHAT_OPEN_DELAY_MS,
{
    if ms < MIN_CHAT_OPEN_DELAY_MS {
        MIN_CHAT_OPEN_DELAY_MS
    } else if ms > MAX_CHAT_OPEN_DELAY_MS {
        MAX_CHAT_OPEN_DELAY_MS
    } else {
        ms
    }
}

/// Keeping a wait within bounds twice changes nothing, and a wait already
/// within bounds is kept as configured.
pub proof fn lemma_delay_clamp(ms: u64)
    ensures
        clamped_delay(clamped_delay(ms)) == clamped_delay(ms),
        MIN_CHAT_OPEN_DELAY_MS <= ms <= MAX_CHAT_OPEN_DELAY_MS ==> clamped_delay(ms) == ms,
{
}

/// No key name reads as a modifier or as a raw key code: a name gives a
/// named key, the key of one ASCII character, or `Return`.
pub proof fn lemma_key_is_never_modifier(name: Seq<char>)
    ensures
        key_for_lowercase(name) != ChatKey::Control,
        !(key_for_lowercase(name) is Other),
        key_for_lowercase(name) matches ChatKey::Unicode(c) ==> (c as u32) < 128,
{
}

/// An ASCII key name, in any letter case, never reads as the key of a
/// capital letter: the key it gives is the one `parse_key` gives for it.
pub proof fn lemma_ascii_key_not_capital(name: Seq<char>)
    requires
        is_ascii_chars(name),
    ensures
        key_for_lowercase(ascii_lowercase_text(name)) matches ChatKey::Unicode(c) ==> !('A' <= c <= 'Z'),
{
    let lower = ascii_lowercase_text(name);
    if is_single_ascii(lower) {
        assert(lower[0] == ascii_lower(name[0]));
    }
}

/// How the paste shortcut's letter is typed: on Windows by the virtual key
/// code of V (0x56), elsewhere by the character `v`.
#[derive(Clone, Copy, Debug, PartialEq, Eq, Structural)]
pub enum PasteKey {
    VirtualKeyV,
    LetterV,
}

/// The key that the paste shortcut presses together with Control.
pub open spec fn paste_letter(paste: PasteKey) -> ChatKey {
    match paste {
        PasteKey::VirtualKeyV => ChatKey::Other(0x56),
        PasteKey::LetterV => ChatKey::Unicode('v'),
    }
}

/// One step of typing a message into the chat box.
#[derive(Clone, Copy, Debug, PartialEq, Eq, Structural)]
pub enum InjectionStep {
    /// Press and release a key.
    Click(ChatKey),
    /// Press a key and hold it.
    Press(ChatKey),
    /// Release a held key.
    Release(ChatKey),
    /// Wait this many milliseconds.
    Pause(u64),
    /// Put the message text on the clipboard.
    CopyMessage,
}

/// The steps that type a non-empty message: open the chat, wait, copy the
/// message, paste it with Control held, and press Enter when sending is on.
pub open spec fn injection_steps(open_key: ChatKey, delay: u64, paste: PasteKey, auto_send: bool) -> Seq<InjectionStep> {
    let body = seq![
        InjectionStep::Click(open_key),
        InjectionStep::Pause(clamped_delay(delay)),
        InjectionStep::CopyMessage,
        InjectionStep::Pause(30),
        InjectionStep::Press(ChatKey::Control),
        InjectionStep::Click(paste_letter(paste)),
        InjectionStep::Pause(50),
        InjectionStep::Release(ChatKey::Control),
    ];
    if auto_send {
        body + seq![InjectionStep::Pause(50), InjectionStep::Click(ChatKey::Return)]
    } else {
        body
    }
}

/// The keystroke plan that types `text` into the simulator's chat box under
/// the given settings; an empty message types nothing.
pub fn injection_plan(text: &str, settings: &RadioCheckSettings, paste: PasteKey) -> (plan: Vec<InjectionStep>)
    ensures
        plan@ == if text@.len() == 0 {
            Seq::<InjectionStep>::empty()
        } else {
            injection_steps(
                open_key_for(settings.sim_preset, lowercase_text(settings.chat_open_key@)),
                settings.chat_open_delay_ms,
                paste,
                settings.auto_send,
            )
        },
{
    let mut plan: Vec<InjectionStep> = Vec::new();
    if text.is_empty() {
        return plan;
    }
    let open_key = chat_open_key(settings.sim_preset, settings.chat_open_key.as_str());
    let delay = chat_open_delay(settings.chat_open_delay_ms);
    let letter = match paste {
        PasteKey::VirtualKeyV => ChatKey::Other(0x56),
        PasteKey::LetterV => ChatKey::Unicode('v'),
    };
    plan.push(InjectionStep::Click(open_key));
    plan.push(InjectionStep::Pause(delay));
    plan.push(InjectionStep::CopyMessage);
    plan.push(InjectionStep::Pause(30));
    plan.push(InjectionStep::Press(ChatKey::Control));
    plan.push(InjectionStep::Click(letter));
    plan.push(InjectionStep::Pause(50));
    plan.push(InjectionStep::Release(ChatKey::Control));
    if settings.auto_send {
        plan.push(InjectionStep::Pause(50));
        plan.push(InjectionStep::Click(ChatKey::Return));
    }
    let ghost expected = injection_steps(
        open_key_for(settings.sim_preset, lowercase_text(settings.chat_open_key@)),
        settings.chat_open_delay_ms,
        paste,
        settings.auto_send,
    );
    assert(plan@ =~= expected);
    plan
}

/// The prefix of the error that a failing step of a plan is reported with;
/// `first` tells whether the step opens the plan. A pause cannot fail and
/// has none.
pub open spec fn failure_prefix_for(step: InjectionStep, first: bool, paste: PasteKey) -> Option<Seq<char>> {
    if first {
        Some("Failed to press chat-open key"@)
    } else {
        match step {
            InjectionStep::Press(_) => Some("Failed to press Ctrl"@),
            InjectionStep::Release(_) => Some("Failed to release Ctrl"@),
            InjectionStep::Click(k) => if k == paste_letter(paste) {
                match paste {
                    PasteKey::VirtualKeyV => Some("Failed to click V"@),
                    PasteKey::LetterV => Some("Failed to click v"@),
                }
            } else {
                Some("Failed to press Enter to send"@)
            },
            InjectionStep::CopyMessage => Some("Failed to set clipboard"@),
            InjectionStep::Pause(_) => None,
        }
    }
}

/// The prefix of the error that reports a failing step of a plan.
pub fn failure_prefix(step: InjectionStep, first: bool, paste: PasteKey) -> (r: Option<&'static str>)
    ensures
        match (r, failure_prefix_for(step, first, paste)) {
            (Some(t), Some(u)) => t@ == u,
            (None, None) => true,
            _ => false,
        },
{
    if first {
        return Some("Failed to press chat-open key");
    }
    let letter = match paste {
        PasteKey::VirtualKeyV => ChatKey::Other(0x56),
        PasteKey::LetterV => ChatKey::Unicode('v'),
    };
    match step {
        InjectionStep::Press(_) => Some("Failed to press Ctrl"),
        InjectionStep::Release(_) => Some("Failed to release Ctrl"),
        InjectionStep::Click(k) => {
            if k == letter {
                match paste {
                    PasteKey::VirtualKeyV => Some("Failed to click V"),
                    PasteKey::LetterV => Some("Failed to click v"),
                }
            } else {
                Some("Failed to press Enter to send")
            }
        },
        InjectionStep::CopyMessage => Some("Failed to set clipboard"),
        InjectionStep::Pause(_) => None,
    }
}

/// The message that the settings screen sends to test the chat pipeline.
pub fn test_message() -> (r: &'static str)
    ensures
        r@ == "RadioCheck test"@,
{
    "RadioCheck test"
}

// ---------------------------------------------------------------------------
// Properties of every plan
// ---------------------------------------------------------------------------

/// How many times the plan presses `key` and holds it, minus how many times
/// it releases it.
pub open spec fn held_balance(steps: Seq<InjectionStep>, key: ChatKey) -> int
    decreases steps.len(),
{
    if steps.len() == 0 {
        0
    } else {
        held_balance(steps.drop_last(), key) + match steps.last() {
            InjectionStep::Press(k) => if k == key { 1int } else { 0int },
            InjectionStep::Release(k) => if k == key { -1int } else { 0int },
            _ => 0int,
        }
    }
}

/// Every plan copies the message before it pastes, opens the chat with its
/// first keystroke, leaves Control released at the end, waits between 50 and
/// 2000 milliseconds for the chat box, and presses Enter last exactly when
/// sending is on.
pub proof fn lemma_plan_shape(open_key: ChatKey, delay: u64, paste: PasteKey, auto_send: bool)
    ensures
        ({
            let s = injection_steps(open_key, delay, paste, auto_send);
            &&& s[0] == InjectionStep::Click(open_key)
            &&& s[1] matches InjectionStep::Pause(ms) && MIN_CHAT_OPEN_DELAY_MS <= ms <= MAX_CHAT_OPEN_DELAY_MS
            &&& s[2] == InjectionStep::CopyMessage
            &&& held_balance(s, ChatKey::Control) == 0
            &&& (s.last() == InjectionStep::Click(ChatKey::Return)) == auto_send
            &&& s.len() == if auto_send { 10nat } else { 8nat }
        }),
{
    let s = injection_steps(open_key, delay, paste, auto_send);
    reveal_with_fuel(held_balance, 11);
    if open_key == ChatKey::Control {
        assert(held_balance(s, ChatKey::Control) == 0);
    }
    assert(paste_letter(paste) != ChatKey::Return);
}

/// The paste shortcut is a chord: every click of the paste letter after
/// the chat is opened happens while Control is held down (pressed and not
/// yet released), and it comes after the message was copied; when the
/// message is sent, Enter is pressed with Control released.
pub proof fn lemma_paste_while_control_held(open_key: ChatKey, delay: u64, paste: PasteKey, auto_send: bool)
    ensures
        ({
            let s = injection_steps(open_key, delay, paste, auto_send);
            &&& exists|j: int|
                0 < j < s.len() && s[j] == InjectionStep::Click(paste_letter(paste))
                    && #[trigger] held_balance(s.take(j), ChatKey::Control) == 1
                    && (exists|i: int| 0 <= i < j && s[i] == InjectionStep::CopyMessage)
            &&& forall|j: int|
                0 < j < s.len() && s[j] == InjectionStep::Click(paste_letter(paste))
                    ==> #[trigger] held_balance(s.take(j), ChatKey::Control) == 1
            &&& auto_send ==> s.last() == InjectionStep::Click(ChatKey::Return)
                && held_balance(s.take(s.len() - 1), ChatKey::Control) == 0
        }),
{
    let s = injection_steps(open_key, delay, paste, auto_send);
    let letter = paste_letter(paste);
    reveal_with_fuel(held_balance, 11);
    assert(letter != ChatKey::Return && letter != ChatKey::Control);
    assert(s.take(5) =~= seq![
        InjectionStep::Click(open_key),
        InjectionStep::Pause(clamped_delay(delay)),
        InjectionStep::CopyMessage,
        InjectionStep::Pause(30),
        InjectionStep::Press(ChatKey::Control),
    ]);
    assert(held_balance(s.take(5), ChatKey::Control) == 1);
    assert(s[2] == InjectionStep::CopyMessage);
    assert forall|j: int|
        0 < j < s.len() && s[j] == InjectionStep::Click(paste_letter(paste))
            implies #[trigger] held_balance(s.take(j), ChatKey::Control) == 1 by {
        assert(j == 5);
    }
    if auto_send {
        assert(s.take(s.len() - 1) =~= s.take(9));
        assert(s.take(9) =~= s.take(8).push(InjectionStep::Pause(50)));
        assert(s.take(8).drop_last() =~= s.take(7));
        assert(s.take(7).drop_last() =~= s.take(6));
        assert(s.take(6).drop_last() =~= s.take(5));
        assert(held_balance(s.take(9), ChatKey::Control) == 0);
    }
}

/// Each function-key name reads as the function key it names, and the key
/// names of the table read as distinct keys: `f1` to `f12` as `F1` to
/// `F12`, `tab`, `space`, `escape` as their keys, `enter` as `Return`.
pub proof fn lemma_named_keys()
    ensures
        key_for_lowercase(seq!['f', '1']) == ChatKey::F1,
        key_for_lowercase(seq!['f', '2']) == ChatKey::F2,
        key_for_lowercase(seq!['f', '3']) == ChatKey::F3,
        key_for_lowercase(seq!['f', '4']) == ChatKey::F4,
        key_for_lowercase(seq!['f', '5']) == ChatKey::F5,
        key_for_lowercase(seq!['f', '6']) == ChatKey::F6,
        key_for_lowercase(seq!['f', '7']) == ChatKey::F7,
        key_for_lowercase(seq!['f', '8']) == ChatKey::F8,
        key_for_lowercase(seq!['f', '9']) == ChatKey::F9,
        key_for_lowercase(seq!['f', '1', '0']) == ChatKey::F10,
        key_for_lowercase(seq!['f', '1', '1']) == ChatKey::F11,
        key_for_lowercase(seq!['f', '1', '2']) == ChatKey::F12,
        key_for_lowercase(seq!['t', 'a', 'b']) == ChatKey::Tab,
        key_for_lowercase(seq!['s', 'p', 'a', 'c', 'e']) == ChatKey::Space,
        key_for_lowercase(seq!['e', 's', 'c', 'a', 'p', 'e']) == ChatKey::Escape,
        key_for_lowercase(seq!['e', 's', 'c']) == ChatKey::Escape,
        key_for_lowercase(seq!['e', 'n', 't', 'e', 'r']) == ChatKey::Return,
        key_for_lowercase(seq!['r', 'e', 't', 'u', 'r', 'n']) == ChatKey::Return,
{
    reveal_strlit("enter");
    reveal_strlit("return");
    reveal_strlit("tab");
    reveal_strlit("space");
    reveal_strlit("escape");
    reveal_strlit("esc");
    reveal_strlit("f1");
    reveal_strlit("f2");
    reveal_strlit("f3");
    reveal_strlit("f4");
    reveal_strlit("f5");
    reveal_strlit("f6");
    reveal_strlit("f7");
    reveal_strlit("f8");
    reveal_strlit("f9");
    reveal_strlit("f10");
    reveal_strlit("f11");
    reveal_strlit("f12");
    assert("enter"@ =~= seq!['e', 'n', 't', 'e', 'r']);
    assert("return"@ =~= seq!['r', 'e', 't', 'u', 'r', 'n']);
    assert("tab"@ =~= seq!['t', 'a', 'b']);
    assert("space"@ =~= seq!['s', 'p', 'a', 'c', 'e']);
    assert("escape"@ =~= seq!['e', 's', 'c', 'a', 'p', 'e']);
    assert("esc"@ =~= seq!['e', 's', 'c']);
    assert("f1"@ =~= seq!['f', '1']);
    assert("f2"@ =~= seq!['f', '2']);
    assert("f3"@ =~= seq!['f', '3']);
    assert("f4"@ =~= seq!['f', '4']);
    assert("f5"@ =~= seq!['f', '5']);
    assert("f6"@ =~= seq!['f', '6']);
    assert("f7"@ =~= seq!['f', '7']);
    assert("f8"@ =~= seq!['f', '8']);
    assert("f9"@ =~= seq!['f', '9']);
    assert("f10"@ =~= seq!['f', '1', '0']);
    assert("f11"@ =~= seq!['f', '1', '1']);
    assert("f12"@ =~= seq!['f', '1', '2']);
}

} // verus!

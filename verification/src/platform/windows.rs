//! Windows key handling: virtual-key codes, and what a key-down does to the
//! tracker.
use vstd::prelude::*;
use crate::de::methods::{run, transform, IncrementalBuffer};
use crate::de::rules::Action;
use crate::platform::tracker::{clear_tracker, handle_backspace, handle_transform, KeyOutcome};
use crate::text::{pop_last, string_push};

verus! {

broadcast use vstd::string::group_string_axioms;

pub const VK_BACK: u16 = 8;
pub const VK_TAB: u16 = 9;
pub const VK_RETURN: u16 = 13;
pub const VK_SHIFT: u16 = 16;
pub const VK_CONTROL: u16 = 17;
pub const VK_CAPITAL: u16 = 20;
pub const VK_ESCAPE: u16 = 27;
pub const VK_SPACE: u16 = 32;
pub const VK_LEFT: u16 = 37;
pub const VK_UP: u16 = 38;
pub const VK_RIGHT: u16 = 39;
pub const VK_DOWN: u16 = 40;
pub const VK_0: u16 = 48;
pub const VK_1: u16 = 49;
pub const VK_2: u16 = 50;
pub const VK_3: u16 = 51;
pub const VK_4: u16 = 52;
pub const VK_5: u16 = 53;
pub const VK_6: u16 = 54;
pub const VK_7: u16 = 55;
pub const VK_8: u16 = 56;
pub const VK_9: u16 = 57;
pub const VK_A: u16 = 65;
pub const VK_B: u16 = 66;
pub const VK_C: u16 = 67;
pub const VK_D: u16 = 68;
pub const VK_E: u16 = 69;
pub const VK_F: u16 = 70;
pub const VK_G: u16 = 71;
pub const VK_H: u16 = 72;
pub const VK_I: u16 = 73;
pub const VK_J: u16 = 74;
pub const VK_K: u16 = 75;
pub const VK_L: u16 = 76;
pub const VK_M: u16 = 77;
pub const VK_N: u16 = 78;
pub const VK_O: u16 = 79;
pub const VK_P: u16 = 80;
pub const VK_Q: u16 = 81;
pub const VK_R: u16 = 82;
pub const VK_S: u16 = 83;
pub const VK_T: u16 = 84;
pub const VK_U: u16 = 85;
pub const VK_V: u16 = 86;
pub const VK_W: u16 = 87;
pub const VK_X: u16 = 88;
pub const VK_Y: u16 = 89;
pub const VK_Z: u16 = 90;
pub const VK_OEM_1: u16 = 186;
pub const VK_OEM_PLUS: u16 = 187;
pub const VK_OEM_COMMA: u16 = 188;
pub const VK_OEM_MINUS: u16 = 189;
pub const VK_OEM_PERIOD: u16 = 190;
pub const VK_OEM_2: u16 = 191;
pub const VK_OEM_3: u16 = 192;
pub const VK_OEM_4: u16 = 219;
pub const VK_OEM_5: u16 = 220;
pub const VK_OEM_6: u16 = 221;
pub const VK_OEM_7: u16 = 222;

/// The lower-case letter on a letter key.
pub open spec fn win_letter_key(vk: u16) -> Option<char> {
    if VK_A <= vk && vk <= VK_Z {
        Some(((vk as u32) + 32) as char)
    } else {
        None
    }
}

/// The characters on a digit or punctuation key: without and with shift.
pub open spec fn win_symbol_key(vk: u16) -> Option<(char, char)> {
    if vk == VK_0 {
        Some(('0', ')'))
    } else if vk == VK_1 {
        Some(('1', '!'))
    } else if vk == VK_2 {
        Some(('2', '@'))
    } else if vk == VK_3 {
        Some(('3', '#'))
    } else if vk == VK_4 {
        Some(('4', '$'))
    } else if vk == VK_5 {
        Some(('5', '%'))
    } else if vk == VK_6 {
        Some(('6', '^'))
    } else if vk == VK_7 {
        Some(('7', '&'))
    } else if vk == VK_8 {
        Some(('8', '*'))
    } else if vk == VK_9 {
        Some(('9', '('))
    } else if vk == VK_OEM_MINUS {
        Some(('-', '_'))
    } else if vk == VK_OEM_PLUS {
        Some(('=', '+'))
    } else if vk == VK_OEM_4 {
        Some(('[', '{'))
    } else if vk == VK_OEM_6 {
        Some((']', '}'))
    } else if vk == VK_OEM_5 {
        Some(('\\', '|'))
    } else if vk == VK_OEM_1 {
        Some((';', ':'))
    } else if vk == VK_OEM_7 {
        Some(('\'', '"'))
    } else if vk == VK_OEM_COMMA {
        Some((',', '<'))
    } else if vk == VK_OEM_PERIOD {
        Some(('.', '>'))
    } else if vk == VK_OEM_2 {
        Some(('/', '?'))
    } else if vk == VK_OEM_3 {
        Some(('`', '~'))
    } else {
        None
    }
}

/// The character that a white-space key types.
pub open spec fn win_space_key(vk: u16) -> Option<char> {
    if vk == VK_SPACE {
        Some(' ')
    } else if vk == VK_RETURN {
        Some('\n')
    } else if vk == VK_TAB {
        Some('\t')
    } else {
        None
    }
}

/// The character a key types: letters are upper-case when exactly one of
/// shift and caps lock is on, digits and punctuation follow shift alone.
pub open spec fn win_key_char(vk: u16, shift: bool, caps_lock: bool) -> Option<char> {
    match win_letter_key(vk) {
        Some(l) => Some(if shift != caps_lock { ((l as u32) - 32) as char } else { l }),
        None => match win_symbol_key(vk) {
            Some(pair) => Some(if shift { pair.1 } else { pair.0 }),
            None => win_space_key(vk),
        },
    }
}

/// The character that virtual key `vk` types under the given shift and
/// caps-lock state, or `None` for a key that types nothing the buffer
/// composes.
pub fn win_vk_to_char(vk: u16, shift: bool, caps_lock: bool) -> (r: Option<char>)
    ensures
        r == win_key_char(vk, shift, caps_lock),
{
    let uppercase = shift ^ caps_lock;

    match vk {
        VK_A => Some(if uppercase { 'A' } else { 'a' }),
        VK_B => Some(if uppercase { 'B' } else { 'b' }),
        VK_C => Some(if uppercase { 'C' } else { 'c' }),
        VK_D => Some(if uppercase { 'D' } else { 'd' }),
        VK_E => Some(if uppercase { 'E' } else { 'e' }),
        VK_F => Some(if uppercase { 'F' } else { 'f' }),
        VK_G => Some(if uppercase { 'G' } else { 'g' }),
        VK_H => Some(if uppercase { 'H' } else { 'h' }),
        VK_I => Some(if uppercase { 'I' } else { 'i' }),
        VK_J => Some(if uppercase { 'J' } else { 'j' }),
        VK_K => Some(if uppercase { 'K' } else { 'k' }),
        VK_L => Some(if uppercase { 'L' } else { 'l' }),
        VK_M => Some(if uppercase { 'M' } else { 'm' }),
        VK_N => Some(if uppercase { 'N' } else { 'n' }),
        VK_O => Some(if uppercase { 'O' } else { 'o' }),
        VK_P => Some(if uppercase { 'P' } else { 'p' }),
        VK_Q => Some(if uppercase { 'Q' } else { 'q' }),
        VK_R => Some(if uppercase { 'R' } else { 'r' }),
        VK_S => Some(if uppercase { 'S' } else { 's' }),
        VK_T => Some(if uppercase { 'T' } else { 't' }),
        VK_U => Some(if uppercase { 'U' } else { 'u' }),
        VK_V => Some(if uppercase { 'V' } else { 'v' }),
        VK_W => Some(if uppercase { 'W' } else { 'w' }),
        VK_X => Some(if uppercase { 'X' } else { 'x' }),
        VK_Y => Some(if uppercase { 'Y' } else { 'y' }),
        VK_Z => Some(if uppercase { 'Z' } else { 'z' }),

        VK_0 => Some(if shift { ')' } else { '0' }),
        VK_1 => Some(if shift { '!' } else { '1' }),
        VK_2 => Some(if shift { '@' } else { '2' }),
        VK_3 => Some(if shift { '#' } else { '3' }),
        VK_4 => Some(if shift { '$' } else { '4' }),
        VK_5 => Some(if shift { '%' } else { '5' }),
        VK_6 => Some(if shift { '^' } else { '6' }),
        VK_7 => Some(if shift { '&' } else { '7' }),
        VK_8 => Some(if shift { '*' } else { '8' }),
        VK_9 => Some(if shift { '(' } else { '9' }),
        VK_OEM_MINUS => Some(if shift { '_' } else { '-' }),
        VK_OEM_PLUS => Some(if shift { '+' } else { '=' }),
        VK_OEM_4 => Some(if shift { '{' } else { '[' }),
        VK_OEM_6 => Some(if shift { '}' } else { ']' }),
        VK_OEM_5 => Some(if shift { '|' } else { '\\' }),
        VK_OEM_1 => Some(if shift { ':' } else { ';' }),
        VK_OEM_7 => Some(if shift { '"' } else { '\'' }),
        VK_OEM_COMMA => Some(if shift { '<' } else { ',' }),
        VK_OEM_PERIOD => Some(if shift { '>' } else { '.' }),
        VK_OEM_2 => Some(if shift { '?' } else { '/' }),
        VK_OEM_3 => Some(if shift { '~' } else { '`' }),

        VK_SPACE => Some(' '),
        VK_RETURN => Some('\n'),
        VK_TAB => Some('\t'),

        _ => None,
    }
}

/// A key that moves the cursor or ends a line.
pub open spec fn is_win_word_break_key(vk: u16) -> bool {
    vk == VK_RETURN || vk == VK_TAB || vk == VK_ESCAPE || vk == VK_LEFT || vk == VK_RIGHT
        || vk == VK_UP || vk == VK_DOWN
}

/// Whether the key ends what the tracker follows.
pub fn should_clear_tracker_win(vk: u16) -> (r: bool)
    ensures
        r == is_win_word_break_key(vk),
{
    match vk {
        VK_RETURN | VK_TAB | VK_ESCAPE | VK_LEFT | VK_RIGHT | VK_UP | VK_DOWN => true,
        _ => false,
    }
}

/// Control + shift + Z: the shortcut that toggles the engine.
pub fn is_toggle_shortcut(vk: u16, ctrl: bool, shift: bool) -> (r: bool)
    ensures
        r == (vk == VK_Z && ctrl && shift),
{
    vk == VK_Z && ctrl && shift
}

/// The tracker after a key-down of `vk`.
pub open spec fn win_tracker_after_key(tracker: Seq<char>, vk: u16, shift: bool, caps_lock: bool) -> Seq<
    char,
> {
    if is_win_word_break_key(vk) {
        Seq::empty()
    } else if vk == VK_BACK {
        pop_last(tracker)
    } else {
        match win_key_char(vk, shift, caps_lock) {
            Some(ch) => tracker.push(ch),
            None => tracker,
        }
    }
}

/// The key is composable text: it reaches the buffer.
pub open spec fn win_key_types_text(vk: u16, shift: bool, caps_lock: bool) -> bool {
    &&& !is_win_word_break_key(vk)
    &&& vk != VK_BACK
    &&& win_key_char(vk, shift, caps_lock) is Some
}

/// What a key-down of `vk` does, when it reaches the engine: the tracker
/// `t0` becomes `t1`, the buffer's history and output `h0`, `o0` become
/// `h1`, `o1`, and `outcome` is the decision.
///
/// When the key types text, the whole tracked word (with the new key) is
/// composed; if the composition differs from the raw keys, the key is
/// swallowed and the composition of the word before the key, which is what
/// the screen shows, is replaced by the new composition.
pub open spec fn win_key_down_effect(
    rules: Map<char, Action>,
    h0: Seq<char>,
    o0: Seq<char>,
    t0: Seq<char>,
    vk: u16,
    shift: bool,
    caps: bool,
    t1: Seq<char>,
    h1: Seq<char>,
    o1: Seq<char>,
    outcome: KeyOutcome,
) -> bool {
    &&& t1 == win_tracker_after_key(t0, vk, shift, caps)
    &&& !win_key_types_text(vk, shift, caps) ==> {
        &&& outcome is Pass
        &&& h1 == h0
        &&& o1 == o0
    }
    &&& win_key_types_text(vk, shift, caps) ==> {
        let composed = run(rules, h0, o0, t1).1;
        &&& h1 == Seq::<char>::empty()
        &&& o1 == Seq::<char>::empty()
        &&& match outcome {
            KeyOutcome::Pass => composed == t1,
            KeyOutcome::Replace { delete_count, text } => {
                &&& composed != t1
                &&& text@ == composed
                &&& delete_count == transform(rules, t0).len()
            },
            _ => false,
        }
    }
}

/// Handles a key-down that reaches the engine: updates the tracker and
/// decides whether the typed word is to be replaced (see
/// `win_key_down_effect`).
pub fn handle_key_down(
    buffer: &mut IncrementalBuffer,
    tracker: &mut String,
    vk: u16,
    shift: bool,
    caps: bool,
) -> (outcome: KeyOutcome)
    ensures
        final(buffer).rules() == old(buffer).rules(),
        win_key_down_effect(
            old(buffer).rules(),
            old(buffer).history(),
            old(buffer).output(),
            old(tracker)@,
            vk,
            shift,
            caps,
            final(tracker)@,
            final(buffer).history(),
            final(buffer).output(),
            outcome,
        ),
{
    if should_clear_tracker_win(vk) {
        clear_tracker(tracker);
        return KeyOutcome::Pass;
    }
    if vk == VK_BACK {
        handle_backspace(tracker);
        return KeyOutcome::Pass;
    }
    if let Some(ch) = win_vk_to_char(vk, shift, caps) {
        let old_raw = tracker.clone();
        string_push(tracker, ch);
        let current_raw = tracker.clone();
        let transformed = handle_transform(buffer, current_raw.as_str());

        if current_raw != transformed {
            let to_delete = handle_transform(buffer, old_raw.as_str()).as_str().unicode_len();
            return KeyOutcome::Replace { delete_count: to_delete, text: transformed };
        }
    }
    KeyOutcome::Pass
}

/// Handles a key-down seen by the keyboard hook.
///
/// Events that this program sent itself (`own_event`), and every event
/// while the engine's own replacement is being typed, pass untouched.
/// Control + shift + Z switches the engine on or off. While the engine is
/// switched off, keys pass and the tracker is emptied, since it does not
/// follow what is typed. Any other key is handled as `handle_key_down`
/// does.
pub fn handle_hook_event(
    buffer: &mut IncrementalBuffer,
    tracker: &mut String,
    enabled: bool,
    own_event: bool,
    in_spoof_window: bool,
    vk: u16,
    ctrl: bool,
    shift: bool,
    caps: bool,
) -> (outcome: KeyOutcome)
    ensures
        final(buffer).rules() == old(buffer).rules(),
        own_event || in_spoof_window ==> {
            &&& outcome is Pass
            &&& final(tracker)@ == old(tracker)@
            &&& final(buffer).history() == old(buffer).history()
            &&& final(buffer).output() == old(buffer).output()
        },
        !own_event && !in_spoof_window && (vk == VK_Z && ctrl && shift) ==> {
            &&& outcome is ToggleEngine
            &&& final(tracker)@ == old(tracker)@
            &&& final(buffer).history() == old(buffer).history()
            &&& final(buffer).output() == old(buffer).output()
        },
        !own_event && !in_spoof_window && !(vk == VK_Z && ctrl && shift) && !enabled ==> {
            &&& outcome is Pass
            &&& final(tracker)@ == Seq::<char>::empty()
            &&& final(buffer).history() == old(buffer).history()
            &&& final(buffer).output() == old(buffer).output()
        },
        !own_event && !in_spoof_window && !(vk == VK_Z && ctrl && shift) && enabled
            ==> win_key_down_effect(
            old(buffer).rules(),
            old(buffer).history(),
            old(buffer).output(),
            old(tracker)@,
            vk,
            shift,
            caps,
            final(tracker)@,
            final(buffer).history(),
            final(buffer).output(),
            outcome,
        ),
{
    if own_event || in_spoof_window {
        return KeyOutcome::Pass;
    }
    if is_toggle_shortcut(vk, ctrl, shift) {
        return KeyOutcome::ToggleEngine;
    }
    if !enabled {
        clear_tracker(tracker);
        return KeyOutcome::Pass;
    }
    handle_key_down(buffer, tracker, vk, shift, caps)
}

} // verus!

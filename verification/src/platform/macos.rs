//! macOS key handling: virtual keycodes of the ANSI layout, the modifier
//! flags of a keyboard event, and what a key-down does to the tracker.
use vstd::prelude::*;
use crate::de::methods::{run, IncrementalBuffer};
use crate::de::rules::Action;
use crate::platform::tracker::{clear_tracker, handle_backspace, handle_transform, KeyOutcome};
use crate::text::{pop_last, string_push};

verus! {

broadcast use vstd::string::group_string_axioms;

pub const KC_A: u16 = 0;
pub const KC_S: u16 = 1;
pub const KC_D: u16 = 2;
pub const KC_F: u16 = 3;
pub const KC_H: u16 = 4;
pub const KC_G: u16 = 5;
pub const KC_Z: u16 = 6;
pub const KC_X: u16 = 7;
pub const KC_C: u16 = 8;
pub const KC_V: u16 = 9;
pub const KC_B: u16 = 11;
pub const KC_Q: u16 = 12;
pub const KC_W: u16 = 13;
pub const KC_E: u16 = 14;
pub const KC_R: u16 = 15;
pub const KC_Y: u16 = 16;
pub const KC_T: u16 = 17;
pub const KC_1: u16 = 18;
pub const KC_2: u16 = 19;
pub const KC_3: u16 = 20;
pub const KC_4: u16 = 21;
pub const KC_6: u16 = 22;
pub const KC_5: u16 = 23;
pub const KC_EQUAL: u16 = 24;
pub const KC_9: u16 = 25;
pub const KC_7: u16 = 26;
pub const KC_MINUS: u16 = 27;
pub const KC_8: u16 = 28;
pub const KC_0: u16 = 29;
pub const KC_RBRACKET: u16 = 30;
pub const KC_O: u16 = 31;
pub const KC_U: u16 = 32;
pub const KC_LBRACKET: u16 = 33;
pub const KC_I: u16 = 34;
pub const KC_P: u16 = 35;
pub const KC_ENTER: u16 = 36;
pub const KC_L: u16 = 37;
pub const KC_J: u16 = 38;
pub const KC_QUOTE: u16 = 39;
pub const KC_K: u16 = 40;
pub const KC_SEMICOLON: u16 = 41;
pub const KC_BACKSLASH: u16 = 42;
pub const KC_COMMA: u16 = 43;
pub const KC_SLASH: u16 = 44;
pub const KC_N: u16 = 45;
pub const KC_M: u16 = 46;
pub const KC_DOT: u16 = 47;
pub const KC_TAB: u16 = 48;
pub const KC_SPACE: u16 = 49;
pub const KC_BACKSPACE: u16 = 51;
pub const KC_ESCAPE: u16 = 53;
pub const KC_LEFT: u16 = 123;
pub const KC_RIGHT: u16 = 124;
pub const KC_DOWN: u16 = 125;
pub const KC_UP: u16 = 126;

/// The alpha-shift (caps lock) bit of a keyboard event's flags.
pub const FLAG_MASK_ALPHA_SHIFT: u64 = 65536;
/// The shift bit of a keyboard event's flags.
pub const FLAG_MASK_SHIFT: u64 = 131072;
/// The control bit of a keyboard event's flags.
pub const FLAG_MASK_CONTROL: u64 = 262144;
/// The option (alternate) bit of a keyboard event's flags.
pub const FLAG_MASK_ALTERNATE: u64 = 524288;
/// The command bit of a keyboard event's flags.
pub const FLAG_MASK_COMMAND: u64 = 1048576;

/// Every bit of `mask` is set in `flags`.
pub open spec fn has_flags(flags: u64, mask: u64) -> bool {
    flags & mask == mask
}

/// Whether every bit of `mask` is set in `flags`.
pub fn flags_contain(flags: u64, mask: u64) -> (r: bool)
    ensures
        r == has_flags(flags, mask),
{
    flags & mask == mask
}

/// `c` with an ASCII lower-case letter mapped to its upper-case letter and
/// every other character unchanged.
pub open spec fn ascii_upper(c: char) -> char {
    if 'a' <= c && c <= 'z' {
        ((c as u32) - 32) as char
    } else {
        c
    }
}

/// The lower-case letter on a letter key.
pub open spec fn mac_letter_key(keycode: u16) -> Option<char> {
    if keycode == KC_A {
        Some('a')
    } else if keycode == KC_S {
        Some('s')
    } else if keycode == KC_D {
        Some('d')
    } else if keycode == KC_F {
        Some('f')
    } else if keycode == KC_H {
        Some('h')
    } else if keycode == KC_G {
        Some('g')
    } else if keycode == KC_Z {
        Some('z')
    } else if keycode == KC_X {
        Some('x')
    } else if keycode == KC_C {
        Some('c')
    } else if keycode == KC_V {
        Some('v')
    } else if keycode == KC_B {
        Some('b')
    } else if keycode == KC_Q {
        Some('q')
    } else if keycode == KC_W {
        Some('w')
    } else if keycode == KC_E {
        Some('e')
    } else if keycode == KC_R {
        Some('r')
    } else if keycode == KC_Y {
        Some('y')
    } else if keycode == KC_T {
        Some('t')
    } else if keycode == KC_O {
        Some('o')
    } else if keycode == KC_U {
        Some('u')
    } else if keycode == KC_I {
        Some('i')
    } else if keycode == KC_P {
        Some('p')
    } else if keycode == KC_L {
        Some('l')
    } else if keycode == KC_J {
        Some('j')
    } else if keycode == KC_K {
        Some('k')
    } else if keycode == KC_N {
        Some('n')
    } else if keycode == KC_M {
        Some('m')
    } else {
        None
    }
}

/// The characters on a digit or punctuation key: without and with shift.
pub open spec fn mac_symbol_key(keycode: u16) -> Option<(char, char)> {
    if keycode == KC_1 {
        Some(('1', '!'))
    } else if keycode == KC_2 {
        Some(('2', '@'))
    } else if keycode == KC_3 {
        Some(('3', '#'))
    } else if keycode == KC_4 {
        Some(('4', '$'))
    } else if keycode == KC_5 {
        Some(('5', '%'))
    } else if keycode == KC_6 {
        Some(('6', '^'))
    } else if keycode == KC_7 {
        Some(('7', '&'))
    } else if keycode == KC_8 {
        Some(('8', '*'))
    } else if keycode == KC_9 {
        Some(('9', '('))
    } else if keycode == KC_0 {
        Some(('0', ')'))
    } else if keycode == KC_MINUS {
        Some(('-', '_'))
    } else if keycode == KC_EQUAL {
        Some(('=', '+'))
    } else if keycode == KC_LBRACKET {
        Some(('[', '{'))
    } else if keycode == KC_RBRACKET {
        Some((']', '}'))
    } else if keycode == KC_BACKSLASH {
        Some(('\\', '|'))
    } else if keycode == KC_SEMICOLON {
        Some((';', ':'))
    } else if keycode == KC_QUOTE {
        Some(('\'', '"'))
    } else if keycode == KC_COMMA {
        Some((',', '<'))
    } else if keycode == KC_DOT {
        Some(('.', '>'))
    } else if keycode == KC_SLASH {
        Some(('/', '?'))
    } else {
        None
    }
}

/// The character that a white-space key types.
pub open spec fn mac_space_key(keycode: u16) -> Option<char> {
    if keycode == KC_SPACE {
        Some(' ')
    } else if keycode == KC_ENTER {
        Some('\n')
    } else if keycode == KC_TAB {
        Some('\t')
    } else {
        None
    }
}

/// The character a key types: letters are upper-case when exactly one of
/// shift and caps lock is on, digits and punctuation follow shift alone.
pub open spec fn mac_key_char(keycode: u16, shift: bool, caps_lock: bool) -> Option<char> {
    match mac_letter_key(keycode) {
        Some(l) => Some(if shift != caps_lock { ascii_upper(l) } else { l }),
        None => match mac_symbol_key(keycode) {
            Some(pair) => Some(if shift { pair.1 } else { pair.0 }),
            None => mac_space_key(keycode),
        },
    }
}

/// The character that `keycode` types under the given shift and caps-lock
/// state, or `None` for a key that types nothing the buffer composes.
pub fn macos_keycode_to_char(keycode: u16, shift: bool, caps_lock: bool) -> (r: Option<char>)
    ensures
        r == mac_key_char(keycode, shift, caps_lock),
{
    let uppercase = shift ^ caps_lock;

    match keycode {
        KC_A => Some(if uppercase { 'A' } else { 'a' }),
        KC_S => Some(if uppercase { 'S' } else { 's' }),
        KC_D => Some(if uppercase { 'D' } else { 'd' }),
        KC_F => Some(if uppercase { 'F' } else { 'f' }),
        KC_H => Some(if uppercase { 'H' } else { 'h' }),
        KC_G => Some(if uppercase { 'G' } else { 'g' }),
        KC_Z => Some(if uppercase { 'Z' } else { 'z' }),
        KC_X => Some(if uppercase { 'X' } else { 'x' }),
        KC_C => Some(if uppercase { 'C' } else { 'c' }),
        KC_V => Some(if uppercase { 'V' } else { 'v' }),
        KC_B => Some(if uppercase { 'B' } else { 'b' }),
        KC_Q => Some(if uppercase { 'Q' } else { 'q' }),
        KC_W => Some(if uppercase { 'W' } else { 'w' }),
        KC_E => Some(if uppercase { 'E' } else { 'e' }),
        KC_R => Some(if uppercase { 'R' } else { 'r' }),
        KC_Y => Some(if uppercase { 'Y' } else { 'y' }),
        KC_T => Some(if uppercase { 'T' } else { 't' }),
        KC_O => Some(if uppercase { 'O' } else { 'o' }),
        KC_U => Some(if uppercase { 'U' } else { 'u' }),
        KC_I => Some(if uppercase { 'I' } else { 'i' }),
        KC_P => Some(if uppercase { 'P' } else { 'p' }),
        KC_L => Some(if uppercase { 'L' } else { 'l' }),
        KC_J => Some(if uppercase { 'J' } else { 'j' }),
        KC_K => Some(if uppercase { 'K' } else { 'k' }),
        KC_N => Some(if uppercase { 'N' } else { 'n' }),
        KC_M => Some(if uppercase { 'M' } else { 'm' }),

        KC_1 => Some(if shift { '!' } else { '1' }),
        KC_2 => Some(if shift { '@' } else { '2' }),
        KC_3 => Some(if shift { '#' } else { '3' }),
        KC_4 => Some(if shift { '$' } else { '4' }),
        KC_5 => Some(if shift { '%' } else { '5' }),
        KC_6 => Some(if shift { '^' } else { '6' }),
        KC_7 => Some(if shift { '&' } else { '7' }),
        KC_8 => Some(if shift { '*' } else { '8' }),
        KC_9 => Some(if shift { '(' } else { '9' }),
        KC_0 => Some(if shift { ')' } else { '0' }),
        KC_MINUS => Some(if shift { '_' } else { '-' }),
        KC_EQUAL => Some(if shift { '+' } else { '=' }),
        KC_LBRACKET => Some(if shift { '{' } else { '[' }),
        KC_RBRACKET => Some(if shift { '}' } else { ']' }),
        KC_BACKSLASH => Some(if shift { '|' } else { '\\' }),
        KC_SEMICOLON => Some(if shift { ':' } else { ';' }),
        KC_QUOTE => Some(if shift { '"' } else { '\'' }),
        KC_COMMA => Some(if shift { '<' } else { ',' }),
        KC_DOT => Some(if shift { '>' } else { '.' }),
        KC_SLASH => Some(if shift { '?' } else { '/' }),

        KC_SPACE => Some(' '),
        KC_ENTER => Some('\n'),
        KC_TAB => Some('\t'),

        _ => None,
    }
}

/// Control, command or option is held: the key is a shortcut, not text.
pub open spec fn command_like(flags: u64) -> bool {
    has_flags(flags, FLAG_MASK_CONTROL) || has_flags(flags, FLAG_MASK_COMMAND) || has_flags(
        flags,
        FLAG_MASK_ALTERNATE,
    )
}

/// A key that moves the cursor or ends a word.
pub open spec fn is_word_break_key(keycode: u16) -> bool {
    keycode == KC_ENTER || keycode == KC_TAB || keycode == KC_SPACE || keycode == KC_ESCAPE
        || keycode == KC_LEFT || keycode == KC_RIGHT || keycode == KC_UP || keycode == KC_DOWN
}

/// The key ends what the tracker follows: a word-break key, or
/// command + backspace.
pub open spec fn clears_tracker(keycode: u16, flags: u64) -> bool {
    is_word_break_key(keycode) || (keycode == KC_BACKSPACE && has_flags(flags, FLAG_MASK_COMMAND))
}

/// Whether control, command or option is held.
pub fn has_command_like_modifier(flags: u64) -> (r: bool)
    ensures
        r == command_like(flags),
{
    flags_contain(flags, FLAG_MASK_CONTROL) || flags_contain(flags, FLAG_MASK_COMMAND)
        || flags_contain(flags, FLAG_MASK_ALTERNATE)
}

/// Whether the key ends what the tracker follows.
pub fn should_clear_tracker_keycode(keycode: u16, flags: u64) -> (r: bool)
    ensures
        r == clears_tracker(keycode, flags),
{
    let is_basic_clear = match keycode {
        KC_ENTER | KC_TAB | KC_SPACE | KC_ESCAPE | KC_LEFT | KC_RIGHT | KC_UP | KC_DOWN => true,
        _ => false,
    };
    let is_command_backspace = (keycode == KC_BACKSPACE) && flags_contain(
        flags,
        FLAG_MASK_COMMAND,
    );
    is_basic_clear || is_command_backspace
}

/// The tracker after a key-down with `keycode` and `flags`.
pub open spec fn tracker_after_key(tracker: Seq<char>, keycode: u16, flags: u64) -> Seq<char> {
    if clears_tracker(keycode, flags) {
        Seq::empty()
    } else if keycode == KC_BACKSPACE {
        pop_last(tracker)
    } else if command_like(flags) {
        Seq::empty()
    } else {
        match mac_key_char(
            keycode,
            has_flags(flags, FLAG_MASK_SHIFT),
            has_flags(flags, FLAG_MASK_ALPHA_SHIFT),
        ) {
            Some(ch) => tracker.push(ch),
            None => tracker,
        }
    }
}

/// The key is composable text: it reaches the buffer.
pub open spec fn key_types_text(keycode: u16, flags: u64) -> bool {
    &&& !clears_tracker(keycode, flags)
    &&& keycode != KC_BACKSPACE
    &&& !command_like(flags)
    &&& mac_key_char(
        keycode,
        has_flags(flags, FLAG_MASK_SHIFT),
        has_flags(flags, FLAG_MASK_ALPHA_SHIFT),
    ) is Some
}

/// What a key-down with `keycode` and `flags` does, when it reaches the
/// engine: the tracker `t0` becomes `t1`, the buffer's history and output
/// `h0`, `o0` become `h1`, `o1`, and `outcome` is the decision.
///
/// When the key types text, the whole tracked word (with the new key) is
/// composed; if the composition differs from the raw keys, the key is
/// swallowed, as many characters as the tracked word holds (the new key
/// included) are erased and the composition is typed.
pub open spec fn key_down_effect(
    rules: Map<char, Action>,
    h0: Seq<char>,
    o0: Seq<char>,
    t0: Seq<char>,
    keycode: u16,
    flags: u64,
    t1: Seq<char>,
    h1: Seq<char>,
    o1: Seq<char>,
    outcome: KeyOutcome,
) -> bool {
    &&& t1 == tracker_after_key(t0, keycode, flags)
    &&& !key_types_text(keycode, flags) ==> {
        &&& outcome is Pass
        &&& h1 == h0
        &&& o1 == o0
    }
    &&& key_types_text(keycode, flags) ==> {
        let composed = run(rules, h0, o0, t1).1;
        &&& h1 == Seq::<char>::empty()
        &&& o1 == Seq::<char>::empty()
        &&& match outcome {
            KeyOutcome::Pass => composed == t1,
            KeyOutcome::Replace { delete_count, text } => {
                &&& composed != t1
                &&& text@ == composed
                &&& delete_count == t1.len()
            },
            _ => false,
        }
    }
}

/// Handles a key-down that reaches the engine: updates the tracker and
/// decides whether the typed word is to be replaced (see `key_down_effect`).
pub fn handle_key_down(
    buffer: &mut IncrementalBuffer,
    tracker: &mut String,
    keycode: u16,
    flags: u64,
) -> (outcome: KeyOutcome)
    ensures
        final(buffer).rules() == old(buffer).rules(),
        key_down_effect(
            old(buffer).rules(),
            old(buffer).history(),
            old(buffer).output(),
            old(tracker)@,
            keycode,
            flags,
            final(tracker)@,
            final(buffer).history(),
            final(buffer).output(),
            outcome,
        ),
{
    if should_clear_tracker_keycode(keycode, flags) {
        clear_tracker(tracker);
        return KeyOutcome::Pass;
    }
    if keycode == KC_BACKSPACE {
        handle_backspace(tracker);
        return KeyOutcome::Pass;
    }
    if has_command_like_modifier(flags) {
        clear_tracker(tracker);
        return KeyOutcome::Pass;
    }

    let shift = flags_contain(flags, FLAG_MASK_SHIFT);
    let caps_lock = flags_contain(flags, FLAG_MASK_ALPHA_SHIFT);

    let ch = match macos_keycode_to_char(keycode, shift, caps_lock) {
        Some(ch) => ch,
        None => {
            return KeyOutcome::Pass;
        },
    };

    string_push(tracker, ch);
    let current = tracker.clone();

    let transformed = handle_transform(buffer, current.as_str());

    if current != transformed {
        let delete_count = current.as_str().unicode_len();
        return KeyOutcome::Replace { delete_count, text: transformed };
    }
    KeyOutcome::Pass
}

/// An event that the event tap receives, as far as the engine reads it.
pub enum TapEvent {
    /// A key-down: the id of the event source state (`1` for the hardware
    /// keyboard), the virtual keycode and the modifier flags.
    KeyDown { source_state_id: i64, keycode: u16, flags: u64 },
    /// A press of any mouse button.
    MouseDown,
    /// Any other event.
    Other,
}

/// Handles an event of the event tap.
///
/// While the engine's own replacement is being typed (`in_spoof_window`),
/// every event is swallowed. While the engine is switched off, events pass
/// and the tracker is emptied, since it does not follow what is typed. A
/// key-down from the hardware keyboard is handled as `handle_key_down`
/// does; a mouse click empties the tracker; everything else passes.
pub fn handle_tap_event(
    buffer: &mut IncrementalBuffer,
    tracker: &mut String,
    enabled: bool,
    in_spoof_window: bool,
    event: TapEvent,
) -> (outcome: KeyOutcome)
    ensures
        final(buffer).rules() == old(buffer).rules(),
        in_spoof_window ==> {
            &&& outcome is Block
            &&& final(tracker)@ == old(tracker)@
            &&& final(buffer).history() == old(buffer).history()
            &&& final(buffer).output() == old(buffer).output()
        },
        !in_spoof_window && !enabled ==> {
            &&& outcome is Pass
            &&& final(tracker)@ == Seq::<char>::empty()
            &&& final(buffer).history() == old(buffer).history()
            &&& final(buffer).output() == old(buffer).output()
        },
        !in_spoof_window && enabled ==> match event {
            TapEvent::KeyDown { source_state_id, keycode, flags } => if source_state_id != 1 {
                &&& outcome is Pass
                &&& final(tracker)@ == old(tracker)@
                &&& final(buffer).history() == old(buffer).history()
                &&& final(buffer).output() == old(buffer).output()
            } else {
                key_down_effect(
                    old(buffer).rules(),
                    old(buffer).history(),
                    old(buffer).output(),
                    old(tracker)@,
                    keycode,
                    flags,
                    final(tracker)@,
                    final(buffer).history(),
                    final(buffer).output(),
                    outcome,
                )
            },
            TapEvent::MouseDown => {
                &&& outcome is Pass
                &&& final(tracker)@ == Seq::<char>::empty()
                &&& final(buffer).history() == old(buffer).history()
                &&& final(buffer).output() == old(buffer).output()
            },
            TapEvent::Other => {
                &&& outcome is Pass
                &&& final(tracker)@ == old(tracker)@
                &&& final(buffer).history() == old(buffer).history()
                &&& final(buffer).output() == old(buffer).output()
            },
        },
{
    if in_spoof_window {
        return KeyOutcome::Block;
    }
    if !enabled {
        clear_tracker(tracker);
        return KeyOutcome::Pass;
    }
    match event {
        TapEvent::KeyDown { source_state_id, keycode, flags } => {
            if source_state_id != 1 {
                return KeyOutcome::Pass;
            }
            handle_key_down(buffer, tracker, keycode, flags)
        },
        TapEvent::MouseDown => {
            clear_tracker(tracker);
            KeyOutcome::Pass
        },
        TapEvent::Other => KeyOutcome::Pass,
    }
}

} // verus!

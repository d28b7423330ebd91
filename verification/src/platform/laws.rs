//! What the keyboard tables and the key-down decisions of both platforms
//! do, stated with the key numbers written out.
use vstd::prelude::*;
use crate::de::rules::Action;
use crate::platform::macos::{key_down_effect, mac_key_char, tracker_after_key};
use crate::platform::tracker::KeyOutcome;
use crate::platform::windows::{win_key_char, win_key_down_effect, win_tracker_after_key};

verus! {

/// The macOS US keyboard: every letter key types its own letter, in
/// upper case exactly when one of shift and caps lock is on; digit and
/// punctuation keys type their unshifted or shifted character by shift
/// alone; space, return and tab type white space. Keys are given by their
/// virtual keycode numbers.
pub proof fn lemma_mac_keymap(shift: bool, caps_lock: bool)
    ensures
        mac_key_char(0, shift, caps_lock) == Some(if shift != caps_lock { 'A' } else { 'a' }),
        mac_key_char(1, shift, caps_lock) == Some(if shift != caps_lock { 'S' } else { 's' }),
        mac_key_char(2, shift, caps_lock) == Some(if shift != caps_lock { 'D' } else { 'd' }),
        mac_key_char(3, shift, caps_lock) == Some(if shift != caps_lock { 'F' } else { 'f' }),
        mac_key_char(4, shift, caps_lock) == Some(if shift != caps_lock { 'H' } else { 'h' }),
        mac_key_char(5, shift, caps_lock) == Some(if shift != caps_lock { 'G' } else { 'g' }),
        mac_key_char(6, shift, caps_lock) == Some(if shift != caps_lock { 'Z' } else { 'z' }),
        mac_key_char(7, shift, caps_lock) == Some(if shift != caps_lock { 'X' } else { 'x' }),
        mac_key_char(8, shift, caps_lock) == Some(if shift != caps_lock { 'C' } else { 'c' }),
        mac_key_char(9, shift, caps_lock) == Some(if shift != caps_lock { 'V' } else { 'v' }),
        mac_key_char(11, shift, caps_lock) == Some(if shift != caps_lock { 'B' } else { 'b' }),
        mac_key_char(12, shift, caps_lock) == Some(if shift != caps_lock { 'Q' } else { 'q' }),
        mac_key_char(13, shift, caps_lock) == Some(if shift != caps_lock { 'W' } else { 'w' }),
        mac_key_char(14, shift, caps_lock) == Some(if shift != caps_lock { 'E' } else { 'e' }),
        mac_key_char(15, shift, caps_lock) == Some(if shift != caps_lock { 'R' } else { 'r' }),
        mac_key_char(16, shift, caps_lock) == Some(if shift != caps_lock { 'Y' } else { 'y' }),
        mac_key_char(17, shift, caps_lock) == Some(if shift != caps_lock { 'T' } else { 't' }),
        mac_key_char(31, shift, caps_lock) == Some(if shift != caps_lock { 'O' } else { 'o' }),
        mac_key_char(32, shift, caps_lock) == Some(if shift != caps_lock { 'U' } else { 'u' }),
        mac_key_char(34, shift, caps_lock) == Some(if shift != caps_lock { 'I' } else { 'i' }),
        mac_key_char(35, shift, caps_lock) == Some(if shift != caps_lock { 'P' } else { 'p' }),
        mac_key_char(37, shift, caps_lock) == Some(if shift != caps_lock { 'L' } else { 'l' }),
        mac_key_char(38, shift, caps_lock) == Some(if shift != caps_lock { 'J' } else { 'j' }),
        mac_key_char(40, shift, caps_lock) == Some(if shift != caps_lock { 'K' } else { 'k' }),
        mac_key_char(45, shift, caps_lock) == Some(if shift != caps_lock { 'N' } else { 'n' }),
        mac_key_char(46, shift, caps_lock) == Some(if shift != caps_lock { 'M' } else { 'm' }),
        mac_key_char(18, shift, caps_lock) == Some(if shift { '!' } else { '1' }),
        mac_key_char(19, shift, caps_lock) == Some(if shift { '@' } else { '2' }),
        mac_key_char(20, shift, caps_lock) == Some(if shift { '#' } else { '3' }),
        mac_key_char(21, shift, caps_lock) == Some(if shift { '$' } else { '4' }),
        mac_key_char(23, shift, caps_lock) == Some(if shift { '%' } else { '5' }),
        mac_key_char(22, shift, caps_lock) == Some(if shift { '^' } else { '6' }),
        mac_key_char(26, shift, caps_lock) == Some(if shift { '&' } else { '7' }),
        mac_key_char(28, shift, caps_lock) == Some(if shift { '*' } else { '8' }),
        mac_key_char(25, shift, caps_lock) == Some(if shift { '(' } else { '9' }),
        mac_key_char(29, shift, caps_lock) == Some(if shift { ')' } else { '0' }),
        mac_key_char(27, shift, caps_lock) == Some(if shift { '_' } else { '-' }),
        mac_key_char(24, shift, caps_lock) == Some(if shift { '+' } else { '=' }),
        mac_key_char(33, shift, caps_lock) == Some(if shift { '{' } else { '[' }),
        mac_key_char(30, shift, caps_lock) == Some(if shift { '}' } else { ']' }),
        mac_key_char(42, shift, caps_lock) == Some(if shift { '|' } else { '\\' }),
        mac_key_char(41, shift, caps_lock) == Some(if shift { ':' } else { ';' }),
        mac_key_char(39, shift, caps_lock) == Some(if shift { '"' } else { '\'' }),
        mac_key_char(43, shift, caps_lock) == Some(if shift { '<' } else { ',' }),
        mac_key_char(47, shift, caps_lock) == Some(if shift { '>' } else { '.' }),
        mac_key_char(44, shift, caps_lock) == Some(if shift { '?' } else { '/' }),
        mac_key_char(49, shift, caps_lock) == Some(' '),
        mac_key_char(36, shift, caps_lock) == Some('\n'),
        mac_key_char(48, shift, caps_lock) == Some('\t'),
{
}

/// Every other macOS key types nothing.
pub proof fn lemma_mac_keymap_rest(key: u16, shift: bool, caps_lock: bool)
    requires
        key != 0,
        key != 1,
        key != 2,
        key != 3,
        key != 4,
        key != 5,
        key != 6,
        key != 7,
        key != 8,
        key != 9,
        key != 11,
        key != 12,
        key != 13,
        key != 14,
        key != 15,
        key != 16,
        key != 17,
        key != 18,
        key != 19,
        key != 20,
        key != 21,
        key != 22,
        key != 23,
        key != 24,
        key != 25,
        key != 26,
        key != 27,
        key != 28,
        key != 29,
        key != 30,
        key != 31,
        key != 32,
        key != 33,
        key != 34,
        key != 35,
        key != 36,
        key != 37,
        key != 38,
        key != 39,
        key != 40,
        key != 41,
        key != 42,
        key != 43,
        key != 44,
        key != 45,
        key != 46,
        key != 47,
        key != 48,
        key != 49,
    ensures
        mac_key_char(key, shift, caps_lock) is None,
{
}

/// The Windows US keyboard: every letter key types its own letter, in
/// upper case exactly when one of shift and caps lock is on; digit and
/// punctuation keys type their unshifted or shifted character by shift
/// alone; space, return and tab type white space. Keys are given by their
/// virtual-key numbers.
pub proof fn lemma_win_keymap(shift: bool, caps_lock: bool)
    ensures
        win_key_char(65, shift, caps_lock) == Some(if shift != caps_lock { 'A' } else { 'a' }),
        win_key_char(66, shift, caps_lock) == Some(if shift != caps_lock { 'B' } else { 'b' }),
        win_key_char(67, shift, caps_lock) == Some(if shift != caps_lock { 'C' } else { 'c' }),
        win_key_char(68, shift, caps_lock) == Some(if shift != caps_lock { 'D' } else { 'd' }),
        win_key_char(69, shift, caps_lock) == Some(if shift != caps_lock { 'E' } else { 'e' }),
        win_key_char(70, shift, caps_lock) == Some(if shift != caps_lock { 'F' } else { 'f' }),
        win_key_char(71, shift, caps_lock) == Some(if shift != caps_lock { 'G' } else { 'g' }),
        win_key_char(72, shift, caps_lock) == Some(if shift != caps_lock { 'H' } else { 'h' }),
        win_key_char(73, shift, caps_lock) == Some(if shift != caps_lock { 'I' } else { 'i' }),
        win_key_char(74, shift, caps_lock) == Some(if shift != caps_lock { 'J' } else { 'j' }),
        win_key_char(75, shift, caps_lock) == Some(if shift != caps_lock { 'K' } else { 'k' }),
        win_key_char(76, shift, caps_lock) == Some(if shift != caps_lock { 'L' } else { 'l' }),
        win_key_char(77, shift, caps_lock) == Some(if shift != caps_lock { 'M' } else { 'm' }),
        win_key_char(78, shift, caps_lock) == Some(if shift != caps_lock { 'N' } else { 'n' }),
        win_key_char(79, shift, caps_lock) == Some(if shift != caps_lock { 'O' } else { 'o' }),
        win_key_char(80, shift, caps_lock) == Some(if shift != caps_lock { 'P' } else { 'p' }),
        win_key_char(81, shift, caps_lock) == Some(if shift != caps_lock { 'Q' } else { 'q' }),
        win_key_char(82, shift, caps_lock) == Some(if shift != caps_lock { 'R' } else { 'r' }),
        win_key_char(83, shift, caps_lock) == Some(if shift != caps_lock { 'S' } else { 's' }),
        win_key_char(84, shift, caps_lock) == Some(if shift != caps_lock { 'T' } else { 't' }),
        win_key_char(85, shift, caps_lock) == Some(if shift != caps_lock { 'U' } else { 'u' }),
        win_key_char(86, shift, caps_lock) == Some(if shift != caps_lock { 'V' } else { 'v' }),
        win_key_char(87, shift, caps_lock) == Some(if shift != caps_lock { 'W' } else { 'w' }),
        win_key_char(88, shift, caps_lock) == Some(if shift != caps_lock { 'X' } else { 'x' }),
        win_key_char(89, shift, caps_lock) == Some(if shift != caps_lock { 'Y' } else { 'y' }),
        win_key_char(90, shift, caps_lock) == Some(if shift != caps_lock { 'Z' } else { 'z' }),
        win_key_char(48, shift, caps_lock) == Some(if shift { ')' } else { '0' }),
        win_key_char(49, shift, caps_lock) == Some(if shift { '!' } else { '1' }),
        win_key_char(50, shift, caps_lock) == Some(if shift { '@' } else { '2' }),
        win_key_char(51, shift, caps_lock) == Some(if shift { '#' } else { '3' }),
        win_key_char(52, shift, caps_lock) == Some(if shift { '$' } else { '4' }),
        win_key_char(53, shift, caps_lock) == Some(if shift { '%' } else { '5' }),
        win_key_char(54, shift, caps_lock) == Some(if shift { '^' } else { '6' }),
        win_key_char(55, shift, caps_lock) == Some(if shift { '&' } else { '7' }),
        win_key_char(56, shift, caps_lock) == Some(if shift { '*' } else { '8' }),
        win_key_char(57, shift, caps_lock) == Some(if shift { '(' } else { '9' }),
        win_key_char(189, shift, caps_lock) == Some(if shift { '_' } else { '-' }),
        win_key_char(187, shift, caps_lock) == Some(if shift { '+' } else { '=' }),
        win_key_char(219, shift, caps_lock) == Some(if shift { '{' } else { '[' }),
        win_key_char(221, shift, caps_lock) == Some(if shift { '}' } else { ']' }),
        win_key_char(220, shift, caps_lock) == Some(if shift { '|' } else { '\\' }),
        win_key_char(186, shift, caps_lock) == Some(if shift { ':' } else { ';' }),
        win_key_char(222, shift, caps_lock) == Some(if shift { '"' } else { '\'' }),
        win_key_char(188, shift, caps_lock) == Some(if shift { '<' } else { ',' }),
        win_key_char(190, shift, caps_lock) == Some(if shift { '>' } else { '.' }),
        win_key_char(191, shift, caps_lock) == Some(if shift { '?' } else { '/' }),
        win_key_char(192, shift, caps_lock) == Some(if shift { '~' } else { '`' }),
        win_key_char(32, shift, caps_lock) == Some(' '),
        win_key_char(13, shift, caps_lock) == Some('\n'),
        win_key_char(9, shift, caps_lock) == Some('\t'),
{
}

/// Every other Windows key types nothing.
pub proof fn lemma_win_keymap_rest(key: u16, shift: bool, caps_lock: bool)
    requires
        key != 9,
        key != 13,
        key != 32,
        key != 48,
        key != 49,
        key != 50,
        key != 51,
        key != 52,
        key != 53,
        key != 54,
        key != 55,
        key != 56,
        key != 57,
        key != 65,
        key != 66,
        key != 67,
        key != 68,
        key != 69,
        key != 70,
        key != 71,
        key != 72,
        key != 73,
        key != 74,
        key != 75,
        key != 76,
        key != 77,
        key != 78,
        key != 79,
        key != 80,
        key != 81,
        key != 82,
        key != 83,
        key != 84,
        key != 85,
        key != 86,
        key != 87,
        key != 88,
        key != 89,
        key != 90,
        key != 186,
        key != 187,
        key != 188,
        key != 189,
        key != 190,
        key != 191,
        key != 192,
        key != 219,
        key != 220,
        key != 221,
        key != 222,
    ensures
        win_key_char(key, shift, caps_lock) is None,
{
}

/// On macOS, return (36), tab (48), space (49), escape (53) and the arrow
/// keys left (123), right (124), down (125) and up (126) end the tracked
/// word, whatever the modifiers: the tracker is emptied, the key passes and
/// the buffer is left alone.
pub proof fn lemma_mac_word_break_keys_clear(
    rules: Map<char, Action>,
    h0: Seq<char>,
    o0: Seq<char>,
    t0: Seq<char>,
    keycode: u16,
    flags: u64,
    t1: Seq<char>,
    h1: Seq<char>,
    o1: Seq<char>,
    outcome: KeyOutcome,
)
    requires
        keycode == 36 || keycode == 48 || keycode == 49 || keycode == 53 || keycode == 123
            || keycode == 124 || keycode == 125 || keycode == 126,
        key_down_effect(rules, h0, o0, t0, keycode, flags, t1, h1, o1, outcome),
    ensures
        tracker_after_key(t0, keycode, flags) == Seq::<char>::empty(),
        t1 == Seq::<char>::empty(),
        outcome is Pass,
        h1 == h0,
        o1 == o0,
{
}

/// On Windows, return (13), tab (9), escape (27) and the arrow keys left
/// (37), up (38), right (39) and down (40) end the tracked word, whatever
/// shift and caps lock: the tracker is emptied, the key passes and the
/// buffer is left alone.
pub proof fn lemma_win_word_break_keys_clear(
    rules: Map<char, Action>,
    h0: Seq<char>,
    o0: Seq<char>,
    t0: Seq<char>,
    vk: u16,
    shift: bool,
    caps: bool,
    t1: Seq<char>,
    h1: Seq<char>,
    o1: Seq<char>,
    outcome: KeyOutcome,
)
    requires
        vk == 13 || vk == 9 || vk == 27 || vk == 37 || vk == 38 || vk == 39 || vk == 40,
        win_key_down_effect(rules, h0, o0, t0, vk, shift, caps, t1, h1, o1, outcome),
    ensures
        win_tracker_after_key(t0, vk, shift, caps) == Seq::<char>::empty(),
        t1 == Seq::<char>::empty(),
        outcome is Pass,
        h1 == h0,
        o1 == o0,
{
}

} // verus!

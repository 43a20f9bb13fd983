//! T9 multi-tap keyboard: twelve keys in a 4x3 grid. Tapping a letter key
//! repeatedly cycles through its characters; a sequence commits 1.5 s after
//! its first tap, or when another key is tapped.

use vstd::prelude::*;
use vstd::utf8::{decode_utf8, encode_utf8_decode_utf8, valid_utf8};
use vstd::string::StringSliceAdditionalSpecFns;
use vstd::arithmetic::div_mod::{lemma_add_mod_noop, lemma_small_mod};

verus! {

/// Keys per row.
pub const KEYS_COLS: usize = 3;
/// Rows of keys.
pub const KEYS_ROWS: usize = 4;
/// Key width in pixels.
pub const KEY_W: i32 = 120;
/// Key height in pixels.
pub const KEY_H: i32 = 72;
/// Gap between keys in pixels; taps in it hit no key.
pub const KEY_GAP: i32 = 8;
/// Left edge of the grid: (410 - 3 * KEY_W - 2 * KEY_GAP) / 2, centring it on
/// the 410-pixel-wide panel.
pub const KB_X: i32 = 17;
/// Top edge of the grid.
pub const KB_Y: i32 = 175;
/// A multi-tap sequence commits this long after its first tap.
pub const COMMIT_MS: u32 = 1_500;
/// Longest text the keyboard holds, in bytes.
pub const MAX_TEXT_LEN: usize = 127;
/// The key that switches between lowercase, capitals and numbers.
pub const SHIFT_KEY: usize = 9;
/// The key that deletes the last byte.
pub const DELETE_KEY: usize = 11;

/// What the character keys type.
#[derive(Clone, Copy, Debug, PartialEq, Eq, Structural)]
pub enum Mode {
    Lower,
    Upper,
    Numeric,
}

/// The name shown for each mode.
pub open spec fn mode_name_of(mode: Mode) -> &'static str {
    match mode {
        Mode::Lower => "LOWERCASE",
        Mode::Upper => "CAPITALS",
        Mode::Numeric => "NUMBERS",
    }
}

/// The mode after a tap on the shift key.
pub open spec fn next_mode(mode: Mode) -> Mode {
    match mode {
        Mode::Lower => Mode::Upper,
        Mode::Upper => Mode::Numeric,
        Mode::Numeric => Mode::Lower,
    }
}

/// The characters a key cycles through, lowercase or capital; the last is
/// the key's digit. The shift and delete keys type nothing.
pub open spec fn key_chars(index: int, upper: bool) -> Seq<u8> {
    if index == 0 {
        seq![0x2eu8, 0x2cu8, 0x3fu8, 0x21u8, 0x31u8]
    } else if index == 1 {
        if upper {
            seq![0x41u8, 0x42u8, 0x43u8, 0x32u8]
        } else {
            seq![0x61u8, 0x62u8, 0x63u8, 0x61u8, 0x61u8, 0x63u8, 0x32u8]
        }
    } else if index == 2 {
        if upper {
            seq![0x44u8, 0x45u8, 0x46u8, 0x33u8]
        } else {
            seq![0x64u8, 0x65u8, 0x66u8, 0x65u8, 0x65u8, 0x65u8, 0x33u8]
        }
    } else if index == 3 {
        if upper {
            seq![0x47u8, 0x48u8, 0x49u8, 0x34u8]
        } else {
            seq![0x67u8, 0x68u8, 0x69u8, 0x69u8, 0x69u8, 0x34u8]
        }
    } else if index == 4 {
        if upper {
            seq![0x4au8, 0x4bu8, 0x4cu8, 0x35u8]
        } else {
            seq![0x6au8, 0x6bu8, 0x6cu8, 0x35u8]
        }
    } else if index == 5 {
        if upper {
            seq![0x4du8, 0x4eu8, 0x4fu8, 0x36u8]
        } else {
            seq![0x6du8, 0x6eu8, 0x6fu8, 0x6fu8, 0x36u8]
        }
    } else if index == 6 {
        if upper {
            seq![0x50u8, 0x51u8, 0x52u8, 0x53u8, 0x37u8]
        } else {
            seq![0x70u8, 0x71u8, 0x72u8, 0x73u8, 0x37u8]
        }
    } else if index == 7 {
        if upper {
            seq![0x54u8, 0x55u8, 0x56u8, 0x38u8]
        } else {
            seq![0x74u8, 0x75u8, 0x76u8, 0x75u8, 0x75u8, 0x38u8]
        }
    } else if index == 8 {
        if upper {
            seq![0x57u8, 0x58u8, 0x59u8, 0x5au8, 0x39u8]
        } else {
            seq![0x77u8, 0x78u8, 0x79u8, 0x7au8, 0x39u8]
        }
    } else if index == 10 {
        seq![0x20u8, 0x30u8]
    } else {
        Seq::empty()
    }
}

/// The key under a tap, if any: the tap must fall inside a key of the grid,
/// not in a gap between keys or outside the grid.
pub open spec fn tapped_key(x: u16, y: u16) -> Option<int> {
    let local_x = x - KB_X;
    let local_y = y - KB_Y;
    if local_x < 0 || local_y < 0 {
        None
    } else {
        let column = local_x / (KEY_W + KEY_GAP);
        let row = local_y / (KEY_H + KEY_GAP);
        if column >= KEYS_COLS || row >= KEYS_ROWS || local_x % (KEY_W + KEY_GAP) >= KEY_W
            || local_y % (KEY_H + KEY_GAP) >= KEY_H {
            None
        } else {
            Some(row * KEYS_COLS + column)
        }
    }
}

/// `text` with `bytes` appended, as far as they fit in the text limit.
pub open spec fn appended_text(text: Seq<u8>, bytes: Seq<u8>) -> Seq<u8> {
    let room = MAX_TEXT_LEN - text.len();
    if room <= 0 {
        text
    } else if bytes.len() <= room {
        text + bytes
    } else {
        text + bytes.take(room)
    }
}

/// The characters that typed bytes spell: none when they are not valid UTF-8.
pub open spec fn text_of(bytes: Seq<u8>) -> Seq<char> {
    if valid_utf8(bytes) {
        decode_utf8(bytes)
    } else {
        Seq::empty()
    }
}

/// The state of a keyboard.
pub struct KeyboardView {
    pub text: Seq<u8>,
    pub mode: Mode,
    /// The key of the sequence being typed, or -1.
    pub last_key: int,
    /// Which of that key's characters is shown.
    pub char_index: int,
    /// Milliseconds since the sequence's first tap.
    pub commit_timer: int,
    pub active: bool,
    /// Whether the last character typed can still change.
    pub pending_char: bool,
}

impl KeyboardView {
    /// The state with the current sequence committed.
    pub open spec fn committed(self) -> KeyboardView {
        KeyboardView { last_key: -1, char_index: 0, commit_timer: 0, pending_char: false, ..self }
    }

    /// The state with `bytes` appended to the text, as far as they fit.
    pub open spec fn appended(self, bytes: Seq<u8>) -> KeyboardView {
        KeyboardView { text: appended_text(self.text, bytes), ..self }
    }

    /// The state with the last byte of the text removed, if there is one.
    pub open spec fn without_last(self) -> KeyboardView {
        KeyboardView {
            text: if self.text.len() > 0 { self.text.drop_last() } else { self.text },
            ..self
        }
    }

    /// The characters that key `index` types in this state's mode.
    pub open spec fn chars_of(self, index: int) -> Seq<u8> {
        key_chars(index, self.mode != Mode::Lower)
    }

    /// The state after a tap at (`x`, `y`), and whether the keyboard took it.
    /// An inactive keyboard and a tap on no key leave the state unchanged
    /// and are not taken. Shift commits and moves to the next mode; delete
    /// commits and removes the last byte. In number mode a key types its
    /// digit at once. Otherwise a tap on the key of the pending sequence
    /// replaces its last character with the key's next one (the sequence's
    /// clock keeps running from its first tap), and a tap on another key
    /// commits and starts a new sequence with its first character.
    pub open spec fn after_tap(self, x: u16, y: u16) -> (KeyboardView, bool) {
        if !self.active {
            (self, false)
        } else {
            match tapped_key(x, y) {
                None => (self, false),
                Some(index) => {
                    let chars = self.chars_of(index);
                    if index == SHIFT_KEY {
                        (KeyboardView { mode: next_mode(self.mode), ..self.committed() }, true)
                    } else if index == DELETE_KEY {
                        (self.committed().without_last(), true)
                    } else if chars.len() == 0 {
                        (self, true)
                    } else if self.mode == Mode::Numeric {
                        (self.committed().appended(seq![chars.last()]), true)
                    } else if index == self.last_key && self.pending_char {
                        let next = (self.char_index + 1) % (chars.len() as int);
                        (
                            KeyboardView {
                                char_index: next,
                                ..self.without_last().appended(seq![chars[next]])
                            },
                            true,
                        )
                    } else {
                        (
                            KeyboardView {
                                last_key: index,
                                char_index: 0,
                                commit_timer: 0,
                                pending_char: true,
                                ..self.committed().appended(seq![chars[0]])
                            },
                            true,
                        )
                    }
                },
            }
        }
    }

    /// The state after `dt_ms` milliseconds pass, and whether the display
    /// must be redrawn: a pending sequence commits once its timer reaches
    /// `COMMIT_MS`.
    pub open spec fn after_time(self, dt_ms: u32) -> (KeyboardView, bool) {
        if !self.active || !self.pending_char {
            (self, false)
        } else if self.commit_timer + dt_ms >= COMMIT_MS {
            (self.committed(), true)
        } else {
            (KeyboardView { commit_timer: self.commit_timer + dt_ms, ..self }, false)
        }
    }
}

/// A T9 keyboard. Its text holds at most `MAX_TEXT_LEN` bytes.
pub struct T9Keyboard {
    text: Vec<u8>,
    mode: Mode,
    last_key: i8,
    char_index: usize,
    commit_timer: u32,
    active: bool,
    pending_char: bool,
}

impl View for T9Keyboard {
    type V = KeyboardView;

    closed spec fn view(&self) -> KeyboardView {
        KeyboardView {
            text: self.text@,
            mode: self.mode,
            last_key: self.last_key as int,
            char_index: self.char_index as int,
            commit_timer: self.commit_timer as int,
            active: self.active,
            pending_char: self.pending_char,
        }
    }
}


/// The label of each key in lowercase mode.
pub open spec fn lower_label(index: int) -> &'static str {
    if index == 0 {
        "1 . , ?"
    } else if index == 1 {
        "2 abc"
    } else if index == 2 {
        "3 def"
    } else if index == 3 {
        "4 ghi"
    } else if index == 4 {
        "5 jkl"
    } else if index == 5 {
        "6 mno"
    } else if index == 6 {
        "7 pqrs"
    } else if index == 7 {
        "8 tuv"
    } else if index == 8 {
        "9 wxyz"
    } else if index == 9 {
        "abc"
    } else if index == 10 {
        "0 space"
    } else {
        "delete"
    }
}

/// The label of each key in capitals mode.
pub open spec fn upper_label(index: int) -> &'static str {
    if index == 0 {
        "1 . , ?"
    } else if index == 1 {
        "2 ABC"
    } else if index == 2 {
        "3 DEF"
    } else if index == 3 {
        "4 GHI"
    } else if index == 4 {
        "5 JKL"
    } else if index == 5 {
        "6 MNO"
    } else if index == 6 {
        "7 PQRS"
    } else if index == 7 {
        "8 TUV"
    } else if index == 8 {
        "9 WXYZ"
    } else if index == 9 {
        "ABC"
    } else if index == 10 {
        "0 SPACE"
    } else {
        "DELETE"
    }
}

/// The label of each key in number mode.
pub open spec fn numeric_label(index: int) -> &'static str {
    if index == 0 {
        "1"
    } else if index == 1 {
        "2"
    } else if index == 2 {
        "3"
    } else if index == 3 {
        "4"
    } else if index == 4 {
        "5"
    } else if index == 5 {
        "6"
    } else if index == 6 {
        "7"
    } else if index == 7 {
        "8"
    } else if index == 8 {
        "9"
    } else if index == 9 {
        "123"
    } else if index == 10 {
        "0"
    } else {
        "DELETE"
    }
}

/// The label shown on key `index` in `mode`.
pub open spec fn key_label_of(mode: Mode, index: int) -> &'static str {
    match mode {
        Mode::Lower => lower_label(index),
        Mode::Upper => upper_label(index),
        Mode::Numeric => numeric_label(index),
    }
}

fn lower_label_at(index: usize) -> (r: &'static str)
    ensures
        r == lower_label(index as int),
{
    match index {
        0 => "1 . , ?",
        1 => "2 abc",
        2 => "3 def",
        3 => "4 ghi",
        4 => "5 jkl",
        5 => "6 mno",
        6 => "7 pqrs",
        7 => "8 tuv",
        8 => "9 wxyz",
        9 => "abc",
        10 => "0 space",
        _ => "delete",
    }
}

fn upper_label_at(index: usize) -> (r: &'static str)
    ensures
        r == upper_label(index as int),
{
    match index {
        0 => "1 . , ?",
        1 => "2 ABC",
        2 => "3 DEF",
        3 => "4 GHI",
        4 => "5 JKL",
        5 => "6 MNO",
        6 => "7 PQRS",
        7 => "8 TUV",
        8 => "9 WXYZ",
        9 => "ABC",
        10 => "0 SPACE",
        _ => "DELETE",
    }
}

fn numeric_label_at(index: usize) -> (r: &'static str)
    ensures
        r == numeric_label(index as int),
{
    match index {
        0 => "1",
        1 => "2",
        2 => "3",
        3 => "4",
        4 => "5",
        5 => "6",
        6 => "7",
        7 => "8",
        8 => "9",
        9 => "123",
        10 => "0",
        _ => "DELETE",
    }
}

/// `core::str::from_utf8`: its documentation says it returns the bytes as a
/// string slice exactly when they are valid UTF-8, and an error otherwise.
#[verifier::external_body]
fn str_from_utf8(bytes: &[u8]) -> (r: Option<&str>)
    ensures
        r is Some <==> valid_utf8(bytes@),
        r matches Some(s) ==> s.spec_bytes() == bytes@,
{
    core::str::from_utf8(bytes).ok()
}

/// The characters key `index` types in `mode`.
fn chars_for(index: usize, mode: Mode) -> (r: Vec<u8>)
    ensures
        r@ == key_chars(index as int, mode != Mode::Lower),
{
    let upper = match mode {
        Mode::Lower => false,
        Mode::Upper | Mode::Numeric => true,
    };
    let r = if index == 0 {
        vec![0x2eu8, 0x2cu8, 0x3fu8, 0x21u8, 0x31u8]
    } else if index == 1 {
        if upper {
            vec![0x41u8, 0x42u8, 0x43u8, 0x32u8]
        } else {
            vec![0x61u8, 0x62u8, 0x63u8, 0x61u8, 0x61u8, 0x63u8, 0x32u8]
        }
    } else if index == 2 {
        if upper {
            vec![0x44u8, 0x45u8, 0x46u8, 0x33u8]
        } else {
            vec![0x64u8, 0x65u8, 0x66u8, 0x65u8, 0x65u8, 0x65u8, 0x33u8]
        }
    } else if index == 3 {
        if upper {
            vec![0x47u8, 0x48u8, 0x49u8, 0x34u8]
        } else {
            vec![0x67u8, 0x68u8, 0x69u8, 0x69u8, 0x69u8, 0x34u8]
        }
    } else if index == 4 {
        if upper {
            vec![0x4au8, 0x4bu8, 0x4cu8, 0x35u8]
        } else {
            vec![0x6au8, 0x6bu8, 0x6cu8, 0x35u8]
        }
    } else if index == 5 {
        if upper {
            vec![0x4du8, 0x4eu8, 0x4fu8, 0x36u8]
        } else {
            vec![0x6du8, 0x6eu8, 0x6fu8, 0x6fu8, 0x36u8]
        }
    } else if index == 6 {
        if upper {
            vec![0x50u8, 0x51u8, 0x52u8, 0x53u8, 0x37u8]
        } else {
            vec![0x70u8, 0x71u8, 0x72u8, 0x73u8, 0x37u8]
        }
    } else if index == 7 {
        if upper {
            vec![0x54u8, 0x55u8, 0x56u8, 0x38u8]
        } else {
            vec![0x74u8, 0x75u8, 0x76u8, 0x75u8, 0x75u8, 0x38u8]
        }
    } else if index == 8 {
        if upper {
            vec![0x57u8, 0x58u8, 0x59u8, 0x5au8, 0x39u8]
        } else {
            vec![0x77u8, 0x78u8, 0x79u8, 0x7au8, 0x39u8]
        }
    } else if index == 10 {
        vec![0x20u8, 0x30u8]
    } else {
        Vec::new()
    };
    assert(r@ =~= key_chars(index as int, mode != Mode::Lower));
    r
}

impl T9Keyboard {
    #[verifier::type_invariant]
    closed spec fn text_fits(self) -> bool {
        &&& self.text.len() <= MAX_TEXT_LEN
        &&& self.char_index < 8
        &&& self.commit_timer < COMMIT_MS
        &&& self.pending_char ==> self.active
    }

    /// An empty, hidden keyboard in lowercase mode.
    pub fn new() -> (r: Self)
        ensures
            r@ == (KeyboardView {
                text: Seq::empty(),
                mode: Mode::Lower,
                last_key: -1,
                char_index: 0,
                commit_timer: 0,
                active: false,
                pending_char: false,
            }),
    {
        T9Keyboard {
            text: Vec::new(),
            mode: Mode::Lower,
            last_key: -1,
            char_index: 0,
            commit_timer: 0,
            active: false,
            pending_char: false,
        }
    }

    /// The text holds at most `MAX_TEXT_LEN` bytes.
    pub fn text_len(&self) -> (r: usize)
        ensures
            r == self@.text.len(),
            r <= MAX_TEXT_LEN,
    {
        proof {
            use_type_invariant(self);
        }
        self.text.len()
    }

    /// Shows the keyboard.
    pub fn show(&mut self)
        ensures
            final(self)@ == (KeyboardView { active: true, ..old(self)@ }),
    {
        proof {
            use_type_invariant(&*self);
        }
        self.active = true;
    }

    /// Hides the keyboard, committing any pending character.
    pub fn hide_keyboard(&mut self)
        ensures
            final(self)@ == (KeyboardView { active: false, ..old(self)@.committed() }),
    {
        proof {
            use_type_invariant(&*self);
        }
        self.commit();
        self.active = false;
    }

    /// Milliseconds since the open sequence's first tap (zero when none is
    /// open); always below `COMMIT_MS`, since a sequence commits on reaching it.
    pub fn commit_elapsed_ms(&self) -> (r: u32)
        ensures
            r == self@.commit_timer,
            r < COMMIT_MS,
            self@.pending_char ==> self@.active,
    {
        proof {
            use_type_invariant(self);
        }
        self.commit_timer
    }

    /// The name of the current mode, as the keyboard shows it.
    pub fn mode_name(&self) -> (r: &'static str)
        ensures
            r == mode_name_of(self@.mode),
    {
        match self.mode {
            Mode::Lower => "LOWERCASE",
            Mode::Upper => "CAPITALS",
            Mode::Numeric => "NUMBERS",
        }
    }

    /// The current mode.
    pub fn mode(&self) -> (r: Mode)
        ensures
            r == self@.mode,
    {
        self.mode
    }

    /// The key whose character can still change, if a sequence is open.
    pub fn pending_key(&self) -> (r: Option<usize>)
        ensures
            r == (if self@.pending_char && self@.last_key >= 0 {
                Some(self@.last_key as usize)
            } else {
                None
            }),
    {
        if self.pending_char && self.last_key >= 0 {
            Some(self.last_key as usize)
        } else {
            None
        }
    }

    /// Whether the keyboard is shown.
    pub fn is_active(&self) -> (r: bool)
        ensures
            r == self@.active,
    {
        self.active
    }

    /// The typed text, or the empty string when its bytes are not valid UTF-8
    /// (the limit or a delete can cut a multi-byte character).
    pub fn get_text(&self) -> (r: &str)
        ensures
            r@ == text_of(self@.text),
            valid_utf8(self@.text) ==> r.spec_bytes() == self@.text,
    {
        match str_from_utf8(self.text.as_slice()) {
            Some(text) => {
                proof {
                    encode_utf8_decode_utf8(text@);
                }
                text
            },
            None => {
                let empty = "";
                proof {
                    reveal_strlit("");
                }
                empty
            },
        }
    }

    /// Empties the text.
    pub fn clear_text(&mut self)
        ensures
            final(self)@ == (KeyboardView { text: Seq::empty(), ..old(self)@ }),
    {
        proof {
            use_type_invariant(&*self);
        }
        self.text = Vec::new();
    }

    /// Replaces the text with `value` (as far as it fits) and commits.
    pub fn set_text(&mut self, value: &str)
        ensures
            final(self)@ == (KeyboardView {
                text: appended_text(Seq::empty(), value.spec_bytes()),
                ..old(self)@.committed()
            }),
    {
        self.clear_text();
        self.add_char(value.as_bytes());
        self.commit();
    }

    /// Ends the current multi-tap sequence.
    fn commit(&mut self)
        ensures
            final(self)@ == old(self)@.committed(),
    {
        proof {
            use_type_invariant(&*self);
        }
        self.last_key = -1;
        self.char_index = 0;
        self.commit_timer = 0;
        self.pending_char = false;
    }

    /// Appends `bytes` to the text, as far as they fit.
    fn add_char(&mut self, bytes: &[u8])
        ensures
            final(self)@ == old(self)@.appended(bytes@),
    {
        proof {
            use_type_invariant(&*self);
        }
        let mut text = Vec::new();
        std::mem::swap(&mut text, &mut self.text);
        let ghost start = text@;
        let mut i: usize = 0;
        while i < bytes.len()
            invariant
                i <= bytes@.len(),
                start.len() <= MAX_TEXT_LEN,
                text@ == appended_text(start, bytes@.take(i as int)),
                text@.len() <= MAX_TEXT_LEN,
            decreases bytes@.len() - i,
        {
            if text.len() < MAX_TEXT_LEN {
                text.push(bytes[i]);
            }
            proof {
                let room = MAX_TEXT_LEN - start.len();
                let before = bytes@.take(i as int);
                let after = bytes@.take(i + 1);
                assert(after.drop_last() =~= before);
                if room > 0 && after.len() > room {
                    assert(after.take(room) =~= before.take(room));
                    if before.len() <= room {
                        assert(before.take(room) =~= before);
                    }
                }
                if room > 0 && after.len() <= room {
                    assert(start + after =~= (start + before).push(bytes@[i as int]));
                }
                if room > 0 && after.len() == room + 1 {
                    assert(before.take(room) =~= before);
                }
            }
            i = i + 1;
        }
        assert(bytes@.take(i as int) =~= bytes@);
        self.text = text;
    }

    /// Removes the last byte of the text, if any.
    fn delete_last(&mut self)
        ensures
            final(self)@ == old(self)@.without_last(),
    {
        proof {
            use_type_invariant(&*self);
        }
        let mut text = Vec::new();
        std::mem::swap(&mut text, &mut self.text);
        if text.len() > 0 {
            text.pop();
        }
        self.text = text;
    }

    /// The label shown on key `index` (row by row, from the top left) in the
    /// current mode.
    pub fn key_label(&self, index: usize) -> (r: &'static str)
        requires
            index < 12,
        ensures
            r == key_label_of(self@.mode, index as int),
    {
        match self.mode {
            Mode::Lower => lower_label_at(index),
            Mode::Upper => upper_label_at(index),
            Mode::Numeric => numeric_label_at(index),
        }
    }

    /// Advances the keyboard's clock by `dt_ms`. Returns whether the display
    /// needs an update (a pending sequence committed).
    pub fn update(&mut self, dt_ms: u32) -> (redraw: bool)
        requires
            old(self)@.active && old(self)@.pending_char ==> old(self)@.commit_timer + dt_ms
                <= u32::MAX,
        ensures
            (final(self)@, redraw) == old(self)@.after_time(dt_ms),
    {
        proof {
            use_type_invariant(&*self);
        }
        if !self.active {
            return false;
        }
        if self.pending_char {
            let elapsed = self.commit_timer + dt_ms;
            if elapsed >= COMMIT_MS {
                self.commit();
                return true;
            }
            self.commit_timer = elapsed;
        }
        false
    }

    /// Handles a tap at screen coordinate (`x`, `y`). Returns whether the
    /// keyboard took it (see `KeyboardView::after_tap`).
    pub fn handle_tap(&mut self, x: u16, y: u16) -> (consumed: bool)
        ensures
            (final(self)@, consumed) == old(self)@.after_tap(x, y),
    {
        proof {
            use_type_invariant(&*self);
        }
        if !self.active {
            return false;
        }
        let local_x = x as i32 - KB_X;
        let local_y = y as i32 - KB_Y;
        if local_x < 0 || local_y < 0 {
            return false;
        }
        let kx = local_x / (KEY_W + KEY_GAP);
        let ky = local_y / (KEY_H + KEY_GAP);
        if kx >= 3 || ky >= 4 {
            return false;
        }
        if local_x % (KEY_W + KEY_GAP) >= KEY_W || local_y % (KEY_H + KEY_GAP) >= KEY_H {
            return false;
        }
        let idx = (ky * 3 + kx) as usize;
        assert(tapped_key(x, y) == Some(idx as int));
        if idx == SHIFT_KEY {
            self.commit();
            self.mode = match self.mode {
                Mode::Lower => Mode::Upper,
                Mode::Upper => Mode::Numeric,
                Mode::Numeric => Mode::Lower,
            };
            return true;
        }
        if idx == DELETE_KEY {
            self.commit();
            self.delete_last();
            return true;
        }
        let chars = chars_for(idx, self.mode);
        if chars.len() == 0 {
            return true;
        }
        let last = chars.len() - 1;
        let ghost before = self@;
        if self.mode == Mode::Numeric {
            self.commit();
            let typed = [chars[last]];
            assert(typed@ =~= seq![chars@.last()]);
            self.add_char(&typed);
            assert(self@ == before.committed().appended(seq![chars@.last()]));
        } else if idx as i8 == self.last_key && self.pending_char {
            let next = (self.char_index + 1) % chars.len();
            self.delete_last();
            let typed = [chars[next]];
            assert(typed@ =~= seq![chars@[next as int]]);
            self.add_char(&typed);
            self.char_index = next;
        } else {
            self.commit();
            self.last_key = idx as i8;
            self.char_index = 0;
            let typed = [chars[0]];
            assert(typed@ =~= seq![chars@[0]]);
            self.add_char(&typed);
            self.pending_char = true;
            self.commit_timer = 0;
        }
        true
    }
}

/// The state after `n` taps at the same point.
pub open spec fn repeated_taps(v: KeyboardView, x: u16, y: u16, n: nat) -> KeyboardView
    decreases n,
{
    if n == 0 {
        v
    } else {
        repeated_taps(v, x, y, (n - 1) as nat).after_tap(x, y).0
    }
}

/// Tapping one letter key `n` times in a row, starting a new sequence,
/// types a single character that cycles through the key's characters: the
/// text gains the key's character number `(n - 1) mod` (number of
/// characters), and the sequence stays open on that key.
pub proof fn lemma_repeated_taps_cycle(v: KeyboardView, x: u16, y: u16, key: int, n: nat)
    requires
        v.active,
        v.mode != Mode::Numeric,
        tapped_key(x, y) == Some(key),
        key != SHIFT_KEY,
        key != DELETE_KEY,
        v.text.len() < MAX_TEXT_LEN,
        !(v.pending_char && v.last_key == key),
        n >= 1,
    ensures
        ({
            let w = repeated_taps(v, x, y, n);
            let chars = v.chars_of(key);
            &&& w.text == v.text.push(chars[(n - 1) % (chars.len() as int)])
            &&& w.char_index == (n - 1) % (chars.len() as int)
            &&& w.last_key == key
            &&& w.pending_char
            &&& w.mode == v.mode
            &&& w.active
        }),
    decreases n,
{
    let chars = v.chars_of(key);
    let len = chars.len() as int;
    assert(0 <= key < 12);
    assert(len >= 2);
    if n == 1 {
        assert(repeated_taps(v, x, y, 0) == v);
        assert(v.text + seq![chars[0]] =~= v.text.push(chars[0]));
    } else {
        lemma_repeated_taps_cycle(v, x, y, key, (n - 1) as nat);
        let prev = repeated_taps(v, x, y, (n - 1) as nat);
        let i = (n - 2) % len;
        assert(prev.chars_of(key) == chars);
        lemma_add_mod_noop(n - 2, 1, len);
        lemma_small_mod(1, len as nat);
        assert((i + 1) % len == (n - 1) % len);
        assert(prev.text.drop_last() =~= v.text);
        assert(v.text + seq![chars[(n - 1) % len]] =~= v.text.push(chars[(n - 1) % len]));
    }
}

/// Three taps on the shift key return to the mode the keyboard started in.
pub proof fn lemma_shift_cycles_modes(mode: Mode)
    ensures
        next_mode(next_mode(next_mode(mode))) == mode,
{
}

/// A tap on the key of the open sequence changes its character but not its
/// clock: a sequence is timed from its first tap.
pub proof fn lemma_cycling_keeps_sequence_clock(v: KeyboardView, x: u16, y: u16)
    requires
        v.active,
        v.pending_char,
        v.mode != Mode::Numeric,
        tapped_key(x, y) == Some(v.last_key),
        v.last_key != SHIFT_KEY,
        v.last_key != DELETE_KEY,
        v.chars_of(v.last_key).len() > 0,
    ensures
        v.after_tap(x, y).0.commit_timer == v.commit_timer,
        v.after_tap(x, y).0.pending_char,
        v.after_tap(x, y).0.last_key == v.last_key,
{
}

/// The letters printed on a letter key's label: what follows its digit and
/// the space after it.
pub open spec fn printed_letters(label: Seq<char>) -> Seq<char> {
    label.skip(2)
}

/// The character codes of a text.
pub open spec fn char_codes(text: Seq<char>) -> Seq<int> {
    text.map_values(|c: char| c as int)
}

/// The character codes of typed bytes.
pub open spec fn byte_codes(bytes: Seq<u8>) -> Seq<int> {
    bytes.map_values(|b: u8| b as int)
}

/// Each letter key (labels 2 to 9) cycles, in lowercase and in capitals,
/// first through the letters printed on its label in that mode, in order,
/// and last to the digit printed on it; any character in between is again
/// one of its printed letters.
pub proof fn lemma_letter_keys_follow_their_labels(index: int, upper: bool)
    requires
        1 <= index <= 8,
    ensures
        ({
            let label = key_label_of(if upper { Mode::Upper } else { Mode::Lower }, index)@;
            let letters = char_codes(printed_letters(label));
            let codes = byte_codes(key_chars(index, upper));
            &&& codes.len() > letters.len()
            &&& codes.take(letters.len() as int) == letters
            &&& codes.last() == label[0] as int
            &&& forall|j: int| letters.len() <= j < codes.len() - 1 ==> letters.contains(#[trigger] codes[j])
        }),
{
    if index == 1 {
        if upper {
            reveal_strlit("2 ABC");
        } else {
            reveal_strlit("2 abc");
        }
    } else if index == 2 {
        if upper {
            reveal_strlit("3 DEF");
        } else {
            reveal_strlit("3 def");
        }
    } else if index == 3 {
        if upper {
            reveal_strlit("4 GHI");
        } else {
            reveal_strlit("4 ghi");
        }
    } else if index == 4 {
        if upper {
            reveal_strlit("5 JKL");
        } else {
            reveal_strlit("5 jkl");
        }
    } else if index == 5 {
        if upper {
            reveal_strlit("6 MNO");
        } else {
            reveal_strlit("6 mno");
        }
    } else if index == 6 {
        if upper {
            reveal_strlit("7 PQRS");
        } else {
            reveal_strlit("7 pqrs");
        }
    } else if index == 7 {
        if upper {
            reveal_strlit("8 TUV");
        } else {
            reveal_strlit("8 tuv");
        }
    } else if index == 8 {
        if upper {
            reveal_strlit("9 WXYZ");
        } else {
            reveal_strlit("9 wxyz");
        }
    }
    let label = key_label_of(if upper { Mode::Upper } else { Mode::Lower }, index)@;
    let letters = char_codes(printed_letters(label));
    let codes = byte_codes(key_chars(index, upper));
    assert(codes.take(letters.len() as int) =~= letters);
    assert forall|j: int| letters.len() <= j < codes.len() - 1 implies letters.contains(#[trigger] codes[j]) by {
        if codes[j] == letters[0] {
        } else if codes[j] == letters[1] {
        } else {
            assert(codes[j] == letters[2]);
        }
    }
}

/// Tapping a letter key `n` times in a row in lowercase or capitals, starting
/// a new sequence, types the `n`-th letter printed on its label, for `n` up to
/// the number of printed letters (so four taps on "7 pqrs" type 's').
pub proof fn lemma_taps_type_printed_letters(v: KeyboardView, x: u16, y: u16, key: int, n: nat)
    requires
        v.active,
        v.mode != Mode::Numeric,
        tapped_key(x, y) == Some(key),
        1 <= key <= 8,
        v.text.len() < MAX_TEXT_LEN,
        !(v.pending_char && v.last_key == key),
        1 <= n <= printed_letters(key_label_of(v.mode, key)@).len(),
    ensures
        ({
            let w = repeated_taps(v, x, y, n);
            &&& w.text.len() == v.text.len() + 1
            &&& w.text.drop_last() == v.text
            &&& w.text.last() as int == printed_letters(key_label_of(v.mode, key)@)[n - 1] as int
        }),
{
    let upper = v.mode != Mode::Lower;
    lemma_letter_keys_follow_their_labels(key, upper);
    lemma_repeated_taps_cycle(v, x, y, key, n);
    let chars = v.chars_of(key);
    assert(chars == key_chars(key, upper));
    lemma_small_mod((n - 1) as nat, chars.len());
    let w = repeated_taps(v, x, y, n);
    assert(w.text.drop_last() =~= v.text);
    let label = key_label_of(v.mode, key)@;
    assert(label == key_label_of(if upper { Mode::Upper } else { Mode::Lower }, key)@);
    let letters = char_codes(printed_letters(label));
    let codes = byte_codes(chars);
    assert(codes.take(letters.len() as int)[n - 1] == codes[n - 1]);
    assert(codes[n - 1] == chars[n - 1] as int);
    assert(letters[n - 1] == printed_letters(label)[n - 1] as int);
}

/// The punctuation key (label "1 . , ?") cycles first through the marks
/// printed on it, then '!', and last to its printed digit; the space key
/// (label "0 space") types a space, then its printed digit.
pub proof fn lemma_symbol_keys_follow_their_labels(upper: bool)
    ensures
        ({
            let label = key_label_of(if upper { Mode::Upper } else { Mode::Lower }, 0)@;
            let codes = byte_codes(key_chars(0, upper));
            &&& codes.len() == 5
            &&& codes[0] == label[2] as int
            &&& codes[1] == label[4] as int
            &&& codes[2] == label[6] as int
            &&& codes[3] == '!' as int
            &&& codes[4] == label[0] as int
        }),
        ({
            let label = key_label_of(if upper { Mode::Upper } else { Mode::Lower }, 10)@;
            let codes = byte_codes(key_chars(10, upper));
            &&& codes.len() == 2
            &&& codes[0] == ' ' as int
            &&& codes[1] == label[0] as int
        }),
{
    reveal_strlit("1 . , ?");
    if upper {
        reveal_strlit("0 SPACE");
    } else {
        reveal_strlit("0 space");
    }
}

/// In number mode a tap on a character key types, at once and for good, the
/// digit printed on it.
pub proof fn lemma_number_mode_types_printed_digit(v: KeyboardView, x: u16, y: u16, key: int)
    requires
        v.active,
        v.mode == Mode::Numeric,
        tapped_key(x, y) == Some(key),
        key != SHIFT_KEY,
        key != DELETE_KEY,
        v.text.len() < MAX_TEXT_LEN,
    ensures
        ({
            let (w, taken) = v.after_tap(x, y);
            &&& taken
            &&& w.text.len() == v.text.len() + 1
            &&& w.text.drop_last() == v.text
            &&& w.text.last() as int == numeric_label(key)@[0] as int
            &&& !w.pending_char
            &&& w.mode == Mode::Numeric
        }),
{
    assert(0 <= key < 12);
    if key == 0 {
        reveal_strlit("1");
    } else if key == 1 {
        reveal_strlit("2");
    } else if key == 2 {
        reveal_strlit("3");
    } else if key == 3 {
        reveal_strlit("4");
    } else if key == 4 {
        reveal_strlit("5");
    } else if key == 5 {
        reveal_strlit("6");
    } else if key == 6 {
        reveal_strlit("7");
    } else if key == 7 {
        reveal_strlit("8");
    } else if key == 8 {
        reveal_strlit("9");
    } else {
        reveal_strlit("0");
    }
    let w = v.after_tap(x, y).0;
    assert(w.text.drop_last() =~= v.text);
}

/// The shift key changes the mode at every tap and returns to the starting
/// mode after three; it types nothing and ends any open sequence.
pub proof fn lemma_shift_taps_cycle_modes(v: KeyboardView, x: u16, y: u16)
    requires
        v.active,
        tapped_key(x, y) == Some(SHIFT_KEY as int),
    ensures
        ({
            let one = repeated_taps(v, x, y, 1);
            let two = repeated_taps(v, x, y, 2);
            let three = repeated_taps(v, x, y, 3);
            &&& one.mode != v.mode
            &&& two.mode != v.mode
            &&& two.mode != one.mode
            &&& three.mode == v.mode
            &&& one.text == v.text && three.text == v.text
            &&& !one.pending_char && !three.pending_char
            &&& three.active
        }),
{
    assert(repeated_taps(v, x, y, 0) == v);
}

/// The delete key removes the last byte of the text, if there is one, and
/// nothing else; it ends any open sequence and keeps the mode.
pub proof fn lemma_delete_removes_last_byte(v: KeyboardView, x: u16, y: u16)
    requires
        v.active,
        tapped_key(x, y) == Some(DELETE_KEY as int),
    ensures
        ({
            let (w, taken) = v.after_tap(x, y);
            &&& taken
            &&& v.text.len() > 0 ==> w.text.len() == v.text.len() - 1
            &&& v.text.len() == 0 ==> w.text.len() == 0
            &&& w.text == v.text.take(w.text.len() as int)
            &&& !w.pending_char
            &&& w.mode == v.mode
        }),
{
    let w = v.after_tap(x, y).0;
    assert(w.text =~= v.text.take(w.text.len() as int));
}

} // verus!



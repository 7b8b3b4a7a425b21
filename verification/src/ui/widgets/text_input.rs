//! The editing state of a single-line text input: its text, cursor,
//! selection and focus flags, and every edit that the keyboard, the mouse,
//! the clipboard or an input method can apply to them.
use vstd::prelude::*;
use vstd::string::*;
use crate::selection::Selection;
use crate::ui::widgets::Action;
use crate::clock::{instant_now, nanos_between, MAX_DURATION_NANOS};
use std::time::Instant;

verus! {

/// The smaller of `i` and `n`: an index clamped to a length.
pub open spec fn clamp_to(i: int, n: int) -> int {
    if i < n { i } else { n }
}

/// `t` without the characters between `a` and `b` (`a <= b`), both clamped
/// to the length of `t`.
pub open spec fn cut_range(t: Seq<char>, a: int, b: int) -> Seq<char> {
    t.subrange(0, clamp_to(a, t.len() as int)) + t.subrange(clamp_to(b, t.len() as int), t.len() as int)
}

/// The characters of `t` between `a` and `b` (`a <= b`), both clamped.
pub open spec fn range_of(t: Seq<char>, a: int, b: int) -> Seq<char> {
    t.subrange(clamp_to(a, t.len() as int), clamp_to(b, t.len() as int))
}

/// `s` inserted into `t` before the character at `at` (clamped).
pub open spec fn splice(t: Seq<char>, at: int, s: Seq<char>) -> Seq<char> {
    t.subrange(0, clamp_to(at, t.len() as int)) + s + t.subrange(clamp_to(at, t.len() as int), t.len() as int)
}

/// What `char::is_alphanumeric` returns for `c`: whether `c` is alphabetic
/// or numeric in the sense of the Unicode tables.
pub uninterp spec fn char_is_alphanumeric(c: char) -> bool;

/// Calls `char::is_alphanumeric`; its result is named `char_is_alphanumeric`.
#[verifier::external_body]
fn is_alphanumeric(c: char) -> (b: bool)
    ensures
        b == char_is_alphanumeric(c),
{
    c.is_alphanumeric()
}

/// Whether `c` is a control code (Unicode general category Cc):
/// U+0000 to U+001F and U+007F to U+009F, as `char::is_control` decides.
pub open spec fn is_control_char(c: char) -> bool {
    (c as u32) <= 0x1f || (0x7f <= (c as u32) && (c as u32) <= 0x9f)
}

/// Calls `String::push`: appends `c` to `s`.
#[verifier::external_body]
fn push_char(s: &mut String, c: char)
    ensures
        final(s)@ == old(s)@.push(c),
{
    s.push(c);
}

/// Whether `c` is a control code, as `char::is_control` answers.
pub fn is_control(c: char) -> (b: bool)
    ensures
        b == is_control_char(c),
{
    let u = c as u32;
    u <= 0x1f || (0x7f <= u && u <= 0x9f)
}

/// The characters of `s` that are not control codes, in order.
pub open spec fn printable(s: Seq<char>) -> Seq<char>
    decreases s.len(),
{
    if s.len() == 0 {
        s
    } else if is_control_char(s.last()) {
        printable(s.drop_last())
    } else {
        printable(s.drop_last()).push(s.last())
    }
}

/// From `pos`, the first position at or after it (and before `n`) whose
/// character is not of the kind `alnum`, or `n`.
pub open spec fn skip_forward(t: Seq<char>, pos: int, n: int, alnum: bool) -> int
    decreases n - pos,
{
    if pos < n && char_is_alphanumeric(t[pos]) == alnum {
        skip_forward(t, pos + 1, n, alnum)
    } else {
        pos
    }
}

/// From `pos`, going back, the first position whose preceding character is
/// not of the kind `alnum`, or 0.
pub open spec fn skip_backward(t: Seq<char>, pos: int, alnum: bool) -> int
    decreases pos,
{
    if pos > 0 && char_is_alphanumeric(t[pos - 1]) == alnum {
        skip_backward(t, pos - 1, alnum)
    } else {
        pos
    }
}

/// The end of the word at or after `pos`: past the rest of the word and the
/// separators that follow it. The bound is the character count taken as a `u32`.
pub open spec fn word_end(t: Seq<char>, pos: u32) -> u32 {
    let n = (t.len() as u32) as int;
    skip_forward(t, skip_forward(t, pos as int, n, true), n, false) as u32
}

/// The start of the word before `pos`: back over separators, then over the word.
pub open spec fn word_start(t: Seq<char>, pos: u32) -> u32 {
    skip_backward(t, skip_backward(t, pos as int, false), true) as u32
}

/// What the input shows: one `*` per character for a password, else the text.
pub open spec fn shown_text(v: TextInputView) -> Seq<char> {
    if v.is_password {
        Seq::new(v.text.len(), |i: int| '*')
    } else {
        v.text
    }
}

/// The selection after the cursor moved to `c`: dropped without `shift`;
/// with `shift`, its moving end follows the cursor, or a new one starts at
/// `anchor`.
pub open spec fn moved_selection(sel: Option<Selection>, c: u32, shift: bool, anchor: u32) -> Option<Selection> {
    if !shift {
        None
    } else {
        match sel {
            Some(s) => Some(Selection { start: s.start, end: c }),
            None => Some(Selection { start: anchor, end: c }),
        }
    }
}

/// The selection after a jump to `c` (Home or End): with `shift` only an
/// existing selection follows.
pub open spec fn jumped_selection(sel: Option<Selection>, c: u32, shift: bool) -> Option<Selection> {
    if !shift {
        None
    } else {
        match sel {
            Some(s) => Some(Selection { start: s.start, end: c }),
            None => None,
        }
    }
}

/// Where the Left key puts the cursor: one character back (not below 0),
/// or with `ctrl` to the start of the word.
pub open spec fn left_target(v: TextInputView, ctrl: bool) -> u32 {
    if ctrl {
        word_start(v.text, v.cursor)
    } else if v.cursor > 0 {
        (v.cursor - 1) as u32
    } else {
        0
    }
}

/// Where the Right key puts the cursor: one character on (not past the
/// count), or with `ctrl` to the end of the word.
pub open spec fn right_target(v: TextInputView, ctrl: bool) -> u32 {
    let count = v.text.len() as u32;
    if ctrl {
        word_end(v.text, v.cursor)
    } else if v.cursor + 1 <= count {
        (v.cursor + 1) as u32
    } else {
        count
    }
}

/// The Left key: the cursor moves to `left_target`, a new selection's
/// anchor is one past it.
pub open spec fn moved_left(v: TextInputView, ctrl: bool, shift: bool) -> TextInputView {
    let c = left_target(v, ctrl);
    TextInputView {
        cursor: c,
        selection: moved_selection(v.selection, c, shift, (c + 1) as u32),
        cursor_visible: true,
        blink_restart: true,
        ..v
    }
}

/// The Right key: the cursor moves to `right_target`, a new selection's
/// anchor is one before it.
pub open spec fn moved_right(v: TextInputView, ctrl: bool, shift: bool) -> TextInputView {
    let c = right_target(v, ctrl);
    TextInputView {
        cursor: c,
        selection: moved_selection(v.selection, c, shift, (c - 1) as u32),
        cursor_visible: true,
        blink_restart: true,
        ..v
    }
}

/// Home or End: the cursor jumps to `c`.
pub open spec fn jumped_to(v: TextInputView, c: u32, shift: bool) -> TextInputView {
    TextInputView {
        cursor: c,
        selection: jumped_selection(v.selection, c, shift),
        cursor_visible: true,
        blink_restart: true,
        ..v
    }
}

/// With no selected text and the cursor before the end, Delete removes
/// exactly the character after the cursor, which stays where it is.
pub proof fn law_delete_removes_next_char(v: TextInputView)
    requires
        v.selection is None || v.selection->0.start == v.selection->0.end,
        (v.cursor as int) < v.text.len(),
    ensures
        deleted_forward(v).text == v.text.subrange(0, v.cursor as int) + v.text.subrange(v.cursor + 1, v.text.len() as int),
        deleted_forward(v).text.len() == v.text.len() - 1,
        deleted_forward(v).cursor == v.cursor,
{
}

/// With no selected text and the cursor after the start, Backspace removes
/// exactly the character before the cursor, which moves back by one.
pub proof fn law_backspace_removes_previous_char(v: TextInputView)
    requires
        v.selection is None || v.selection->0.start == v.selection->0.end,
        0 < v.cursor <= v.text.len(),
    ensures
        backspaced(v).text == v.text.subrange(0, v.cursor - 1) + v.text.subrange(v.cursor as int, v.text.len() as int),
        backspaced(v).text.len() == v.text.len() - 1,
        backspaced(v).cursor == v.cursor - 1,
{
}

/// Left and Right without Ctrl move the cursor by exactly one character
/// (not before the start, not past the end) and leave the text alone;
/// without Shift they drop the selection, and with Shift a new selection
/// covers the character passed over.
pub proof fn law_arrows_step_one_char(v: TextInputView, shift: bool)
    requires
        v.cursor <= v.text.len(),
        v.text.len() < u32::MAX,
    ensures
        moved_left(v, false, shift).cursor == (if v.cursor > 0 { v.cursor - 1 } else { 0int }),
        moved_right(v, false, shift).cursor == (if (v.cursor as int) < v.text.len() { v.cursor + 1 } else { v.text.len() as int }),
        moved_left(v, false, shift).text == v.text,
        moved_right(v, false, shift).text == v.text,
        !shift ==> moved_left(v, false, shift).selection is None && moved_right(v, false, shift).selection is None,
        shift && v.selection is None && v.cursor > 0 ==>
            moved_left(v, false, shift).selection == Some(Selection { start: v.cursor, end: (v.cursor - 1) as u32 }),
        shift && v.selection is None && (v.cursor as int) < v.text.len() ==>
            moved_right(v, false, shift).selection == Some(Selection { start: v.cursor, end: (v.cursor + 1) as u32 }),
{
}

/// Home puts the cursor at the start and End after the last character; the
/// text is left alone, and without Shift the selection is dropped.
pub proof fn law_home_end_reach_the_ends(v: TextInputView, shift: bool)
    requires
        v.text.len() <= u32::MAX,
    ensures
        jumped_to(v, 0, shift).cursor == 0,
        jumped_to(v, v.text.len() as u32, shift).cursor == v.text.len(),
        jumped_to(v, 0, shift).text == v.text,
        !shift ==> jumped_to(v, 0, shift).selection is None,
{
}

/// With no selected text, pasting `s` puts it at the cursor, keeping the
/// text around it, and the cursor goes after it.
pub proof fn law_paste_inserts_at_cursor(v: TextInputView, s: Seq<char>)
    requires
        v.selection is None || v.selection->0.start == v.selection->0.end,
        v.cursor <= v.text.len(),
        v.cursor + s.len() <= u32::MAX,
    ensures
        pasted(v, s).text == v.text.subrange(0, v.cursor as int) + s + v.text.subrange(v.cursor as int, v.text.len() as int),
        pasted(v, s).text.len() == v.text.len() + s.len(),
        pasted(v, s).cursor == v.cursor + s.len(),
        pasted(v, s).selection is None,
{
}

/// The selected text is the characters between the selection's two ends,
/// whichever end comes first.
pub proof fn law_selected_text_between_ends(v: TextInputView)
    requires
        v.selection matches Some(s) && s.start != s.end && s.start <= v.text.len() && s.end <= v.text.len(),
    ensures
        selected_text(v) == Some(v.text.subrange(v.selection->0.lo() as int, v.selection->0.hi() as int)),
        selected_text(v)->0.len() == v.selection->0.hi() - v.selection->0.lo(),
{
}

/// Typed characters keep their order and lose only control codes: none is
/// left in what is inserted, and text without them is inserted whole.
pub proof fn law_printable_drops_only_controls(keys: Seq<char>)
    ensures
        forall|i: int| 0 <= i < printable(keys).len() ==> !is_control_char(#[trigger] printable(keys)[i]),
        printable(keys).len() <= keys.len(),
        (forall|i: int| 0 <= i < keys.len() ==> !is_control_char(#[trigger] keys[i])) ==> printable(keys) == keys,
    decreases keys.len(),
{
    if keys.len() > 0 {
        let rest = keys.drop_last();
        law_printable_drops_only_controls(rest);
        if forall|i: int| 0 <= i < keys.len() ==> !is_control_char(#[trigger] keys[i]) {
            assert forall|i: int| 0 <= i < rest.len() implies !is_control_char(#[trigger] rest[i]) by {
                assert(rest[i] == keys[i]);
            }
            assert(!is_control_char(keys[keys.len() - 1]));
            assert(rest.push(keys.last()) =~= keys);
        }
    }
}

/// Whether the Left key may act: word-wise movement needs the cursor within
/// the text, and a new selection's anchor one past the new cursor must fit
/// in a `u32`.
pub open spec fn left_allowed(v: TextInputView, ctrl: bool, shift: bool) -> bool {
    (ctrl ==> v.cursor <= v.text.len()) && (shift && v.selection is None ==> left_target(v, ctrl) < u32::MAX)
}

/// Whether the Right key may act: the cursor must be able to step on within
/// a `u32`, and a new selection's anchor one before the new cursor must not
/// fall below 0.
pub open spec fn right_allowed(v: TextInputView, ctrl: bool, shift: bool) -> bool {
    (!ctrl ==> v.cursor < u32::MAX) && (shift && v.selection is None ==> right_target(v, ctrl) > 0)
}

/// Ctrl+A: the whole text selected, the cursor at its end.
pub open spec fn all_selected(v: TextInputView) -> TextInputView {
    TextInputView {
        selection: Some(Selection { start: 0, end: v.text.len() as u32 }),
        cursor: v.text.len() as u32,
        cursor_visible: true,
        blink_restart: true,
        ..v
    }
}

/// Backspace: the selection goes; otherwise the character before the cursor.
pub open spec fn backspaced(v: TextInputView) -> TextInputView {
    let w = deleted_selection(v);
    let u = if w.cursor > 0 {
        TextInputView {
            text: cut_range(w.text, w.cursor - 1, w.cursor as int),
            cursor: (w.cursor - 1) as u32,
            selection: None,
            ..w
        }
    } else {
        w
    };
    TextInputView { cursor_visible: true, blink_restart: true, ..u }
}

/// Delete: the selection goes; otherwise the character after the cursor.
pub open spec fn deleted_forward(v: TextInputView) -> TextInputView {
    let w = deleted_selection(v);
    let u = if (w.cursor as int) < w.text.len() {
        TextInputView {
            text: cut_range(w.text, w.cursor as int, w.cursor + 1),
            selection: None,
            ..w
        }
    } else {
        w
    };
    TextInputView { cursor_visible: true, blink_restart: true, ..u }
}

/// The selection's text, if the selection is not empty.
pub open spec fn selected_text(v: TextInputView) -> Option<Seq<char>> {
    match v.selection {
        Some(s) => if s.start != s.end {
            Some(range_of(v.text, s.lo() as int, s.hi() as int))
        } else {
            None
        },
        None => None,
    }
}

/// Pasting `s`: it replaces the selection and the cursor goes after it.
pub open spec fn pasted(v: TextInputView, s: Seq<char>) -> TextInputView {
    let w = deleted_selection(v);
    TextInputView {
        text: splice(w.text, w.cursor as int, s),
        cursor: (w.cursor + s.len()) as u32,
        selection: None,
        ..w
    }
}

/// Committed input: nothing happens for an empty string.
pub open spec fn committed(v: TextInputView, s: Seq<char>) -> TextInputView {
    if s.len() == 0 { v } else { inserted(v, s) }
}

/// The text cut down to the maximal length, if it is longer.
pub open spec fn limited(v: TextInputView) -> TextInputView {
    match v.max_length {
        Some(m) => if v.text.len() > m {
            let count = m as u32;
            TextInputView {
                text: v.text.take(m as int),
                cursor: if v.cursor > count { count } else { v.cursor },
                selection: None,
                ..v
            }
        } else {
            v
        },
        None => v,
    }
}

/// What a text input holds, as plain values.
pub struct TextInputView {
    pub text: Seq<char>,
    pub cursor: u32,
    pub selection: Option<Selection>,
    pub placeholder: Option<Seq<char>>,
    pub hover: bool,
    pub just_clicked: bool,
    pub selected: bool,
    pub cursor_visible: bool,
    /// Set by every edit that restarts the cursor's blinking.
    pub blink_restart: bool,
    pub is_password: bool,
    pub max_length: Option<usize>,
    pub is_dragging: bool,
    pub just_submitted: bool,
    pub key_left: KeyRepeatView,
    pub key_right: KeyRepeatView,
    pub key_backspace: KeyRepeatView,
    pub key_delete: KeyRepeatView,
}

/// The repeat state of `key` in `v`.
pub open spec fn key_of(v: TextInputView, key: EditKey) -> KeyRepeatView {
    match key {
        EditKey::Left => v.key_left,
        EditKey::Right => v.key_right,
        EditKey::Backspace => v.key_backspace,
        EditKey::Delete => v.key_delete,
    }
}

/// `v` with the repeat state of `key` replaced by `k`.
pub open spec fn with_key(v: TextInputView, key: EditKey, k: KeyRepeatView) -> TextInputView {
    match key {
        EditKey::Left => TextInputView { key_left: k, ..v },
        EditKey::Right => TextInputView { key_right: k, ..v },
        EditKey::Backspace => TextInputView { key_backspace: k, ..v },
        EditKey::Delete => TextInputView { key_delete: k, ..v },
    }
}

/// The key is up, with no press recorded.
pub open spec fn key_released(k: KeyRepeatView) -> bool {
    !k.pressed && k.first_press_time is None && k.last_repeat_time is None
}

/// The state after replacing the text: the cursor is clamped to the new
/// character count (taken as a `u32`) and the selection is dropped.
pub open spec fn with_text(v: TextInputView, t: Seq<char>) -> TextInputView {
    let count = t.len() as u32;
    TextInputView {
        text: t,
        cursor: if v.cursor <= count { v.cursor } else { count },
        selection: None,
        ..v
    }
}

/// The state after deleting a non-empty selection: the selected characters
/// go, the cursor moves to the selection's smaller end.
pub open spec fn deleted_selection(v: TextInputView) -> TextInputView {
    match v.selection {
        Some(s) => if s.start != s.end {
            TextInputView {
                text: cut_range(v.text, s.lo() as int, s.hi() as int),
                cursor: s.lo(),
                selection: None,
                ..v
            }
        } else {
            v
        },
        None => v,
    }
}

/// The state after inserting `s` at the cursor, once the selection is gone.
pub open spec fn inserted(v: TextInputView, s: Seq<char>) -> TextInputView {
    let w = deleted_selection(v);
    if s.len() == 0 {
        w
    } else {
        TextInputView {
            text: splice(w.text, w.cursor as int, s),
            cursor: (w.cursor + s.len()) as u32,
            selection: None,
            cursor_visible: true,
            blink_restart: true,
            ..w
        }
    }
}

/// The editing state of a text input.
pub struct TextInput {
    text: String,
    cursor_pos: u32,
    selection: Option<Selection>,
    placeholder: Option<String>,
    hover: bool,
    just_clicked: bool,
    selected: bool,
    cursor_visible: bool,
    blink_restart: bool,
    is_password: bool,
    max_length: Option<usize>,
    is_dragging: bool,
    just_submitted: bool,
    key_left: KeyRepeatState,
    key_right: KeyRepeatState,
    key_backspace: KeyRepeatState,
    key_delete: KeyRepeatState,
}

/// The keys of a text input that repeat while held.
#[derive(Debug, Clone, Copy, PartialEq, Eq)]
pub enum EditKey {
    Left,
    Right,
    Backspace,
    Delete,
}

impl View for TextInput {
    type V = TextInputView;

    closed spec fn view(&self) -> TextInputView {
        TextInputView {
            text: self.text@,
            cursor: self.cursor_pos,
            selection: self.selection,
            placeholder: match self.placeholder {
                Some(p) => Some(p@),
                None => None,
            },
            hover: self.hover,
            just_clicked: self.just_clicked,
            selected: self.selected,
            cursor_visible: self.cursor_visible,
            blink_restart: self.blink_restart,
            is_password: self.is_password,
            max_length: self.max_length,
            is_dragging: self.is_dragging,
            just_submitted: self.just_submitted,
            key_left: self.key_left@,
            key_right: self.key_right@,
            key_backspace: self.key_backspace@,
            key_delete: self.key_delete@,
        }
    }
}

/// The text from `s` between the characters `a` and `b`, clamped.
fn char_range(s: &str, a: usize, b: usize) -> (r: String)
    requires
        a <= b,
    ensures
        r@ == range_of(s@, a as int, b as int),
{
    let n = s.unicode_len();
    let a2 = if a < n { a } else { n };
    let b2 = if b < n { b } else { n };
    String::from_str(s.substring_char(a2, b2))
}

/// The text from `s` after its first `a` characters.
fn char_tail(s: &str, a: usize) -> (r: String)
    ensures
        r@ == s@.subrange(clamp_to(a as int, s@.len() as int), s@.len() as int),
{
    let n = s.unicode_len();
    let a2 = if a < n { a } else { n };
    String::from_str(s.substring_char(a2, n))
}

impl TextInput {
    /// Replaces the text, clamps the cursor to it and drops the selection.
    pub fn set_text(&mut self, text: String)
        ensures
            final(self)@ == with_text(old(self)@, text@),
    {
        self.text = text;
        let count = self.text.as_str().unicode_len() as u32;
        if count < self.cursor_pos {
            self.cursor_pos = count;
        }
        self.selection = None;
    }

    /// Deletes the selected characters, if the selection is not empty.
    pub fn delete_selection(&mut self)
        ensures
            final(self)@ == deleted_selection(old(self)@),
    {
        if let Some(sel) = self.selection {
            if !sel.is_empty() {
                let start_char = sel.min();
                let end_char = sel.max();
                let mut new_text = char_range(self.text.as_str(), 0, start_char as usize);
                let tail = char_tail(self.text.as_str(), end_char as usize);
                new_text.append(tail.as_str());
                proof {
                    let t = self.text@;
                    assert(new_text@ =~= cut_range(t, sel.lo() as int, sel.hi() as int));
                }
                self.set_text(new_text);
                self.cursor_pos = start_char;
            }
        }
    }

    /// Replaces the selection by `text` and puts the cursor after it; an empty
    /// `text` only deletes the selection.
    pub fn insert(&mut self, text: &str)
        ensures
            final(self)@ == inserted(old(self)@, text@),
    {
        self.delete_selection();
        if text.is_empty() {
            return;
        }
        let old_cursor = self.cursor_pos;
        let mut new_text = char_range(self.text.as_str(), 0, old_cursor as usize);
        new_text.append(text);
        let tail = char_tail(self.text.as_str(), old_cursor as usize);
        new_text.append(tail.as_str());
        proof {
            assert(new_text@ =~= splice(self.text@, old_cursor as int, text@));
        }
        self.set_text(new_text);
        let added = text.unicode_len();
        self.cursor_pos = #[verifier::truncate] (((old_cursor as u128) + (added as u128)) as u32);
        self.cursor_visible = true;
        self.blink_restart = true;
    }
}

impl TextInput {
    /// The position that word-wise cursor movement reaches from `pos`:
    /// forward, past the rest of the word and the separators after it;
    /// backward, over the separators before `pos` and then over the word.
    pub fn find_word_boundary(&self, pos: u32, forward: bool) -> (r: u32)
        requires
            !forward ==> pos <= self@.text.len(),
        ensures
            forward ==> r == word_end(self@.text, pos),
            !forward ==> r == word_start(self@.text, pos),
    {
        let t = self.text.as_str();
        let ghost ts = t@;
        let n = t.unicode_len();
        let count = #[verifier::truncate] (n as u32);
        let mut p = pos;
        if forward {
            assert((count as int) <= n as int) by (bit_vector)
                requires count == #[verifier::truncate] (n as u32);
            while p < count && is_alphanumeric(t.get_char(p as usize))
                invariant
                    ts == t@,
                    n == ts.len(),
                    count <= n,
                    pos <= p || p >= count,
                    skip_forward(ts, p as int, count as int, true) == skip_forward(ts, pos as int, count as int, true),
                decreases count - p,
            {
                p = p + 1;
            }
            let ghost mid = p;
            while p < count && !is_alphanumeric(t.get_char(p as usize))
                invariant
                    ts == t@,
                    n == ts.len(),
                    count <= n,
                    skip_forward(ts, p as int, count as int, false) == skip_forward(ts, mid as int, count as int, false),
                    mid == skip_forward(ts, pos as int, count as int, true),
                decreases count - p,
            {
                p = p + 1;
            }
        } else {
            while p > 0 && !is_alphanumeric(t.get_char((p - 1) as usize))
                invariant
                    ts == t@,
                    n == ts.len(),
                    p <= pos,
                    pos <= n,
                    skip_backward(ts, p as int, false) == skip_backward(ts, pos as int, false),
                decreases p,
            {
                p = p - 1;
            }
            let ghost mid = p;
            while p > 0 && is_alphanumeric(t.get_char((p - 1) as usize))
                invariant
                    ts == t@,
                    n == ts.len(),
                    p <= mid,
                    mid <= n,
                    skip_backward(ts, p as int, true) == skip_backward(ts, mid as int, true),
                    mid == skip_backward(ts, pos as int, false),
                decreases p,
            {
                p = p - 1;
            }
        }
        p
    }

    /// The text as shown: one `*` per character for a password input.
    pub fn display_text(&self) -> (r: String)
        ensures
            r@ == shown_text(self@),
    {
        if self.is_password {
            let n = self.text.as_str().unicode_len();
            let mut out = String::new();
            let mut i: usize = 0;
            proof {
                reveal_strlit("*");
            }
            while i < n
                invariant
                    i <= n,
                    n == self.text@.len(),
                    out@ =~= Seq::new(i as nat, |j: int| '*'),
                    "*"@ == seq!['*'],
                decreases n - i,
            {
                out.append("*");
                i = i + 1;
            }
            out
        } else {
            self.text.clone()
        }
    }
}

impl TextInput {
    /// Left arrow: moves the cursor back one character, or with `ctrl` to the
    /// start of the word; with `shift` the selection follows.
    pub fn move_left(&mut self, ctrl: bool, shift: bool)
        requires
            ctrl ==> old(self)@.cursor <= old(self)@.text.len(),
            shift && old(self)@.selection is None ==> left_target(old(self)@, ctrl) < u32::MAX,
        ensures
            final(self)@ == moved_left(old(self)@, ctrl, shift),
    {
        if ctrl {
            self.cursor_pos = self.find_word_boundary(self.cursor_pos, false);
        } else {
            self.cursor_pos = self.cursor_pos.saturating_sub(1);
        }
        if !shift {
            self.selection = None;
        } else {
            match self.selection {
                Some(s) => {
                    self.selection = Some(Selection { start: s.start, end: self.cursor_pos });
                },
                None => {
                    self.selection = Some(Selection { start: self.cursor_pos + 1, end: self.cursor_pos });
                },
            }
        }
        self.cursor_visible = true;
        self.blink_restart = true;
    }

    /// Whether `move_left(ctrl, shift)` may be called: word-wise movement
    /// needs the cursor within the text, and a new selection's anchor one
    /// past the new cursor must fit in a `u32`.
    pub fn can_move_left(&self, ctrl: bool, shift: bool) -> (r: bool)
        ensures
            r == left_allowed(self@, ctrl, shift),
    {
        let n = self.text.as_str().unicode_len();
        if ctrl && (self.cursor_pos as usize) > n {
            return false;
        }
        if shift && self.selection.is_none() {
            let target = if ctrl {
                self.find_word_boundary(self.cursor_pos, false)
            } else {
                self.cursor_pos.saturating_sub(1)
            };
            target < u32::MAX
        } else {
            true
        }
    }

    /// Whether `move_right(ctrl, shift)` may be called: the cursor must be
    /// able to step on within a `u32`, and a new selection's anchor one before
    /// the new cursor must not fall below 0.
    pub fn can_move_right(&self, ctrl: bool, shift: bool) -> (r: bool)
        ensures
            r == right_allowed(self@, ctrl, shift),
    {
        if !ctrl && self.cursor_pos == u32::MAX {
            return false;
        }
        if shift && self.selection.is_none() {
            let count = #[verifier::truncate] (self.text.as_str().unicode_len() as u32);
            let target = if ctrl {
                self.find_word_boundary(self.cursor_pos, true)
            } else if self.cursor_pos + 1 <= count {
                self.cursor_pos + 1
            } else {
                count
            };
            target > 0
        } else {
            true
        }
    }

    /// Right arrow: moves the cursor on one character, or with `ctrl` to the
    /// end of the word; with `shift` the selection follows.
    pub fn move_right(&mut self, ctrl: bool, shift: bool)
        requires
            !ctrl ==> old(self)@.cursor < u32::MAX,
            shift && old(self)@.selection is None ==> right_target(old(self)@, ctrl) > 0,
        ensures
            final(self)@ == moved_right(old(self)@, ctrl, shift),
    {
        let count = #[verifier::truncate] (self.text.as_str().unicode_len() as u32);
        if ctrl {
            self.cursor_pos = self.find_word_boundary(self.cursor_pos, true);
        } else {
            let next = self.cursor_pos + 1;
            self.cursor_pos = if next <= count { next } else { count };
        }
        if !shift {
            self.selection = None;
        } else {
            match self.selection {
                Some(s) => {
                    self.selection = Some(Selection { start: s.start, end: self.cursor_pos });
                },
                None => {
                    self.selection = Some(Selection { start: self.cursor_pos - 1, end: self.cursor_pos });
                },
            }
        }
        self.cursor_visible = true;
        self.blink_restart = true;
    }

    fn jump_to(&mut self, c: u32, shift: bool)
        ensures
            final(self)@ == jumped_to(old(self)@, c, shift),
    {
        self.cursor_pos = c;
        if !shift {
            self.selection = None;
        } else {
            match self.selection {
                Some(s) => {
                    self.selection = Some(Selection { start: s.start, end: c });
                },
                None => {},
            }
        }
        self.cursor_visible = true;
        self.blink_restart = true;
    }

    /// Home: the cursor goes to the start; with `shift` a selection follows.
    pub fn home(&mut self, shift: bool)
        ensures
            final(self)@ == jumped_to(old(self)@, 0, shift),
    {
        self.jump_to(0, shift);
    }

    /// End: the cursor goes after the last character; with `shift` a
    /// selection follows.
    pub fn end(&mut self, shift: bool)
        ensures
            final(self)@ == jumped_to(old(self)@, old(self)@.text.len() as u32, shift),
    {
        let count = #[verifier::truncate] (self.text.as_str().unicode_len() as u32);
        self.jump_to(count, shift);
    }

    /// Backspace: deletes the selection, or else the character before the cursor.
    pub fn backspace(&mut self)
        ensures
            final(self)@ == backspaced(old(self)@),
    {
        self.delete_selection();
        let c = self.cursor_pos;
        if c > 0 {
            let mut new_text = char_range(self.text.as_str(), 0, (c - 1) as usize);
            let tail = char_tail(self.text.as_str(), c as usize);
            new_text.append(tail.as_str());
            proof {
                assert(new_text@ =~= cut_range(self.text@, c - 1, c as int));
            }
            self.set_text(new_text);
            self.cursor_pos = c - 1;
        }
        self.cursor_visible = true;
        self.blink_restart = true;
    }

    /// Delete: deletes the selection, or else the character after the cursor.
    pub fn delete_forward(&mut self)
        ensures
            final(self)@ == deleted_forward(old(self)@),
    {
        self.delete_selection();
        let c = self.cursor_pos;
        let count = self.text.as_str().unicode_len();
        if (c as usize) < count {
            let mut new_text = char_range(self.text.as_str(), 0, c as usize);
            let tail = char_tail(self.text.as_str(), c as usize + 1);
            new_text.append(tail.as_str());
            proof {
                assert(new_text@ =~= cut_range(self.text@, c as int, c + 1));
            }
            self.set_text(new_text);
            self.cursor_pos = c;
        }
        self.cursor_visible = true;
        self.blink_restart = true;
    }

    /// Ctrl+A: selects the whole text and puts the cursor at its end.
    pub fn select_all(&mut self)
        ensures
            final(self)@ == all_selected(old(self)@),
    {
        let count = #[verifier::truncate] (self.text.as_str().unicode_len() as u32);
        self.selection = Some(Selection { start: 0, end: count });
        self.cursor_pos = count;
        self.cursor_visible = true;
        self.blink_restart = true;
    }

    /// The selected text, if the selection is not empty (what a copy puts on
    /// the clipboard).
    pub fn copy_selection(&self) -> (r: Option<String>)
        ensures
            match r {
                Some(t) => selected_text(self@) == Some(t@),
                None => selected_text(self@) is None,
            },
    {
        match self.selection {
            Some(sel) => {
                if sel.is_empty() {
                    None
                } else {
                    Some(char_range(self.text.as_str(), sel.min() as usize, sel.max() as usize))
                }
            },
            None => None,
        }
    }

    /// Cut: returns the selected text, if the selection is not empty, and
    /// deletes it.
    pub fn cut_selection(&mut self) -> (r: Option<String>)
        ensures
            match r {
                Some(t) => selected_text(old(self)@) == Some(t@),
                None => selected_text(old(self)@) is None,
            },
            final(self)@ == deleted_selection(old(self)@),
    {
        let r = self.copy_selection();
        self.delete_selection();
        r
    }

    /// Paste: `text` replaces the selection and the cursor goes after it.
    pub fn paste(&mut self, text: &str)
        ensures
            final(self)@ == pasted(old(self)@, text@),
    {
        self.delete_selection();
        let c = self.cursor_pos;
        let mut new_text = char_range(self.text.as_str(), 0, c as usize);
        new_text.append(text);
        let tail = char_tail(self.text.as_str(), c as usize);
        new_text.append(tail.as_str());
        proof {
            assert(new_text@ =~= splice(self.text@, c as int, text@));
        }
        self.set_text(new_text);
        let added = text.unicode_len();
        self.cursor_pos = #[verifier::truncate] (((c as u128) + (added as u128)) as u32);
    }

    /// Text committed by an input method, or typed: inserted at the cursor
    /// unless it is empty.
    pub fn commit_input(&mut self, text: &str)
        ensures
            final(self)@ == committed(old(self)@, text@),
    {
        if !text.is_empty() {
            self.insert(text);
        }
    }

    /// Typed characters: those that are not control codes are inserted at the
    /// cursor, together.
    pub fn type_chars(&mut self, keys: &Vec<char>)
        ensures
            final(self)@ == committed(old(self)@, printable(keys@)),
    {
        let mut input = String::new();
        let mut i: usize = 0;
        while i < keys.len()
            invariant
                i <= keys.len(),
                input@ == printable(keys@.take(i as int)),
            decreases keys.len() - i,
        {
            let c = keys[i];
            proof {
                assert(keys@.take(i + 1).drop_last() =~= keys@.take(i as int));
            }
            if !is_control(c) {
                push_char(&mut input, c);
            }
            i = i + 1;
        }
        proof {
            assert(keys@.take(keys.len() as int) =~= keys@);
        }
        self.commit_input(input.as_str());
    }

    /// Cuts the text down to the maximal length, if it is longer; the cursor
    /// is clamped and the selection dropped.
    pub fn enforce_max_length(&mut self)
        ensures
            final(self)@ == limited(old(self)@),
    {
        if let Some(max) = self.max_length {
            let count = self.text.as_str().unicode_len();
            if count > max {
                self.text = char_range(self.text.as_str(), 0, max);
                let new_count = #[verifier::truncate] (max as u32);
                if self.cursor_pos > new_count {
                    self.cursor_pos = new_count;
                }
                self.selection = None;
            }
        }
    }
}

/// The keys that a focused text input reads in one frame.
pub struct KeyFrame {
    pub ctrl: bool,
    pub shift: bool,
    /// A, X, C and V went down in this frame (with `ctrl`: select all, cut,
    /// copy, paste).
    pub a_pressed: bool,
    pub x_pressed: bool,
    pub c_pressed: bool,
    pub v_pressed: bool,
    pub home_pressed: bool,
    pub end_pressed: bool,
    pub enter_pressed: bool,
    /// The keys that repeat while held: whether each is held.
    pub left_down: bool,
    pub right_down: bool,
    pub backspace_down: bool,
    pub delete_down: bool,
    /// The characters typed in this frame.
    pub typed: Vec<char>,
}

/// Which of the repeating keys act in a frame.
#[derive(Debug, Clone, Copy, PartialEq, Eq)]
pub struct KeyFires {
    pub left: bool,
    pub right: bool,
    pub backspace: bool,
    pub delete: bool,
}

/// An arrow key would move the cursor or a selection's anchor out of the
/// range of a `u32`.
#[derive(Debug, Clone, Copy, PartialEq, Eq)]
pub struct CursorOverflow;

/// What an optional string holds, as characters.
pub open spec fn opt_chars(o: Option<String>) -> Option<Seq<char>> {
    match o {
        Some(t) => Some(t@),
        None => None,
    }
}

/// The outcome of a frame's keys as plain values: `None` when an arrow key
/// could not act; otherwise what goes on the clipboard, if anything.
pub open spec fn outcome_chars(r: Result<Option<String>, CursorOverflow>) -> Option<Option<Seq<char>>> {
    match r {
        Ok(w) => Some(opt_chars(w)),
        Err(_) => None,
    }
}

/// Ctrl+A, Ctrl+X, Ctrl+C and Ctrl+V, in this order: the state after them
/// and the text they put on the clipboard (a copy wins over a cut). A paste
/// takes what was just put there, or else `clip`, what the clipboard held.
pub open spec fn clipboard_keys(v: TextInputView, k: KeyFrame, clip: Option<Seq<char>>) -> (TextInputView, Option<Seq<char>>) {
    let v1 = if k.ctrl && k.a_pressed { all_selected(v) } else { v };
    let cut = if k.ctrl && k.x_pressed { selected_text(v1) } else { None };
    let v2 = if k.ctrl && k.x_pressed { deleted_selection(v1) } else { v1 };
    let copied = if k.ctrl && k.c_pressed { selected_text(v2) } else { None };
    let written = if copied is Some { copied } else { cut };
    let source = if written is Some { written } else { clip };
    let v3 = if k.ctrl && k.v_pressed && source is Some { pasted(v2, source->0) } else { v2 };
    (v3, written)
}

/// Home, End, Backspace, Delete, Enter and the typed characters, in this
/// order, each where it acts.
pub open spec fn other_keys(v: TextInputView, k: KeyFrame, f: KeyFires) -> TextInputView {
    let v1 = if k.home_pressed { jumped_to(v, 0, k.shift) } else { v };
    let v2 = if k.end_pressed { jumped_to(v1, v1.text.len() as u32, k.shift) } else { v1 };
    let v3 = if f.backspace { backspaced(v2) } else { v2 };
    let v4 = if f.delete { deleted_forward(v3) } else { v3 };
    let v5 = if k.enter_pressed { TextInputView { just_submitted: true, ..v4 } } else { v4 };
    committed(v5, printable(k.typed@))
}

/// A frame's keys with the repeating ones acting as `f` says: the state
/// after them, and the outcome (see `outcome_chars`). The clipboard keys come
/// first, then Left and Right; an arrow key that acts but cannot ends the
/// frame's keys there, with the outcome `None`.
pub open spec fn keys_edited(v: TextInputView, k: KeyFrame, f: KeyFires, clip: Option<Seq<char>>)
    -> (TextInputView, Option<Option<Seq<char>>>)
{
    let (v1, written) = clipboard_keys(v, k, clip);
    if f.left && !left_allowed(v1, k.ctrl, k.shift) {
        (v1, None)
    } else {
        let v2 = if f.left { moved_left(v1, k.ctrl, k.shift) } else { v1 };
        if f.right && !right_allowed(v2, k.ctrl, k.shift) {
            (v2, None)
        } else {
            let v3 = if f.right { moved_right(v2, k.ctrl, k.shift) } else { v2 };
            (other_keys(v3, k, f), Some(written))
        }
    }
}

/// Without Ctrl held, the clipboard keys do nothing: a frame's keys never
/// select all, cut, copy or paste, whatever the clipboard holds, and the
/// text then comes from the other keys and the typed characters alone.
pub proof fn law_no_clipboard_without_ctrl(v: TextInputView, k: KeyFrame, f: KeyFires, c1: Option<Seq<char>>, c2: Option<Seq<char>>)
    requires
        !k.ctrl,
    ensures
        clipboard_keys(v, k, c1) == (v, None::<Seq<char>>),
        keys_edited(v, k, f, c1) == keys_edited(v, k, f, c2),
{
}

/// The repeating keys read in a frame: each steps from its state in `v` as
/// `key_step` says, acting as `f` says, and `u` is `v` with the new states.
pub open spec fn keys_read(v: TextInputView, k: KeyFrame, f: KeyFires, u: TextInputView) -> bool {
    &&& key_step(v.key_left, u.key_left, k.left_down, f.left)
    &&& key_step(v.key_right, u.key_right, k.right_down, f.right)
    &&& key_step(v.key_backspace, u.key_backspace, k.backspace_down, f.backspace)
    &&& key_step(v.key_delete, u.key_delete, k.delete_down, f.delete)
    &&& u == (TextInputView {
        key_left: u.key_left,
        key_right: u.key_right,
        key_backspace: u.key_backspace,
        key_delete: u.key_delete,
        ..v
    })
}

impl TextInput {
    /// Applies a frame's keys, the repeating ones acting as `fires` says;
    /// `clipboard` is what the clipboard holds. Returns the text to put on
    /// the clipboard, if any, or `CursorOverflow` when an arrow key that acts
    /// cannot (then only the keys before the arrows have acted).
    pub fn edit_keys(&mut self, k: &KeyFrame, fires: KeyFires, clipboard: Option<String>)
        -> (r: Result<Option<String>, CursorOverflow>)
        ensures
            (final(self)@, outcome_chars(r)) == keys_edited(old(self)@, *k, fires, opt_chars(clipboard)),
    {
        let (ctrl, shift) = (k.ctrl, k.shift);
        let written = self.clipboard_phase(k, clipboard);
        if fires.left {
            if !self.can_move_left(ctrl, shift) {
                return Err(CursorOverflow);
            }
            self.move_left(ctrl, shift);
        }
        if fires.right {
            if !self.can_move_right(ctrl, shift) {
                return Err(CursorOverflow);
            }
            self.move_right(ctrl, shift);
        }
        self.other_phase(k, fires);
        Ok(written)
    }

    fn clipboard_phase(&mut self, k: &KeyFrame, clipboard: Option<String>) -> (r: Option<String>)
        ensures
            (final(self)@, opt_chars(r)) == clipboard_keys(old(self)@, *k, opt_chars(clipboard)),
    {
        let ctrl = k.ctrl;
        if ctrl && k.a_pressed {
            self.select_all();
        }
        let mut written: Option<String> = None;
        if ctrl && k.x_pressed {
            written = self.cut_selection();
        }
        if ctrl && k.c_pressed {
            let copied = self.copy_selection();
            if copied.is_some() {
                written = copied;
            }
        }
        if ctrl && k.v_pressed {
            let source = match &written {
                Some(t) => Some(t.clone()),
                None => clipboard,
            };
            if let Some(text) = source {
                self.paste(text.as_str());
            }
        }
        written
    }

    fn other_phase(&mut self, k: &KeyFrame, fires: KeyFires)
        ensures
            final(self)@ == other_keys(old(self)@, *k, fires),
    {
        let shift = k.shift;
        if k.home_pressed {
            self.home(shift);
        }
        if k.end_pressed {
            self.end(shift);
        }
        if fires.backspace {
            self.backspace();
        }
        if fires.delete {
            self.delete_forward();
        }
        if k.enter_pressed {
            self.submit();
        }
        self.type_chars(&k.typed);
    }

    /// A frame's keyboard input while the input is focused. Text committed
    /// by an input method is inserted and the keys are not read; while the
    /// input method is composing (`preedit_empty` false) the keys are not
    /// read either; otherwise the repeating keys are read and the keys
    /// applied as `edit_keys` does. Returns what `edit_keys` returns, or no
    /// clipboard text when the keys were not read.
    pub fn take_keys(&mut self, k: &KeyFrame, clipboard: Option<String>, ime_commit: Option<String>, preedit_empty: bool)
        -> (r: Result<Option<String>, CursorOverflow>)
        ensures
            ime_commit matches Some(t) ==> final(self)@ == committed(old(self)@, t@) && outcome_chars(r) == Some(None::<Seq<char>>),
            ime_commit is None && !preedit_empty ==> final(self)@ == old(self)@ && outcome_chars(r) == Some(None::<Seq<char>>),
            ime_commit is None && preedit_empty ==> exists|f: KeyFires, u: TextInputView| #[trigger] keys_read(old(self)@, *k, f, u)
                && (final(self)@, outcome_chars(r)) == keys_edited(u, *k, f, opt_chars(clipboard)),
    {
        match ime_commit {
            Some(text) => {
                self.commit_input(text.as_str());
                Ok(None)
            },
            None => {
                if !preedit_empty {
                    return Ok(None);
                }
                let ghost v0 = self@;
                let left = self.update_key(EditKey::Left, k.left_down);
                let right = self.update_key(EditKey::Right, k.right_down);
                let backspace = self.update_key(EditKey::Backspace, k.backspace_down);
                let delete = self.update_key(EditKey::Delete, k.delete_down);
                let fires = KeyFires { left, right, backspace, delete };
                let ghost u = self@;
                assert(keys_read(v0, *k, fires, u));
                self.edit_keys(k, fires, clipboard)
            },
        }
    }
}

/// How long a key must be held before it starts repeating: half a second.
pub const INITIAL_DELAY_NANOS: u128 = 500_000_000;

/// How often a held key repeats once it does: every 50 ms.
pub const REPEAT_INTERVAL_NANOS: u128 = 50_000_000;

pub open spec fn repeat_fires_spec(held: u128, since_last: Option<u128>) -> bool {
    held > INITIAL_DELAY_NANOS && match since_last {
        Some(l) => l > REPEAT_INTERVAL_NANOS,
        None => true,
    }
}

/// Whether a key held for `held` nanoseconds, whose last repeat was
/// `since_last` nanoseconds ago (`None`: it has not repeated yet), repeats now.
pub fn repeat_fires(held: u128, since_last: Option<u128>) -> (r: bool)
    ensures
        r == repeat_fires_spec(held, since_last),
{
    if held > INITIAL_DELAY_NANOS {
        match since_last {
            Some(l) => l > REPEAT_INTERVAL_NANOS,
            None => true,
        }
    } else {
        false
    }
}

/// `now - then`, or zero if `then` is later.
pub open spec fn nanos_since(now: u128, then: u128) -> u128 {
    if now >= then { (now - then) as u128 } else { 0 }
}

/// A reading of a key at time `now` (nanoseconds from the key's origin):
/// the new state and whether the key acts. Released, it resets; on the
/// frame it goes down it acts and records `now` as its press; while held it
/// acts exactly when `repeat_fires_spec` says so for the time held since the
/// press and the time since the last repeat, and then records `now` as the
/// last repeat.
pub open spec fn key_stepped(k: KeyRepeatView, is_down: bool, now: u128) -> (KeyRepeatView, bool) {
    if !is_down {
        (KeyRepeatView { pressed: false, first_press_time: None, last_repeat_time: None, ..k }, false)
    } else if !k.pressed {
        (KeyRepeatView { pressed: true, first_press_time: Some(now), last_repeat_time: None, ..k }, true)
    } else {
        let held = match k.first_press_time {
            Some(f) => nanos_since(now, f),
            None => now,
        };
        let since_last = match k.last_repeat_time {
            Some(l) => Some(nanos_since(now, l)),
            None => None,
        };
        let fire = repeat_fires_spec(held, since_last);
        (if fire { KeyRepeatView { last_repeat_time: Some(now), ..k } } else { k }, fire)
    }
}

/// How one frame's reading of a key (`is_down`) can change its repeat state
/// from `k` to `k2`, with `r` whether it acts: as `key_stepped` says for
/// some time the clock can give.
pub open spec fn key_step(k: KeyRepeatView, k2: KeyRepeatView, is_down: bool, r: bool) -> bool {
    exists|now: u128| now <= MAX_DURATION_NANOS && (k2, r) == #[trigger] key_stepped(k, is_down, now)
}

/// A released key never acts and forgets its press; a key that goes down
/// acts at once; a held key does not repeat until it has been held longer
/// than the initial delay, nor sooner than one interval after its last
/// repeat; readings keep the key's origin.
pub proof fn law_key_repeat_timing(k: KeyRepeatView, now: u128)
    ensures
        !key_stepped(k, false, now).1 && key_released(key_stepped(k, false, now).0),
        !k.pressed ==> key_stepped(k, true, now).1 && key_stepped(k, true, now).0.first_press_time == Some(now),
        k.pressed && k.first_press_time is Some && nanos_since(now, k.first_press_time->0) <= INITIAL_DELAY_NANOS
            ==> !key_stepped(k, true, now).1 && key_stepped(k, true, now).0 == k,
        k.pressed && k.last_repeat_time is Some && nanos_since(now, k.last_repeat_time->0) <= REPEAT_INTERVAL_NANOS
            ==> !key_stepped(k, true, now).1,
        key_stepped(k, true, now).0.origin == k.origin,
        key_stepped(k, false, now).0.origin == k.origin,
{
}

/// The state of a key that repeats while it is held down. Times are
/// nanoseconds from `origin`, the moment the state was made.
pub struct KeyRepeatState {
    origin: Instant,
    pressed: bool,
    first_press_time: Option<u128>,
    last_repeat_time: Option<u128>,
}

pub struct KeyRepeatView {
    pub origin: Instant,
    pub pressed: bool,
    pub first_press_time: Option<u128>,
    pub last_repeat_time: Option<u128>,
}

impl View for KeyRepeatState {
    type V = KeyRepeatView;

    closed spec fn view(&self) -> KeyRepeatView {
        KeyRepeatView {
            origin: self.origin,
            pressed: self.pressed,
            first_press_time: self.first_press_time,
            last_repeat_time: self.last_repeat_time,
        }
    }
}

impl KeyRepeatState {
    /// A held key knows when it was pressed.
    #[verifier::type_invariant]
    closed spec fn held_key_has_start(self) -> bool {
        self.pressed ==> self.first_press_time is Some
    }

    /// A released key, counting time from now.
    pub fn new() -> (k: KeyRepeatState)
        ensures
            key_released(k@),
    {
        KeyRepeatState { origin: instant_now(), pressed: false, first_press_time: None, last_repeat_time: None }
    }

    /// Reads the key at time `now` (nanoseconds from its origin); returns
    /// whether it acts.
    pub fn step_at(&mut self, is_down: bool, now: u128) -> (r: bool)
        ensures
            (final(self)@, r) == key_stepped(old(self)@, is_down, now),
    {
        proof {
            use_type_invariant(&*self);
        }
        if is_down {
            if !self.pressed {
                *self = KeyRepeatState {
                    origin: self.origin,
                    pressed: true,
                    first_press_time: Some(now),
                    last_repeat_time: None,
                };
                true
            } else {
                let held = match self.first_press_time {
                    Some(first) => now.saturating_sub(first),
                    None => now,
                };
                let since_last = match self.last_repeat_time {
                    Some(last) => Some(now.saturating_sub(last)),
                    None => None,
                };
                let fire = repeat_fires(held, since_last);
                if fire {
                    self.last_repeat_time = Some(now);
                }
                fire
            }
        } else {
            *self = KeyRepeatState { origin: self.origin, pressed: false, first_press_time: None, last_repeat_time: None };
            false
        }
    }

    /// Reads the key once per frame, at the time the clock gives; returns
    /// whether it acts now: on the frame it goes down, and then, once held
    /// past the initial delay, every repeat interval.
    pub fn update(&mut self, is_down: bool) -> (r: bool)
        ensures
            key_step(old(self)@, final(self)@, is_down, r),
    {
        let clock = instant_now();
        let now = nanos_between(&clock, &self.origin);
        self.step_at(is_down, now)
    }
}

impl TextInput {
    /// An empty, unfocused input that holds at most `max_length` characters
    /// (`None`: no limit).
    pub fn new(max_length: Option<usize>) -> (t: TextInput)
        ensures
            t@ == (TextInputView {
                text: Seq::empty(),
                cursor: 0,
                selection: None,
                placeholder: None,
                hover: false,
                just_clicked: false,
                selected: false,
                cursor_visible: true,
                blink_restart: false,
                is_password: false,
                max_length: max_length,
                is_dragging: false,
                just_submitted: false,
                key_left: t@.key_left,
                key_right: t@.key_right,
                key_backspace: t@.key_backspace,
                key_delete: t@.key_delete,
            }),
            key_released(t@.key_left),
            key_released(t@.key_right),
            key_released(t@.key_backspace),
            key_released(t@.key_delete),
    {
        TextInput {
            text: String::new(),
            cursor_pos: 0,
            selection: None,
            placeholder: None,
            hover: false,
            just_clicked: false,
            selected: false,
            cursor_visible: true,
            blink_restart: false,
            is_password: false,
            max_length,
            is_dragging: false,
            just_submitted: false,
            key_left: KeyRepeatState::new(),
            key_right: KeyRepeatState::new(),
            key_backspace: KeyRepeatState::new(),
            key_delete: KeyRepeatState::new(),
        }
    }

    /// The text shown while the input is empty.
    pub fn with_placeholder(self, text: String) -> (t: TextInput)
        ensures
            t@ == (TextInputView { placeholder: Some(text@), ..self@ }),
    {
        TextInput { placeholder: Some(text), ..self }
    }

    /// Whether the input hides its characters behind `*`.
    pub fn with_password(self, is_password: bool) -> (t: TextInput)
        ensures
            t@ == (TextInputView { is_password: is_password, ..self@ }),
    {
        TextInput { is_password, ..self }
    }

    /// Limits the input to `max` characters (at least one): the text is cut
    /// down to them and the cursor clamped.
    pub fn with_max_length(self, max: usize) -> (t: TextInput)
        ensures
            ({
                let m: usize = if max >= 1 { max } else { 1 };
                let text = self@.text.take(clamp_to(m as int, self@.text.len() as int));
                let count = text.len() as u32;
                t@ == (TextInputView {
                    max_length: Some(m),
                    text: text,
                    cursor: if self@.cursor <= count { self@.cursor } else { count },
                    ..self@
                })
            }),
    {
        let mut this = self;
        let m: usize = if max >= 1 { max } else { 1 };
        this.max_length = Some(m);
        this.text = char_range(this.text.as_str(), 0, m);
        let count = #[verifier::truncate] (this.text.as_str().unicode_len() as u32);
        if count < this.cursor_pos {
            this.cursor_pos = count;
        }
        proof {
            assert(this.text@ =~= self@.text.take(clamp_to(m as int, self@.text.len() as int)));
        }
        this
    }

    pub fn get_text(&self) -> (r: String)
        ensures
            r@ == self@.text,
    {
        self.text.clone()
    }

    /// Empties the text.
    pub fn clear(&mut self)
        ensures
            final(self)@ == with_text(old(self)@, Seq::empty()),
    {
        self.set_text(String::new());
    }

    /// Whether Enter was pressed in this frame.
    pub fn is_submitted(&self) -> (r: bool)
        ensures
            r == self@.just_submitted,
    {
        self.just_submitted
    }

    /// Enter: marks the input as submitted for this frame.
    pub fn submit(&mut self)
        ensures
            final(self)@ == (TextInputView { just_submitted: true, ..old(self)@ }),
    {
        self.just_submitted = true;
    }

    /// Reads `key` once in this frame (`down`: whether it is held); returns
    /// whether it acts now. The other keys and the text are left alone.
    pub fn update_key(&mut self, key: EditKey, down: bool) -> (r: bool)
        ensures
            final(self)@ == with_key(old(self)@, key, key_of(final(self)@, key)),
            key_step(key_of(old(self)@, key), key_of(final(self)@, key), down, r),
    {
        match key {
            EditKey::Left => self.key_left.update(down),
            EditKey::Right => self.key_right.update(down),
            EditKey::Backspace => self.key_backspace.update(down),
            EditKey::Delete => self.key_delete.update(down),
        }
    }
}

impl TextInput {
    /// At the start of each frame the one-frame flags (clicked, submitted)
    /// are cleared.
    pub fn begin_frame(&mut self)
        ensures
            final(self)@ == (TextInputView { just_clicked: false, just_submitted: false, ..old(self)@ }),
    {
        self.just_clicked = false;
        self.just_submitted = false;
    }

    /// Records whether the pointer is over the input.
    pub fn set_hover(&mut self, hover: bool)
        ensures
            final(self)@ == (TextInputView { hover: hover, ..old(self)@ }),
    {
        self.hover = hover;
    }

    /// A press of the main button on the input: it gains focus and counts as
    /// clicked in this frame.
    pub fn press(&mut self)
        ensures
            final(self)@ == (TextInputView { selected: true, just_clicked: true, ..old(self)@ }),
    {
        self.selected = true;
        self.just_clicked = true;
    }

    /// A press that moved away before it became a long press: dragging starts
    /// with an empty selection at character `pos`.
    pub fn start_drag_at(&mut self, pos: usize)
        ensures
            final(self)@ == (TextInputView {
                is_dragging: true,
                cursor: pos as u32,
                selection: Some(Selection { start: pos as u32, end: pos as u32 }),
                ..old(self)@
            }),
    {
        self.is_dragging = true;
        self.cursor_pos = #[verifier::truncate] (pos as u32);
        self.selection = Some(Selection::new(self.cursor_pos));
    }

    /// The release of a short press at character `pos`: the cursor goes
    /// there; a double click selects the word around it, a single one leaves
    /// an empty selection there.
    pub fn click_at(&mut self, pos: usize, double: bool)
        requires
            double ==> (pos as u32) <= old(self)@.text.len(),
        ensures
            ({
                let c = pos as u32;
                final(self)@ == (TextInputView {
                    is_dragging: true,
                    cursor: c,
                    selection: if double {
                        Some(Selection { start: word_start(old(self)@.text, c), end: word_end(old(self)@.text, c) })
                    } else {
                        Some(Selection { start: c, end: c })
                    },
                    cursor_visible: true,
                    blink_restart: true,
                    ..old(self)@
                })
            }),
    {
        self.is_dragging = true;
        self.cursor_pos = #[verifier::truncate] (pos as u32);
        if double {
            let s = self.find_word_boundary(self.cursor_pos, false);
            let e = self.find_word_boundary(self.cursor_pos, true);
            self.selection = Some(Selection { start: s, end: e });
        } else {
            self.selection = Some(Selection::new(self.cursor_pos));
        }
        self.cursor_visible = true;
        self.blink_restart = true;
    }

    /// Dragging over character `pos`: the cursor and the selection's moving
    /// end follow.
    pub fn drag_to(&mut self, pos: usize)
        ensures
            final(self)@ == (TextInputView {
                cursor: pos as u32,
                selection: match old(self)@.selection {
                    Some(s) => Some(Selection { start: s.start, end: pos as u32 }),
                    None => None,
                },
                ..old(self)@
            }),
    {
        let p = #[verifier::truncate] (pos as u32);
        if let Some(sel) = self.selection {
            self.selection = Some(Selection { start: sel.start, end: p });
        }
        self.cursor_pos = p;
    }

    /// The button is up: dragging stops.
    pub fn end_drag(&mut self)
        ensures
            final(self)@ == (TextInputView { is_dragging: false, ..old(self)@ }),
    {
        self.is_dragging = false;
    }

    /// A press outside the input: it loses focus and its selection.
    pub fn blur(&mut self)
        ensures
            final(self)@ == (TextInputView {
                selected: false,
                is_dragging: false,
                selection: None,
                ..old(self)@
            }),
    {
        self.selected = false;
        self.is_dragging = false;
        self.selection = None;
    }

    /// Escape: the input loses focus and its selection.
    pub fn escape(&mut self)
        ensures
            final(self)@ == (TextInputView { selected: false, selection: None, ..old(self)@ }),
    {
        self.selected = false;
        self.selection = None;
    }

    /// One blink of the cursor: it shows if it was hidden and hides if it was shown.
    pub fn blink(&mut self)
        ensures
            final(self)@ == (TextInputView { cursor_visible: !old(self)@.cursor_visible, ..old(self)@ }),
    {
        self.cursor_visible = !self.cursor_visible;
    }

    /// Whether an edit restarted the cursor's blinking since the last call;
    /// the mark is cleared.
    pub fn take_blink_restart(&mut self) -> (r: bool)
        ensures
            r == old(self)@.blink_restart,
            final(self)@ == (TextInputView { blink_restart: false, ..old(self)@ }),
    {
        let r = self.blink_restart;
        self.blink_restart = false;
        r
    }

    pub fn cursor_pos(&self) -> (r: u32)
        ensures
            r == self@.cursor,
    {
        self.cursor_pos
    }

    pub fn selection(&self) -> (r: Option<Selection>)
        ensures
            r == self@.selection,
    {
        self.selection
    }

    /// Whether the input has the focus.
    pub fn is_selected(&self) -> (r: bool)
        ensures
            r == self@.selected,
    {
        self.selected
    }

    pub fn is_dragging(&self) -> (r: bool)
        ensures
            r == self@.is_dragging,
    {
        self.is_dragging
    }

    pub fn is_cursor_visible(&self) -> (r: bool)
        ensures
            r == self@.cursor_visible,
    {
        self.cursor_visible
    }

    pub fn is_password(&self) -> (r: bool)
        ensures
            r == self@.is_password,
    {
        self.is_password
    }

    pub fn max_length(&self) -> (r: Option<usize>)
        ensures
            r == self@.max_length,
    {
        self.max_length
    }

    pub fn placeholder(&self) -> (r: Option<String>)
        ensures
            match r {
                Some(p) => self@.placeholder == Some(p@),
                None => self@.placeholder is None,
            },
    {
        match &self.placeholder {
            Some(p) => Some(p.clone()),
            None => None,
        }
    }
}

impl Action for TextInput {
    fn is_clicked(&self) -> (r: bool)
        ensures
            r == self@.just_clicked,
    {
        self.just_clicked
    }

    fn is_hovered(&self) -> (r: bool)
        ensures
            r == self@.hover,
    {
        self.hover
    }
}

/// Cutting the selection and pasting what was cut puts the text back as it was.
pub proof fn law_cut_then_paste_restores(v: TextInputView)
    requires
        selected_text(v) is Some,
    ensures
        pasted(deleted_selection(v), selected_text(v)->0).text == v.text,
{
    let s = v.selection->0;
    let t = v.text;
    let n = t.len() as int;
    let x = selected_text(v)->0;
    let d = deleted_selection(v);
    let a = clamp_to(s.lo() as int, n);
    let b = clamp_to(s.hi() as int, n);
    assert(d.text =~= t.subrange(0, a) + t.subrange(b, n));
    assert(x =~= t.subrange(a, b));
    let at = clamp_to(s.lo() as int, d.text.len() as int);
    assert(at == a);
    assert(d.text.subrange(0, at) =~= t.subrange(0, a));
    assert(d.text.subrange(at, d.text.len() as int) =~= t.subrange(b, n));
    assert(t.subrange(0, a) + t.subrange(a, b) + t.subrange(b, n) =~= t);
}

/// Typing one character and then pressing Backspace gives back the text and
/// the cursor.
pub proof fn law_type_then_backspace_restores(v: TextInputView, ch: char)
    requires
        v.selection is None,
        v.cursor <= v.text.len(),
        v.cursor < u32::MAX,
    ensures
        backspaced(inserted(v, seq![ch])).text == v.text,
        backspaced(inserted(v, seq![ch])).cursor == v.cursor,
{
    let t = v.text;
    let c = v.cursor as int;
    let w = inserted(v, seq![ch]);
    assert(w.text =~= t.subrange(0, c) + seq![ch] + t.subrange(c, t.len() as int));
    assert(w.cursor == c + 1);
    let u = backspaced(w);
    assert(u.text =~= t);
}

/// After the length limit is applied, the text is no longer than the limit,
/// and applying it again changes nothing.
pub proof fn law_limit_bounds_text(v: TextInputView)
    ensures
        limited(v).max_length matches Some(m) ==> limited(v).text.len() <= m,
        limited(limited(v)) == limited(v),
{
}

/// Selecting everything and cutting it yields the whole text and leaves the
/// input empty.
pub proof fn law_select_all_then_cut_empties(v: TextInputView)
    requires
        v.text.len() > 0,
        v.text.len() <= u32::MAX,
    ensures
        ({
            let count = v.text.len() as u32;
            let w = TextInputView {
                selection: Some(Selection { start: 0, end: count }),
                cursor: count,
                cursor_visible: true,
                blink_restart: true,
                ..v
            };
            selected_text(w) == Some(v.text) && deleted_selection(w).text.len() == 0
                && deleted_selection(w).cursor == 0
        }),
{
    let count = v.text.len() as u32;
    assert(v.text.subrange(0, v.text.len() as int) =~= v.text);
    assert(v.text.subrange(0, 0) + v.text.subrange(count as int, v.text.len() as int) =~= Seq::<char>::empty());
}

proof fn lemma_skip_forward_bounds(t: Seq<char>, pos: int, n: int, alnum: bool)
    requires
        pos <= n,
    ensures
        pos <= skip_forward(t, pos, n, alnum) <= n,
    decreases n - pos,
{
    if pos < n && char_is_alphanumeric(t[pos]) == alnum {
        lemma_skip_forward_bounds(t, pos + 1, n, alnum);
    }
}

proof fn lemma_skip_backward_bounds(t: Seq<char>, pos: int, alnum: bool)
    requires
        0 <= pos,
    ensures
        0 <= skip_backward(t, pos, alnum) <= pos,
    decreases pos,
{
    if pos > 0 && char_is_alphanumeric(t[pos - 1]) == alnum {
        lemma_skip_backward_bounds(t, pos - 1, alnum);
    }
}

/// Word-wise movement never goes the wrong way: the start of the word is at
/// or before the position, the end at or after it (and within the text).
pub proof fn law_word_bounds_around(t: Seq<char>, pos: u32)
    requires
        pos <= t.len(),
        t.len() <= u32::MAX,
    ensures
        word_start(t, pos) <= pos,
        pos <= word_end(t, pos) <= t.len(),
{
    lemma_skip_backward_bounds(t, pos as int, false);
    lemma_skip_backward_bounds(t, skip_backward(t, pos as int, false), true);
    let n = (t.len() as u32) as int;
    lemma_skip_forward_bounds(t, pos as int, n, true);
    lemma_skip_forward_bounds(t, skip_forward(t, pos as int, n, true), n, false);
}

/// The shown text has as many characters as the text; for a password they
/// are all `*`.
pub proof fn law_shown_text_masks(v: TextInputView)
    ensures
        shown_text(v).len() == v.text.len(),
        v.is_password ==> forall|i: int| 0 <= i < v.text.len() ==> #[trigger] shown_text(v)[i] == '*',
        !v.is_password ==> shown_text(v) == v.text,
{
}

} // verus!

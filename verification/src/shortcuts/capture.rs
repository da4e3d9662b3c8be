//! The decisions of the Set Shortcut dialog: which key presses it captures, what it shows as
//! detected, and what its answer is.

use vstd::prelude::*;

use super::{Chord, chord_text, normalized_key_name};
use crate::text::{trim_text, trimmed};

verus! {

/// Modal return code for the Clear button, telling the dialog's caller the user wants the
/// action unbound rather than cancelled. Well above `wxID_HIGHEST` (5999) so it cannot collide
/// with a stock wx id, and private to this dialog, so it cannot collide with an app's own.
pub const ID_CLEAR_SHORTCUT: i32 = 10099;

/// Key codes the capture field lets through rather than records: Tab and Escape keep the
/// dialog operable by keyboard, and the arrow keys (with their numpad twins) keep a screen
/// reader's own navigation working.
pub open spec fn reserved_key(code: i32) -> bool {
    code == 9 || code == 27 || code == 314 || code == 315 || code == 316 || code == 317
        || code == 378 || code == 380 || code == 382 || code == 383
}

/// Whether the capture field lets `code` through rather than recording it.
pub fn is_reserved_key(code: i32) -> (reserved: bool)
    ensures
        reserved == reserved_key(code),
{
    let reserved_keys: [i32; 10] = [9, 27, 314, 315, 316, 317, 378, 380, 382, 383];
    let mut i: usize = 0;
    while i < 10
        invariant
            i <= 10,
            reserved_keys@ == seq![9i32, 27, 314, 315, 316, 317, 378, 380, 382, 383],
            forall|j: int| 0 <= j < i ==> reserved_keys@[j] != code,
        decreases 10 - i,
    {
        if reserved_keys[i] == code {
            return true;
        }
        i = i + 1;
    }
    assert(!reserved_key(code)) by {
        assert(forall|j: int| 0 <= j < 10 ==> reserved_keys@[j] != code);
    }
    false
}

/// The name `key_chord::KeyChord::from_key_code` gives the key that wx reports as `code`, or
/// `None` for a key code with no name there, such as a bare modifier press.
pub uninterp spec fn key_code_name(code: i32) -> Option<Seq<char>>;

/// Calls `key_chord::KeyChord::from_key_code`, which builds a chord with the given modifiers,
/// neither `raw_ctrl` nor `win`, and a key name that depends on the key code alone, and builds
/// none when the code has no name. The contract names that key name.
#[verifier::external_body]
fn chord_from_key_code(code: i32, ctrl: bool, alt: bool, shift: bool) -> (chord: Option<Chord>)
    ensures
        chord is None <==> key_code_name(code) is None,
        chord matches Some(c) ==> {
            &&& c.ctrl == ctrl
            &&& !c.raw_ctrl
            &&& c.alt == alt
            &&& c.shift == shift
            &&& !c.win
            &&& key_code_name(code) == Some(c.key@)
        },
{
    match key_chord::KeyChord::from_key_code(code, ctrl, alt, shift) {
        Some(k) => Some(Chord { ctrl: k.ctrl, raw_ctrl: k.raw_ctrl, alt: k.alt, shift: k.shift, win: k.win, key: k.key }),
        None => None,
    }
}

/// What the capture field records for a key press: nothing for a reserved key or a key with
/// no name, else the chord of that key with the held modifiers.
pub fn capture_key(code: i32, ctrl: bool, alt: bool, shift: bool) -> (chord: Option<Chord>)
    ensures
        reserved_key(code) ==> chord is None,
        !reserved_key(code) && key_code_name(code) is None ==> chord is None,
        !reserved_key(code) ==> (key_code_name(code) matches Some(name) ==> (chord matches Some(c) && {
            &&& c.ctrl == ctrl
            &&& !c.raw_ctrl
            &&& c.alt == alt
            &&& c.shift == shift
            &&& !c.win
            &&& c.key@ == name
        })),
{
    if is_reserved_key(code) {
        None
    } else {
        chord_from_key_code(code, ctrl, alt, shift)
    }
}

/// The chord shown as detected so far: none while the key field is blank, else the chord of
/// the trimmed key with the ticked modifiers, in its `"Ctrl+Shift+O"` form.
pub fn detected_shortcut(ctrl: bool, alt: bool, shift: bool, key_text: &str) -> (shown: Option<String>)
    ensures
        trimmed(key_text@).len() == 0 ==> shown is None,
        trimmed(key_text@).len() > 0 ==> (shown matches Some(s)
            && s@ == chord_text(false, ctrl, alt, shift, false, normalized_key_name(trimmed(key_text@)))),
{
    let key = trim_text(key_text);
    if key.is_empty() {
        None
    } else {
        let chord = Chord::new(ctrl, alt, shift, key);
        Some(chord.to_shortcut_string())
    }
}

/// The binding the Set Shortcut dialog hands back, from how the dialog was closed and what it
/// held then.
///
/// `None` means the user cancelled and nothing should change, `Some(None)` that they cleared
/// the binding on purpose (with the Clear button, or by confirming a blank key field), and
/// `Some(Some(chord))` is a new binding: the trimmed key with the ticked modifiers, on the
/// physical Control key when Ctrl is ticked and the chord arrived as a raw-Control one.
///
/// `ok_id` is the toolkit's id for the OK button.
pub fn captured_binding(
    modal_result: i32,
    ok_id: i32,
    key_text: &str,
    ctrl: bool,
    alt: bool,
    shift: bool,
    raw_ctrl: bool,
) -> (answer: Option<Option<Chord>>)
    ensures
        modal_result == ID_CLEAR_SHORTCUT ==> answer == Some(None::<Chord>),
        modal_result != ID_CLEAR_SHORTCUT && modal_result != ok_id ==> answer is None,
        modal_result != ID_CLEAR_SHORTCUT && modal_result == ok_id ==> {
            if trimmed(key_text@).len() == 0 {
                answer == Some(None::<Chord>)
            } else {
                (answer matches Some(Some(c)) && {
                    &&& c.ctrl == (ctrl && !raw_ctrl)
                    &&& c.raw_ctrl == (ctrl && raw_ctrl)
                    &&& c.alt == alt
                    &&& c.shift == shift
                    &&& !c.win
                    &&& c.key@ == normalized_key_name(trimmed(key_text@))
                })
            }
        },
{
    if modal_result == ID_CLEAR_SHORTCUT {
        return Some(None);
    }
    if modal_result != ok_id {
        return None;
    }
    let key = trim_text(key_text);
    if key.is_empty() {
        return Some(None);
    }
    let chord = if ctrl && raw_ctrl {
        Chord::new_raw_ctrl(true, alt, shift, key)
    } else {
        Chord::new(ctrl, alt, shift, key)
    };
    Some(Some(chord))
}

/// What happens in the Set Shortcut dialog that bears on its raw-Control flag.
#[derive(Debug, Clone, Copy, PartialEq, Eq, Structural)]
pub enum CaptureEvent {
    /// The key field recorded a key press.
    KeyCaptured,
    /// The user toggled the Ctrl checkbox.
    CtrlToggled,
    /// The user toggled the Alt or Shift checkbox.
    OtherModifierToggled,
}

/// The modifier checkboxes the dialog opens with for the chord it was given: one Ctrl box
/// stands for both Ctrl and physical Control. `None` when there is no chord to show.
pub fn modifiers_at_start(initial: &Option<Chord>) -> (ticked: Option<(bool, bool, bool)>)
    ensures
        initial is None ==> ticked is None,
        initial matches Some(c) ==> ticked == Some((c.ctrl || c.raw_ctrl, c.alt, c.shift)),
{
    match initial {
        Some(c) => Some((c.ctrl || c.raw_ctrl, c.alt, c.shift)),
        None => None,
    }
}

/// Whether the dialog starts out keeping the chord on the physical Control key: when the
/// chord it was given is a raw-Control one.
pub fn raw_ctrl_at_start(initial: &Option<Chord>) -> (raw_ctrl: bool)
    ensures
        raw_ctrl == (initial matches Some(c) && c.raw_ctrl),
{
    match initial {
        Some(c) => c.raw_ctrl,
        None => false,
    }
}

/// The raw-Control flag after `event`: a chord that arrived as raw Control keeps that until
/// the user touches the Ctrl box or captures a new key, at which point it becomes an ordinary
/// Ctrl chord like anything else they could have typed.
pub fn raw_ctrl_after(raw_ctrl: bool, event: CaptureEvent) -> (kept: bool)
    ensures
        kept == (raw_ctrl && event == CaptureEvent::OtherModifierToggled),
{
    match event {
        CaptureEvent::OtherModifierToggled => raw_ctrl,
        _ => false,
    }
}

/// The capture field lets through exactly Tab (9), Escape (27), the arrow keys (314 to 317) and
/// the wx key codes 378, 380, 382 and 383; every other key code is recorded whenever it has a
/// key name.
pub proof fn lemma_reserved_keys_are_exactly(code: i32)
    ensures
        reserved_key(code) <==> set![9i32, 27, 314, 315, 316, 317, 378, 380, 382, 383].contains(code),
        reserved_key(code) <==> (code == 9 || code == 27 || (314 <= code && code <= 317) || code == 378
            || code == 380 || code == 382 || code == 383),
{
}

} // verus!

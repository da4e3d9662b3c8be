//! The decisions behind the standard prompts: the padding they lay out with, the range a
//! number prompt accepts, and what a text prompt hands back.

use vstd::prelude::*;

use crate::text::{trim_text, trimmed};

verus! {

/// Default padding used between widgets and dialog edges, in device-independent pixels.
///
/// This is the value at 100% display scaling; scale it for the display before handing it to a
/// sizer.
pub const DIALOG_PADDING: i32 = 10;

/// The range a number prompt's spin control gets and the value it starts at: a `max` below
/// `min` is raised to `min`, and `initial` is clamped into the range.
pub fn spin_range(min: i32, max: i32, initial: i32) -> (range: (i32, i32, i32))
    ensures
        range.0 == min,
        range.1 == (if max >= min { max } else { min }),
        range.0 <= range.1,
        range.2 == (if initial < range.0 { range.0 } else if initial > range.1 { range.1 } else { initial }),
        range.0 <= range.2 <= range.1,
{
    let max = if max >= min { max } else { min };
    let initial = if initial < min {
        min
    } else if initial > max {
        max
    } else {
        initial
    };
    (min, max, initial)
}

/// What a single-line text prompt hands back, from how it was closed and what it held then:
/// nothing when it was not confirmed with `ok_id` or held only whitespace, else the entry
/// trimmed.
pub fn entered_text(modal_result: i32, ok_id: i32, value: &str) -> (entered: Option<String>)
    ensures
        modal_result != ok_id ==> entered is None,
        modal_result == ok_id && trimmed(value@).len() == 0 ==> entered is None,
        modal_result == ok_id && trimmed(value@).len() > 0 ==> (entered matches Some(s) && s@ == trimmed(value@)),
{
    if modal_result != ok_id {
        return None;
    }
    let text = trim_text(value);
    if text.is_empty() {
        None
    } else {
        Some(String::from_str(text))
    }
}

/// Whether a Yes/No confirmation was answered Yes: when it was closed with `yes_id`, the
/// toolkit's id for the Yes button. Escape and closing the dialog both mean No.
pub fn confirmed(modal_result: i32, yes_id: i32) -> (yes: bool)
    ensures
        yes == (modal_result == yes_id),
{
    modal_result == yes_id
}

/// What a number prompt hands back: the spin control's `value` when it was confirmed with
/// `ok_id`, nothing when it was cancelled.
pub fn entered_number(modal_result: i32, ok_id: i32, value: i32) -> (entered: Option<i32>)
    ensures
        entered == (if modal_result == ok_id { Some(value) } else { None::<i32> }),
{
    if modal_result == ok_id {
        Some(value)
    } else {
        None
    }
}

} // verus!

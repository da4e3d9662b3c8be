//! Menu labels that carry a keyboard shortcut.

use vstd::prelude::*;

verus! {

/// The text wx shows for a menu item: the label, and, when there is a shortcut, a tab and the
/// shortcut after it.
pub open spec fn menu_label_text(base: Seq<char>, shortcut: Seq<char>) -> Seq<char> {
    if shortcut.len() == 0 {
        base
    } else {
        base + seq!['\t'] + shortcut
    }
}

/// Joins a menu item's text and its shortcut into the `"Open\tCtrl+O"` form wx wants, where the
/// tab is what makes wx right-align the shortcut in the menu.
///
/// An empty `shortcut` gives back a bare label, so an unbound action does not get a trailing tab
/// and a blank column.
pub fn menu_label(base: &str, shortcut: &str) -> (label: String)
    ensures
        label@ == menu_label_text(base@, shortcut@),
{
    let mut label = String::from_str(base);
    if shortcut.is_empty() {
        label
    } else {
        label.append("\t");
        label.append(shortcut);
        proof {
            reveal_strlit("\t");
        }
        label
    }
}

/// A label for an unbound action is the bare label; otherwise it is the label, one tab, and the
/// shortcut, so the label and the shortcut can be read back from either side of the tab.
pub proof fn lemma_menu_label_layout(base: Seq<char>, shortcut: Seq<char>)
    ensures
        shortcut.len() == 0 ==> menu_label_text(base, shortcut) == base,
        shortcut.len() > 0 ==> {
            &&& menu_label_text(base, shortcut).len() == base.len() + 1 + shortcut.len()
            &&& menu_label_text(base, shortcut).take(base.len() as int) == base
            &&& menu_label_text(base, shortcut)[base.len() as int] == '\t'
            &&& menu_label_text(base, shortcut).skip(base.len() + 1int) == shortcut
        },
{
    if shortcut.len() > 0 {
        let l = menu_label_text(base, shortcut);
        assert(l.take(base.len() as int) =~= base);
        assert(l.skip(base.len() + 1int) =~= shortcut);
    }
}

} // verus!

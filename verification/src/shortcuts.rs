//! Keymap logic behind the Customize Keyboard Shortcuts dialog: key chords, when two chords
//! collide, how far conflict detection looks, and the text of the shortcut list.

use vstd::prelude::*;
use vstd::std_specs::cmp::PartialEqSpec;

use crate::i18n::{catalog_text, localize};
use crate::text::{replace_first, replaced_first};

pub mod capture;

verus! {

/// How a keymap's tabs relate to each other, which is what decides whether two bindings in
/// different tabs can collide.
#[derive(Debug, Clone, Copy, PartialEq, Eq, Structural)]
pub enum TabKind {
    /// The tabs are views onto one keymap, so a chord has to be unique across all of them.
    /// Tabs that group actions by category work this way.
    SharedKeymap,
    /// Each tab is a keymap of its own, so a chord only has to be unique within its tab, and
    /// the same key can mean different things in different tabs. Tabs that are input modes
    /// work this way.
    SeparateKeymaps,
}

/// A modifier combination plus one key: the fields of a `key_chord::KeyChord`.
///
/// `ctrl` is the command modifier (Cmd on macOS, Ctrl elsewhere) and `raw_ctrl` the physical
/// Control key; `win` is the Windows logo key.
#[derive(Debug, Clone)]
pub struct Chord {
    pub ctrl: bool,
    pub raw_ctrl: bool,
    pub alt: bool,
    pub shift: bool,
    pub win: bool,
    pub key: String,
}

/// Whether two chords fire on the same keystroke. A `ctrl` and a `raw_ctrl` chord on the same
/// key count as the same keystroke, since they are one key everywhere but macOS.
pub open spec fn chords_conflict(a: Chord, b: Chord) -> bool {
    &&& (a.ctrl || a.raw_ctrl) == (b.ctrl || b.raw_ctrl)
    &&& a.alt == b.alt
    &&& a.shift == b.shift
    &&& a.win == b.win
    &&& a.key@ == b.key@
}

/// The `"Ctrl+Shift+O"` form of a chord with these fields: each held modifier in the order
/// RawCtrl, Ctrl, Alt, Shift, Win, each followed by `+`, then the key.
pub open spec fn chord_text(raw_ctrl: bool, ctrl: bool, alt: bool, shift: bool, win: bool, key: Seq<char>) -> Seq<char> {
    (if raw_ctrl { "RawCtrl+"@ } else { Seq::empty() })
    + (if ctrl { "Ctrl+"@ } else { Seq::empty() })
    + (if alt { "Alt+"@ } else { Seq::empty() })
    + (if shift { "Shift+"@ } else { Seq::empty() })
    + (if win { "Win+"@ } else { Seq::empty() })
    + key
}

/// The `"Ctrl+Shift+O"` form of a chord.
pub open spec fn shortcut_text(c: Chord) -> Seq<char> {
    chord_text(c.raw_ctrl, c.ctrl, c.alt, c.shift, c.win, c.key@)
}

/// What `key_chord::KeyChord::normalize_key_name` gives for a key name: its canonical spelling,
/// so `"esc"`, `"Escape"` and `"ESC"` all come out the same.
pub uninterp spec fn normalized_key_name(key: Seq<char>) -> Seq<char>;

/// Calls `key_chord::KeyChord::normalize_key_name`, whose result depends on the key name alone.
/// The contract names that result and says nothing of its characters.
#[verifier::external_body]
fn normalize_key_name(key: &str) -> (name: String)
    ensures
        name@ == normalized_key_name(key@),
{
    key_chord::KeyChord::normalize_key_name(key)
}

/// Calls `key_chord::KeyChord::to_shortcut_string` on the chord with these fields, which joins
/// the held modifiers (RawCtrl, Ctrl, Alt, Shift, Win, in that order) and the key with `+`.
#[verifier::external_body]
fn shortcut_string_of(chord: &Chord) -> (text: String)
    ensures
        text@ == shortcut_text(*chord),
{
    key_chord::KeyChord {
        ctrl: chord.ctrl,
        raw_ctrl: chord.raw_ctrl,
        alt: chord.alt,
        shift: chord.shift,
        win: chord.win,
        key: chord.key.clone(),
    }.to_shortcut_string()
}

impl Chord {
    /// A chord on the command modifier: Cmd on macOS, Ctrl elsewhere. The key name is
    /// normalized to its canonical spelling.
    pub fn new(ctrl: bool, alt: bool, shift: bool, key: &str) -> (chord: Chord)
        ensures
            chord.ctrl == ctrl,
            !chord.raw_ctrl,
            chord.alt == alt,
            chord.shift == shift,
            !chord.win,
            chord.key@ == normalized_key_name(key@),
    {
        Chord { ctrl, raw_ctrl: false, alt, shift, win: false, key: normalize_key_name(key) }
    }

    /// A chord on the physical Control key, which stays Control on macOS rather than becoming
    /// Cmd. The key name is normalized to its canonical spelling.
    pub fn new_raw_ctrl(raw_ctrl: bool, alt: bool, shift: bool, key: &str) -> (chord: Chord)
        ensures
            !chord.ctrl,
            chord.raw_ctrl == raw_ctrl,
            chord.alt == alt,
            chord.shift == shift,
            !chord.win,
            chord.key@ == normalized_key_name(key@),
    {
        Chord { ctrl: false, raw_ctrl, alt, shift, win: false, key: normalize_key_name(key) }
    }

    /// Whether two chords fire on the same keystroke, and so cannot both be bound.
    pub fn conflicts_with(&self, other: &Chord) -> (conflict: bool)
        ensures
            conflict == chords_conflict(*self, *other),
    {
        (self.ctrl || self.raw_ctrl) == (other.ctrl || other.raw_ctrl) && self.alt == other.alt
            && self.shift == other.shift && self.win == other.win && self.key == other.key
    }

    /// The `"Ctrl+Shift+O"` form, which is both what the user reads and what a config file
    /// stores.
    pub fn to_shortcut_string(&self) -> (text: String)
        ensures
            text@ == shortcut_text(*self),
    {
        shortcut_string_of(self)
    }
}

/// Conflict is a property of the keystroke: every chord conflicts with itself, and the
/// relation is symmetric.
pub proof fn lemma_conflict_is_reflexive_and_symmetric(a: Chord, b: Chord)
    ensures
        chords_conflict(a, a),
        chords_conflict(a, b) == chords_conflict(b, a),
{
}


/// One row of a keymap tab: an action and the chord bound to it, if any.
#[derive(Debug)]
pub struct Binding<A> {
    pub action: A,
    pub chord: Option<Chord>,
}

/// Whether conflict detection for an edit in tab `tab` looks at tab `candidate`: every tab
/// when they share one keymap, only `tab` itself when each tab is its own.
pub open spec fn searches_tab(kind: TabKind, tab: int, candidate: int) -> bool {
    kind == TabKind::SharedKeymap || candidate == tab
}

/// Whether `binding` stands in the way of binding `target_action` to `target_chord`: it is
/// another action, and its chord fires on the same keystroke.
pub open spec fn blocks<A: PartialEq>(binding: Binding<A>, target_action: A, target_chord: Chord) -> bool {
    &&& !binding.action.eq_spec(&target_action)
    &&& binding.chord matches Some(c)
    &&& chords_conflict(c, target_chord)
}

/// Whether the binding at row `i` of tab `t` is one that conflict detection looks at and that
/// blocks the new chord.
pub open spec fn blocks_at<A: PartialEq>(
    keymap: Seq<Vec<Binding<A>>>,
    kind: TabKind,
    tab: int,
    target_action: A,
    target_chord: Chord,
    t: int,
    i: int,
) -> bool {
    &&& 0 <= t < keymap.len()
    &&& searches_tab(kind, tab, t)
    &&& 0 <= i < keymap[t]@.len()
    &&& blocks(keymap[t]@[i], target_action, target_chord)
}

/// Whether the binding at row `i` of tab `t` is the first blocking one, tab by tab and row by
/// row.
pub open spec fn first_block_at<A: PartialEq>(
    keymap: Seq<Vec<Binding<A>>>,
    kind: TabKind,
    tab: int,
    target_action: A,
    target_chord: Chord,
    t: int,
    i: int,
) -> bool {
    &&& blocks_at(keymap, kind, tab, target_action, target_chord, t, i)
    &&& forall|t2: int, i2: int| (t2 < t || (t2 == t && i2 < i)) ==>
        !blocks_at(keymap, kind, tab, target_action, target_chord, t2, i2)
}

/// The action already holding `target_chord`, if any, and the tab it lives in: the first
/// blocking binding, tab by tab and row by row, among the tabs that conflict detection looks
/// at for an edit in `tab`.
///
/// How far this looks depends on `kind`: across every tab when they share one keymap, and
/// only within `tab` when each tab is its own.
pub fn find_conflict<A: Copy + PartialEq>(
    kind: TabKind,
    keymap: &Vec<Vec<Binding<A>>>,
    tab: usize,
    target_action: A,
    target_chord: &Chord,
) -> (found: Option<(usize, A)>)
    requires
        A::obeys_eq_spec(),
    ensures
        found is None ==> forall|t: int, i: int|
            !blocks_at(keymap@, kind, tab as int, target_action, *target_chord, t, i),
        found matches Some((t, a)) ==> exists|i: int|
            #[trigger] first_block_at(keymap@, kind, tab as int, target_action, *target_chord, t as int, i)
                && keymap@[t as int]@[i].action == a,
        kind == TabKind::SeparateKeymaps ==> (found matches Some((t, _)) ==> t == tab),
        found matches Some((_, a)) ==> !a.eq_spec(&target_action),
{
    let n = keymap.len();
    let (start, end) = match kind {
        TabKind::SharedKeymap => (0, n),
        TabKind::SeparateKeymaps => if tab < n { (tab, tab + 1) } else { (n, n) },
    };
    let mut t: usize = start;
    while t < end
        invariant
            n == keymap.len(),
            start <= t <= end <= n,
            forall|c: int| 0 <= c < n ==> (searches_tab(kind, tab as int, c) <==> start <= c < end),
            A::obeys_eq_spec(),
            forall|t2: int, i2: int| t2 < t ==>
                !blocks_at(keymap@, kind, tab as int, target_action, *target_chord, t2, i2),
        decreases end - t,
    {
        let row = &keymap[t];
        let mut i: usize = 0;
        while i < row.len()
            invariant
                n == keymap.len(),
                start <= t < end <= n,
                row == keymap@[t as int],
                i <= row.len(),
                forall|c: int| 0 <= c < n ==> (searches_tab(kind, tab as int, c) <==> start <= c < end),
                A::obeys_eq_spec(),
                forall|t2: int, i2: int| (t2 < t || (t2 == t && i2 < i)) ==>
                    !blocks_at(keymap@, kind, tab as int, target_action, *target_chord, t2, i2),
            decreases row.len() - i,
        {
            let binding = &row[i];
            let action = binding.action;
            if !(action == target_action) {
                match &binding.chord {
                    Some(c) => {
                        if c.conflicts_with(target_chord) {
                            assert(first_block_at(keymap@, kind, tab as int, target_action, *target_chord, t as int, i as int));
                            let found = Some((t, action));
                            assert(found matches Some((t3, a)) ==> exists|i3: int|
                                #[trigger] first_block_at(keymap@, kind, tab as int, target_action, *target_chord, t3 as int, i3)
                                    && keymap@[t3 as int]@[i3].action == a);
                            return found;
                        }
                    },
                    None => {},
                }
            }
            i = i + 1;
        }
        t = t + 1;
    }
    None
}

/// A row of the shortcut list: the action's name, `": "`, and what it is bound to.
pub open spec fn list_item_text(action_name: Seq<char>, binding_text: Seq<char>) -> Seq<char> {
    action_name + ": "@ + binding_text
}

/// The text of the shortcut list's row for an action: its name and its chord in the
/// `"Ctrl+Shift+O"` form, or, for an unbound action, the localized word "None" in place of a
/// chord.
pub fn format_list_item(action_name: &str, chord: &Option<Chord>) -> (text: String)
    ensures
        chord matches Some(c) ==> text@ == list_item_text(action_name@, shortcut_text(*c)),
        chord is None ==> exists|none_text: Seq<char>|
            text@ == #[trigger] list_item_text(action_name@, none_text) && none_text.len() > 0
                && catalog_text("None"@, none_text),
{
    let binding_text = match chord {
        Some(c) => c.to_shortcut_string(),
        None => {
            proof {
                reveal_strlit("None");
            }
            localize("None")
        },
    };
    let mut text = String::from_str(action_name);
    text.append(": ");
    text.append(binding_text.as_str());
    assert(text@ == list_item_text(action_name@, binding_text@));
    text
}

/// The placeholder that message templates carry for each value filled into them.
pub open spec fn message_placeholder() -> Seq<char> {
    seq!['{', '}']
}

/// A message template with its first three placeholders filled in turn with `first`,
/// `second` and `third`.
pub open spec fn filled_three(template: Seq<char>, first: Seq<char>, second: Seq<char>, third: Seq<char>) -> Seq<char> {
    replaced_first(
        replaced_first(replaced_first(template, message_placeholder(), first), message_placeholder(), second),
        message_placeholder(),
        third,
    )
}

/// The question asked when `chord` is already bound to `holder_name` and the user is binding
/// it to `action_name`, from its (localized) template: the template's first three `{}` filled
/// by the chord, the holder and the action, in that order.
pub fn fill_conflict_question(template: &str, chord: &Chord, holder_name: &str, action_name: &str) -> (text: String)
    ensures
        text@ == filled_three(template@, shortcut_text(*chord), holder_name@, action_name@),
{
    let chord_text = chord.to_shortcut_string();
    let first = replace_first(template, "{}", chord_text.as_str());
    let second = replace_first(first.as_str(), "{}", holder_name);
    let text = replace_first(second.as_str(), "{}", action_name);
    proof {
        reveal_strlit("{}");
        assert("{}"@ == message_placeholder());
    }
    text
}

/// The message asked of the catalog for the reassign question.
pub open spec fn conflict_question_message() -> Seq<char> {
    "'{}' is already assigned to '{}'. Reassign it to '{}'?"@
}

/// The question asked when `chord` is already bound to `holder_name` and the user is binding
/// it to `action_name`: the localized "'{}' is already assigned to '{}'. Reassign it to '{}'?"
/// filled by [`fill_conflict_question`].
pub fn conflict_question(chord: &Chord, holder_name: &str, action_name: &str) -> (text: String)
    ensures
        exists|template: Seq<char>|
            text@ == #[trigger] filled_three(template, shortcut_text(*chord), holder_name@, action_name@)
                && template.len() > 0
                && catalog_text(conflict_question_message(), template),
{
    proof {
        reveal_strlit("'{}' is already assigned to '{}'. Reassign it to '{}'?");
    }
    let template = localize("'{}' is already assigned to '{}'. Reassign it to '{}'?");
    let text = fill_conflict_question(template.as_str(), chord, holder_name, action_name);
    assert(text@ == filled_three(template@, shortcut_text(*chord), holder_name@, action_name@));
    text
}

/// One change to a keymap: bind `action` in `tab` to `chord`, or unbind it when `chord` is
/// `None`.
#[derive(Debug)]
pub struct ChordEdit<A> {
    pub tab: usize,
    pub action: A,
    pub chord: Option<Chord>,
}

/// What the Set Shortcut dialog's answer does to the keymap, in order.
///
/// `answer` is the dialog's answer for `action` in `tab` (see
/// [`capture::captured_binding`]): a cancel changes nothing and a clear unbinds the action. A
/// new chord is bound directly when `conflict` (the binding already holding it, found by
/// [`find_conflict`]) is `None`; otherwise the holder is unbound and then the chord bound when
/// the user agreed to `reassign`, and nothing changes when they did not.
pub fn set_shortcut_edits<A: Copy>(
    tab: usize,
    action: A,
    answer: Option<Option<Chord>>,
    conflict: Option<(usize, A)>,
    reassign: bool,
) -> (edits: Vec<ChordEdit<A>>)
    ensures
        answer is None ==> edits@.len() == 0,
        answer == Some(None::<Chord>) ==> edits@ == seq![(ChordEdit { tab, action, chord: None })],
        answer matches Some(Some(c)) ==> (conflict is None ==> edits@ == seq![(ChordEdit { tab, action, chord: Some(c) })]),
        answer matches Some(Some(c)) ==> (conflict matches Some((other_tab, other_action)) ==> {
            &&& reassign ==> edits@ == seq![
                (ChordEdit { tab: other_tab, action: other_action, chord: None }),
                (ChordEdit { tab, action, chord: Some(c) }),
            ]
            &&& !reassign ==> edits@.len() == 0
        }),
{
    let mut edits: Vec<ChordEdit<A>> = Vec::new();
    match answer {
        None => {},
        Some(None) => {
            edits.push(ChordEdit { tab, action, chord: None });
        },
        Some(Some(c)) => {
            match conflict {
                None => {
                    edits.push(ChordEdit { tab, action, chord: Some(c) });
                },
                Some((other_tab, other_action)) => {
                    if reassign {
                        edits.push(ChordEdit { tab: other_tab, action: other_action, chord: None });
                        edits.push(ChordEdit { tab, action, chord: Some(c) });
                    }
                },
            }
        },
    }
    edits
}

/// Whether the user has to be asked before the answer is applied: when it is a new chord that
/// another binding already holds.
pub fn asks_to_reassign<A>(answer: &Option<Option<Chord>>, conflict: &Option<(usize, A)>) -> (ask: bool)
    ensures
        ask == ((answer matches Some(Some(_))) && conflict is Some),
{
    match (answer, conflict) {
        (Some(Some(_)), Some(_)) => true,
        _ => false,
    }
}

/// Whether Reset All in a tab resets the whole keymap (and so asks about all shortcuts) rather
/// than only that tab's: it does when the tabs share one keymap.
pub fn reset_all_asks_whole_keymap(kind: TabKind) -> (whole: bool)
    ensures
        whole == (kind == TabKind::SharedKeymap),
{
    match kind {
        TabKind::SharedKeymap => true,
        TabKind::SeparateKeymaps => false,
    }
}

/// How far conflict detection looks is decided by the tab kind alone. With separate keymaps,
/// what other tabs hold never matters: two keymaps that agree on the edited tab block the same
/// rows. With a shared keymap, which tab is being edited never matters.
pub proof fn lemma_search_scope<A: PartialEq>(
    keymap: Seq<Vec<Binding<A>>>,
    other: Seq<Vec<Binding<A>>>,
    tab: int,
    other_tab: int,
    target_action: A,
    target_chord: Chord,
    t: int,
    i: int,
)
    requires
        0 <= tab < keymap.len(),
        0 <= tab < other.len(),
        keymap[tab]@ == other[tab]@,
    ensures
        blocks_at(keymap, TabKind::SeparateKeymaps, tab, target_action, target_chord, t, i)
            == blocks_at(other, TabKind::SeparateKeymaps, tab, target_action, target_chord, t, i),
        blocks_at(keymap, TabKind::SeparateKeymaps, tab, target_action, target_chord, t, i) ==> t == tab,
        blocks_at(keymap, TabKind::SharedKeymap, tab, target_action, target_chord, t, i)
            == blocks_at(keymap, TabKind::SharedKeymap, other_tab, target_action, target_chord, t, i),
{
}

/// Two chords fire on the same keystroke exactly when they agree on every part of it: Alt,
/// Shift, Win and the key, and on whether some Control key (Ctrl or the physical Control) is
/// held. So chords that differ in any modifier or in the key never conflict, and Ctrl and raw
/// Control on the same key do.
pub proof fn lemma_conflict_is_same_keystroke(a: Chord, b: Chord)
    ensures
        a.alt != b.alt ==> !chords_conflict(a, b),
        a.shift != b.shift ==> !chords_conflict(a, b),
        a.win != b.win ==> !chords_conflict(a, b),
        a.key@ != b.key@ ==> !chords_conflict(a, b),
        (a.ctrl || a.raw_ctrl) != (b.ctrl || b.raw_ctrl) ==> !chords_conflict(a, b),
        ((a.ctrl || a.raw_ctrl) == (b.ctrl || b.raw_ctrl) && a.alt == b.alt && a.shift == b.shift
            && a.win == b.win && a.key@ == b.key@) ==> chords_conflict(a, b),
{
}

/// With a shared keymap every tab is searched, whichever tab is being edited: a binding blocks
/// exactly when it is in some tab of the keymap and blocks the chord. With separate keymaps
/// only the edited tab is searched.
pub proof fn lemma_conflict_search_covers<A: PartialEq>(
    keymap: Seq<Vec<Binding<A>>>,
    tab: int,
    target_action: A,
    target_chord: Chord,
    t: int,
    i: int,
)
    ensures
        forall|c: int| searches_tab(TabKind::SharedKeymap, tab, c),
        forall|c: int| searches_tab(TabKind::SeparateKeymaps, tab, c) <==> c == tab,
        blocks_at(keymap, TabKind::SharedKeymap, tab, target_action, target_chord, t, i) <==> {
            &&& 0 <= t < keymap.len()
            &&& 0 <= i < keymap[t]@.len()
            &&& blocks(keymap[t]@[i], target_action, target_chord)
        },
        blocks_at(keymap, TabKind::SeparateKeymaps, tab, target_action, target_chord, t, i) <==> {
            &&& t == tab
            &&& 0 <= t < keymap.len()
            &&& 0 <= i < keymap[t]@.len()
            &&& blocks(keymap[t]@[i], target_action, target_chord)
        },
{
}

} // verus!

//! The keyboard-shortcut state machine.
//!
//! The application watches key presses to start a screen grab with a
//! user-chosen key combination, to record a new favourite combination,
//! and to close the grab window with the escape key.  The decisions live
//! here, on plain key codes; performing the resulting action (hiding or
//! closing windows, starting the capture) is the caller's business.

use vstd::prelude::*;

verus! {

/// Key code for the left control key.
pub const KEY_CODE_CONTROL_LEFT: u32 = 17;

/// Key code for the escape key.
pub const KEY_CODE_ESCAPE: u32 = 27;

/// Key code for the letter C key.
pub const KEY_CODE_KEY_C: u32 = 67;

/// Where the shortcut watcher stands.
#[derive(Clone, Copy, Debug, PartialEq, Eq, Structural)]
pub enum StateShortcutKeys {
    StartScreenGrabber,
    NotBusy,
    SetFavoriteShortcut,
    ShortcutNotAvailable,
}

/// What the caller must do after a key-up has been handled.
#[derive(Clone, Copy, Debug, PartialEq, Eq, Structural)]
pub enum KeyAction {
    /// Nothing to perform.
    Idle,
    /// Close the window the key was seen in; show the main window again
    /// when one is known.
    CloseGrabber { show_main: bool },
    /// Start the screen grabber.
    StartGrabber,
}

/// A strictly increasing sequence of key codes.
pub open spec fn strictly_increasing(s: Seq<u32>) -> bool {
    forall|i: int, j: int| 0 <= i < j < s.len() ==> s[i] < s[j]
}

/// A set of key codes, kept as a strictly increasing vector so that two
/// equal combinations are equal vectors.
#[derive(Clone, Debug)]
pub struct KeySet {
    pub codes: Vec<u32>,
}

impl KeySet {
    /// Strictly increasing: sorted with no duplicates.
    pub open spec fn wf(self) -> bool {
        strictly_increasing(self.codes@)
    }

    pub open spec fn spec_contains(self, c: u32) -> bool {
        self.codes@.contains(c)
    }

    /// The empty combination.
    pub fn new() -> (r: KeySet)
        ensures
            r.wf(),
            r.codes@.len() == 0,
    {
        KeySet { codes: Vec::new() }
    }

    pub fn len(&self) -> (r: usize)
        ensures
            r == self.codes@.len(),
    {
        self.codes.len()
    }

    /// Empties the combination.
    pub fn clear(&mut self)
        ensures
            final(self).wf(),
            final(self).codes@.len() == 0,
    {
        self.codes = Vec::new();
    }

    /// Adds a key code, keeping the vector strictly increasing; adding a
    /// code already present changes nothing.
    pub fn insert(&mut self, c: u32)
        requires
            old(self).wf(),
        ensures
            final(self).wf(),
            forall|k: u32|
                final(self).spec_contains(k) <==> (old(self).spec_contains(k) || k == c),
    {
        let n: usize = self.codes.len();
        let mut i: usize = 0;
        while i < n && self.codes[i] < c
            invariant
                self.wf(),
                n == self.codes@.len(),
                0 <= i <= n,
                forall|j: int| 0 <= j < i ==> self.codes@[j] < c,
            decreases n - i,
        {
            i = i + 1;
        }
        if i < n && self.codes[i] == c {
            proof {
                assert(old(self).spec_contains(c));
            }
            return ;
        }
        self.codes.insert(i, c);
        proof {
            assert forall|k: u32|
                final(self).spec_contains(k) <==> (old(self).spec_contains(k) || k == c) by {
                if final(self).spec_contains(k) {
                    let idx = choose|idx: int|
                        0 <= idx < final(self).codes@.len() && final(self).codes@[idx] == k;
                    if idx < i {
                        assert(old(self).codes@[idx] == k);
                    } else if idx > i {
                        assert(old(self).codes@[idx - 1] == k);
                    }
                }
                if old(self).spec_contains(k) {
                    let idx = choose|idx: int|
                        0 <= idx < old(self).codes@.len() && old(self).codes@[idx] == k;
                    if idx < i {
                        assert(final(self).codes@[idx] == k);
                    } else {
                        assert(final(self).codes@[idx + 1] == k);
                    }
                }
                if k == c {
                    assert(final(self).codes@[i as int] == c);
                }
            }
        }
    }

    /// Two combinations are the same exactly when their vectors agree.
    pub fn same_combo(&self, other: &KeySet) -> (r: bool)
        ensures
            r == (self.codes@ == other.codes@),
    {
        let n: usize = self.codes.len();
        if n != other.codes.len() {
            return false;
        }
        let mut i: usize = 0;
        while i < n
            invariant
                n == self.codes@.len(),
                n == other.codes@.len(),
                0 <= i <= n,
                forall|j: int| 0 <= j < i ==> self.codes@[j] == other.codes@[j],
            decreases n - i,
        {
            if self.codes[i] != other.codes[i] {
                return false;
            }
            i = i + 1;
        }
        proof {
            assert(self.codes@ =~= other.codes@);
        }
        true
    }

    /// Law: well-formed key sets are canonical.  Two sets holding exactly
    /// the same keys are the same vector, however the keys were added, so
    /// [`KeySet::same_combo`] decides whether two combinations hold the
    /// same keys.
    pub proof fn lemma_same_keys_same_combo(a: KeySet, b: KeySet)
        requires
            a.wf(),
            b.wf(),
            forall|k: u32| a.spec_contains(k) <==> b.spec_contains(k),
        ensures
            a.codes@ == b.codes@,
    {
        assert forall|k: u32| a.codes@.contains(k) <==> b.codes@.contains(k) by {
            assert(a.spec_contains(k) <==> b.spec_contains(k));
        }
        lemma_sorted_unique_canonical(a.codes@, b.codes@);
    }
}

/// Strictly increasing sequences are canonical: two of them holding the
/// same elements are the same sequence.
proof fn lemma_sorted_unique_canonical(s1: Seq<u32>, s2: Seq<u32>)
    requires
        strictly_increasing(s1),
        strictly_increasing(s2),
        forall|k: u32| s1.contains(k) <==> s2.contains(k),
    ensures
        s1 =~= s2,
    decreases s1.len(),
{
    if s1.len() == 0 {
        if s2.len() > 0 {
            assert(s2.contains(s2[0]));
            assert(s1.contains(s2[0]));
        }
    } else {
        assert(s1.contains(s1[0]));
        assert(s2.contains(s1[0]));
        assert(s2.len() > 0);
        assert(s2.contains(s2[0]));
        assert(s1.contains(s2[0]));
        let i = choose|i: int| 0 <= i < s1.len() && s1[i] == s2[0];
        let j = choose|j: int| 0 <= j < s2.len() && s2[j] == s1[0];
        assert(s1[0] <= s1[i]);
        assert(s2[0] <= s2[j]);
        assert(s1[0] == s2[0]);
        let t1 = s1.drop_first();
        let t2 = s2.drop_first();
        assert(strictly_increasing(t1)) by {
            assert forall|a: int, b: int| 0 <= a < b < t1.len() implies t1[a] < t1[b] by {
                assert(t1[a] == s1[a + 1] && t1[b] == s1[b + 1]);
            }
        }
        assert(strictly_increasing(t2)) by {
            assert forall|a: int, b: int| 0 <= a < b < t2.len() implies t2[a] < t2[b] by {
                assert(t2[a] == s2[a + 1] && t2[b] == s2[b + 1]);
            }
        }
        assert forall|k: u32| t1.contains(k) <==> t2.contains(k) by {
            lemma_tail_membership(s1, k);
            lemma_tail_membership(s2, k);
        }
        lemma_sorted_unique_canonical(t1, t2);
        assert forall|idx: int| 0 <= idx < s1.len() implies s1[idx] == s2[idx] by {
            if idx > 0 {
                assert(s1[idx] == t1[idx - 1] && s2[idx] == t2[idx - 1]);
            }
        }
    }
}

/// In a strictly increasing sequence, the tail holds exactly the elements
/// other than the head.
proof fn lemma_tail_membership(s: Seq<u32>, k: u32)
    requires
        strictly_increasing(s),
        s.len() > 0,
    ensures
        s.drop_first().contains(k) <==> (s.contains(k) && k != s[0]),
{
    let t = s.drop_first();
    if t.contains(k) {
        let i = choose|i: int| 0 <= i < t.len() && t[i] == k;
        assert(s[i + 1] == k);
        assert(s[0] < s[i + 1]);
    }
    if s.contains(k) && k != s[0] {
        let i = choose|i: int| 0 <= i < s.len() && s[i] == k;
        assert(i > 0);
        assert(t[i - 1] == k);
    }
}

/// The reserved combinations a favourite may not use: control-C is the
/// copy shortcut and escape closes the grab window.
pub open spec fn spec_reserved_combo(pressed: Seq<u32>) -> bool {
    pressed == seq![KEY_CODE_CONTROL_LEFT, KEY_CODE_KEY_C] || pressed == seq![KEY_CODE_ESCAPE]
}

/// The favourite combination, the keys currently held down, and where
/// the watcher stands.
#[derive(Clone, Debug)]
pub struct ShortcutKeys {
    pub favorite_hot_keys: KeySet,
    pub pressed_hot_keys: KeySet,
    pub state: StateShortcutKeys,
}

impl ShortcutKeys {
    pub open spec fn wf(self) -> bool {
        self.favorite_hot_keys.wf() && self.pressed_hot_keys.wf()
    }

    /// Starts watching with the given favourite combination.
    pub fn new(favorite: KeySet) -> (r: ShortcutKeys)
        requires
            favorite.wf(),
        ensures
            r.wf(),
            r.favorite_hot_keys == favorite,
            r.pressed_hot_keys.codes@.len() == 0,
            r.state == StateShortcutKeys::NotBusy,
    {
        ShortcutKeys {
            favorite_hot_keys: favorite,
            pressed_hot_keys: KeySet::new(),
            state: StateShortcutKeys::NotBusy,
        }
    }

    /// Two watchers agree on favourites, pressed keys and state.
    pub fn same(&self, other: &ShortcutKeys) -> (r: bool)
        ensures
            r == (self.favorite_hot_keys.codes@ == other.favorite_hot_keys.codes@
                && self.pressed_hot_keys.codes@ == other.pressed_hot_keys.codes@ && self.state
                == other.state),
    {
        self.favorite_hot_keys.same_combo(&other.favorite_hot_keys)
            && self.pressed_hot_keys.same_combo(&other.pressed_hot_keys) && self.state
            == other.state
    }

    /// Records a key going down.
    pub fn on_key_down(&mut self, code: u32)
        requires
            old(self).wf(),
        ensures
            final(self).wf(),
            forall|k: u32|
                final(self).pressed_hot_keys.spec_contains(k) <==> (old(self).pressed_hot_keys.spec_contains(k) || k == code),
            final(self).favorite_hot_keys == old(self).favorite_hot_keys,
            final(self).state == old(self).state,
    {
        self.pressed_hot_keys.insert(code);
    }

    /// Decides what a key-up means.  Recording a favourite takes the held
    /// combination unless it is reserved; escape closes the grab window;
    /// the favourite combination starts the grabber when the watcher is
    /// free.  The held keys are always released afterwards.
    pub fn on_key_up(&mut self, main_window_present: bool) -> (r: KeyAction)
        requires
            old(self).wf(),
        ensures
            final(self).wf(),
            final(self).pressed_hot_keys.codes@.len() == 0,
            old(self).state == StateShortcutKeys::SetFavoriteShortcut ==> {
                &&& r == KeyAction::Idle
                &&& if spec_reserved_combo(old(self).pressed_hot_keys.codes@) {
                    final(self).state == StateShortcutKeys::ShortcutNotAvailable && final(self).favorite_hot_keys == old(self).favorite_hot_keys
                } else {
                    final(self).state == StateShortcutKeys::NotBusy && final(self).favorite_hot_keys.codes@ == old(self).pressed_hot_keys.codes@
                }
            },
            old(self).state != StateShortcutKeys::SetFavoriteShortcut ==> final(self).favorite_hot_keys == old(self).favorite_hot_keys,
            old(self).state != StateShortcutKeys::SetFavoriteShortcut && old(self).pressed_hot_keys.codes@ == seq![KEY_CODE_ESCAPE] ==> {
                &&& r == (KeyAction::CloseGrabber { show_main: main_window_present })
                &&& final(self).state == if main_window_present {
                    StateShortcutKeys::NotBusy
                } else {
                    old(self).state
                }
            },
            old(self).state != StateShortcutKeys::SetFavoriteShortcut && old(self).pressed_hot_keys.codes@ != seq![KEY_CODE_ESCAPE] ==> {
                if old(self).pressed_hot_keys.codes@ == old(self).favorite_hot_keys.codes@ && (old(self).state == StateShortcutKeys::NotBusy || old(self).state
                    == StateShortcutKeys::ShortcutNotAvailable) {
                    r == KeyAction::StartGrabber && final(self).state
                        == StateShortcutKeys::StartScreenGrabber
                } else {
                    r == KeyAction::Idle && final(self).state == old(self).state
                }
            },
    {
        let mut escape_codes: Vec<u32> = Vec::new();
        escape_codes.push(KEY_CODE_ESCAPE);
        let escape_combo = KeySet { codes: escape_codes };
        let mut copy_codes: Vec<u32> = Vec::new();
        copy_codes.push(KEY_CODE_CONTROL_LEFT);
        copy_codes.push(KEY_CODE_KEY_C);
        let reserved_copy = KeySet { codes: copy_codes };
        proof {
            assert(escape_combo.codes@ =~= seq![KEY_CODE_ESCAPE]);
            assert(reserved_copy.codes@ =~= seq![KEY_CODE_CONTROL_LEFT, KEY_CODE_KEY_C]);
        }
        let action: KeyAction;
        if self.state == StateShortcutKeys::SetFavoriteShortcut {
            if self.pressed_hot_keys.same_combo(&reserved_copy) || self.pressed_hot_keys.same_combo(
                &escape_combo,
            ) {
                self.state = StateShortcutKeys::ShortcutNotAvailable;
            } else {
                self.favorite_hot_keys = KeySet { codes: take_codes(&mut self.pressed_hot_keys) };
                self.state = StateShortcutKeys::NotBusy;
            }
            action = KeyAction::Idle;
        } else if self.pressed_hot_keys.same_combo(&escape_combo) {
            if main_window_present {
                self.state = StateShortcutKeys::NotBusy;
            }
            action = KeyAction::CloseGrabber { show_main: main_window_present };
        } else if self.pressed_hot_keys.same_combo(&self.favorite_hot_keys) && (self.state
            == StateShortcutKeys::NotBusy || self.state == StateShortcutKeys::ShortcutNotAvailable) {
            self.state = StateShortcutKeys::StartScreenGrabber;
            action = KeyAction::StartGrabber;
        } else {
            action = KeyAction::Idle;
        }
        self.pressed_hot_keys.clear();
        action
    }
}

/// Moves the codes out of a key set, leaving it empty.
fn take_codes(set: &mut KeySet) -> (r: Vec<u32>)
    ensures
        r@ == old(set).codes@,
        final(set).codes@.len() == 0,
        final(set).wf(),
{
    let mut codes: Vec<u32> = Vec::new();
    core::mem::swap(&mut codes, &mut set.codes);
    codes
}

} // verus!

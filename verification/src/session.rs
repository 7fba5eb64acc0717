//! The selection loop as a state machine: keys move a bounded index,
//! Enter or the cancel combination resolve the session and restore the
//! terminal mode.

use vstd::prelude::*;

verus! {

/// The key events the loop reacts to.
#[derive(Clone, Copy, Debug, PartialEq, Eq, Structural)]
pub enum Key {
    Up,
    Down,
    Enter,
    Cancel,
    Other,
}

/// How far the index moves on one key, staying inside `[0, count - 1]`.
pub open spec fn next_index(index: int, count: int, key: Key) -> int {
    match key {
        Key::Up => if index > 0 { index - 1 } else { index },
        Key::Down => if index < count - 1 { index + 1 } else { index },
        _ => index,
    }
}

/// The index after a whole sequence of keys.
pub open spec fn run_index(index: int, count: int, keys: Seq<Key>) -> int
    decreases keys.len(),
{
    if keys.len() == 0 {
        index
    } else {
        run_index(next_index(index, count, keys[0]), count, keys.drop_first())
    }
}

/// The terminal mode the session toggles: raw input and the alternate
/// screen buffer.
#[derive(Clone, Copy, Debug, PartialEq, Eq, Structural)]
pub struct TermMode {
    pub raw: bool,
    pub alternate: bool,
}

impl TermMode {
    /// The user's normal terminal: raw mode off, primary screen active.
    pub open spec fn is_normal(self) -> bool {
        !self.raw && !self.alternate
    }
}

/// What one key did to the session.
#[derive(Clone, Copy, Debug, PartialEq, Eq, Structural)]
pub enum Outcome {
    /// The session goes on; `rerender` says whether the menu must be
    /// drawn again.
    Pending { rerender: bool },
    /// Enter resolved the session to the option at `index`.
    Selected { index: usize },
    /// The cancel combination resolved the session to nothing.
    Cancelled,
}

/// Whether a key ends the session.
pub open spec fn resolves(key: Key) -> bool {
    key is Enter || key is Cancel
}

/// The terminal mode after a key: a resolving key restores the normal
/// mode, every other key leaves the mode alone.
pub open spec fn next_mode(mode: TermMode, key: Key) -> TermMode {
    if resolves(key) {
        TermMode { raw: false, alternate: false }
    } else {
        mode
    }
}

/// Law: both exit paths, Enter and cancel, leave the terminal in its
/// normal mode.
pub proof fn lemma_mode_restored_on_exit(mode: TermMode, key: Key)
    requires
        resolves(key),
    ensures
        next_mode(mode, key).is_normal(),
{
}

/// The selection loop's state: a bounded index into the option list
/// and the modelled terminal mode.
pub struct Selector {
    pub index: usize,
    pub count: usize,
    pub mode: TermMode,
}

impl Selector {
    /// The state is sound: the index points at one of the options.
    pub open spec fn wf(self) -> bool {
        self.index < self.count
    }

    /// Starts a session on `count` options: the first is highlighted,
    /// raw mode and the alternate screen are on.
    pub fn new(count: usize) -> (r: Selector)
        requires
            count > 0,
        ensures
            r.wf(),
            r.index == 0,
            r.count == count,
            r.mode == (TermMode { raw: true, alternate: true }),
    {
        Selector { index: 0, count, mode: TermMode { raw: true, alternate: true } }
    }

    /// Feeds one key to the session.
    pub fn handle_key(&mut self, key: Key) -> (r: Outcome)
        requires
            old(self).wf(),
        ensures
            final(self).wf(),
            final(self).count == old(self).count,
            final(self).index == next_index(
                old(self).index as int,
                old(self).count as int,
                key,
            ),
            final(self).mode == next_mode(old(self).mode, key),
            key is Enter ==> r == (Outcome::Selected { index: old(self).index }),
            key is Cancel ==> r == Outcome::Cancelled,
            !resolves(key) ==> r == (Outcome::Pending {
                rerender: final(self).index != old(self).index,
            }),
    {
        match key {
            Key::Up => {
                if self.index > 0 {
                    self.index = self.index - 1;
                    Outcome::Pending { rerender: true }
                } else {
                    Outcome::Pending { rerender: false }
                }
            },
            Key::Down => {
                if self.index < self.count - 1 {
                    self.index = self.index + 1;
                    Outcome::Pending { rerender: true }
                } else {
                    Outcome::Pending { rerender: false }
                }
            },
            Key::Enter => {
                self.mode = TermMode { raw: false, alternate: false };
                Outcome::Selected { index: self.index }
            },
            Key::Cancel => {
                self.mode = TermMode { raw: false, alternate: false };
                Outcome::Cancelled
            },
            Key::Other => Outcome::Pending { rerender: false },
        }
    }
}

/// Law: however many keys arrive, the selection index never leaves
/// `[0, count - 1]`.
pub proof fn lemma_index_stays_in_bounds(index: int, count: int, keys: Seq<Key>)
    requires
        0 <= index < count,
    ensures
        0 <= run_index(index, count, keys) < count,
    decreases keys.len(),
{
    if keys.len() > 0 {
        lemma_index_stays_in_bounds(next_index(index, count, keys[0]), count, keys.drop_first());
    }
}

/// What a whole key sequence resolves to: `None` while nothing
/// resolved it, `Some(Some(i))` after Enter on index `i`,
/// `Some(None)` after a cancel.
pub open spec fn spec_resolve(index: int, count: int, keys: Seq<Key>) -> Option<Option<int>>
    decreases keys.len(),
{
    if keys.len() == 0 {
        None
    } else if keys[0] is Enter {
        Some(Some(index))
    } else if keys[0] is Cancel {
        Some(Option::<int>::None)
    } else {
        spec_resolve(next_index(index, count, keys[0]), count, keys.drop_first())
    }
}

/// Runs a fresh session over a key sequence and reports what it
/// resolved to, if anything.
pub fn resolve_keys(count: usize, keys: &Vec<Key>) -> (r: Option<Option<usize>>)
    requires
        count > 0,
    ensures
        ({
            let m = spec_resolve(0, count as int, keys@);
            match r {
                None => m is None,
                Some(None) => m == Some(Option::<int>::None),
                Some(Some(i)) => m == Some(Some(i as int)) && i < count,
            }
        }),
{
    let mut sel = Selector::new(count);
    let mut k: usize = 0;
    proof {
        assert(keys@.subrange(0, keys@.len() as int) =~= keys@);
    }
    while k < keys.len()
        invariant
            sel.wf(),
            sel.count == count,
            k <= keys@.len(),
            spec_resolve(0, count as int, keys@) == spec_resolve(
                sel.index as int,
                count as int,
                keys@.subrange(k as int, keys@.len() as int),
            ),
        decreases keys@.len() - k,
    {
        let key = keys[k];
        proof {
            let rest = keys@.subrange(k as int, keys@.len() as int);
            assert(rest[0] == keys@[k as int]);
            assert(rest.drop_first() =~= keys@.subrange(k as int + 1, keys@.len() as int));
        }
        match sel.handle_key(key) {
            Outcome::Selected { index } => {
                return Some(Some(index));
            },
            Outcome::Cancelled => {
                return Some(None);
            },
            Outcome::Pending { rerender: _ } => {},
        }
        k = k + 1;
    }
    proof {
        assert(keys@.subrange(keys@.len() as int, keys@.len() as int) =~= Seq::<Key>::empty());
    }
    None
}

} // verus!

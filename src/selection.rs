//! Which row of a list is selected, with a scroll position kept equal to it.
use vstd::prelude::*;

verus! {

/// The selection after moving one row down in a list of `len` rows,
/// wrapping from the last row to the first.
pub open spec fn next_selection(sel: Option<usize>, len: nat) -> Option<usize> {
    if len == 0 {
        sel
    } else {
        match sel {
            Some(i) => if i + 1 >= len {
                Some(0usize)
            } else {
                Some((i + 1) as usize)
            },
            None => Some(0usize),
        }
    }
}

/// The selection after moving one row up in a list of `len` rows,
/// wrapping from the first row to the last.
pub open spec fn prev_selection(sel: Option<usize>, len: nat) -> Option<usize> {
    if len == 0 {
        sel
    } else {
        match sel {
            Some(i) => if i == 0 {
                Some((len - 1) as usize)
            } else {
                Some((i - 1) as usize)
            },
            None => Some(0usize),
        }
    }
}

/// The selection after `n` moves down.
pub open spec fn advance_times(sel: Option<usize>, len: nat, n: nat) -> Option<usize>
    decreases n,
{
    if n == 0 {
        sel
    } else {
        advance_times(next_selection(sel, len), len, (n - 1) as nat)
    }
}

/// The selection that a list of `len` rows starts with: its first row, if any.
pub open spec fn initial_selection(len: nat) -> Option<usize> {
    if len == 0 {
        None
    } else {
        Some(0usize)
    }
}

/// The selection kept after the list is replaced by one of `len` rows:
/// a row index that no longer exists is dropped.
pub open spec fn kept_selection(sel: Option<usize>, len: nat) -> Option<usize> {
    match sel {
        Some(i) => if i < len {
            Some(i)
        } else {
            None
        },
        None => None,
    }
}

/// A selection that names a row of a list of `len` rows, or none.
pub open spec fn selection_in_range(sel: Option<usize>, len: nat) -> bool {
    match sel {
        Some(i) => i < len,
        None => true,
    }
}

/// The scroll position that goes with a selection.
pub open spec fn scroll_of(sel: Option<usize>) -> usize {
    match sel {
        Some(i) => i,
        None => 0,
    }
}

/// The selected row of a list view and the scroll position that follows it.
#[derive(Clone, Copy, Debug, PartialEq, Eq, Structural)]
pub struct Selection {
    pub selected: Option<usize>,
    pub scroll_position: usize,
}

impl Selection {
    /// A selection with the scroll position that goes with it.
    pub open spec fn of(sel: Option<usize>) -> Selection {
        Selection { selected: sel, scroll_position: scroll_of(sel) }
    }

    /// After one move down in a list of `len` rows.
    pub open spec fn advanced(self, len: nat) -> Selection {
        if len == 0 {
            self
        } else {
            Selection::of(next_selection(self.selected, len))
        }
    }

    /// After one move up in a list of `len` rows.
    pub open spec fn retreated(self, len: nat) -> Selection {
        if len == 0 {
            self
        } else {
            Selection::of(prev_selection(self.selected, len))
        }
    }

    /// Started over on a list of `len` rows.
    pub open spec fn started(len: nat) -> Selection {
        Selection::of(initial_selection(len))
    }

    /// Kept across a replacement of the list by one of `len` rows.
    pub open spec fn kept(self, len: nat) -> Selection {
        Selection::of(kept_selection(self.selected, len))
    }

    /// The scroll position follows the selection.
    pub open spec fn synced(&self) -> bool {
        self.scroll_position == scroll_of(self.selected)
    }

    /// No row selected, scrolled to the top.
    pub fn new() -> (r: Selection)
        ensures
            r.selected == None::<usize>,
            r.scroll_position == 0,
            r.synced(),
    {
        Selection { selected: None, scroll_position: 0 }
    }

    fn select(&mut self, sel: Option<usize>)
        ensures
            *final(self) == Selection::of(sel),
    {
        self.selected = sel;
        self.scroll_position = match sel {
            Some(i) => i,
            None => 0,
        };
    }

    /// Moves one row down in a list of `len` rows, wrapping to the first row;
    /// with no row selected the first row is selected. Nothing changes when
    /// the list is empty.
    pub fn advance(&mut self, len: usize)
        ensures
            *final(self) == old(self).advanced(len as nat),
            len == 0 ==> *final(self) == *old(self),
    {
        if len > 0 {
            let next = match self.selected {
                Some(i) => if i >= len - 1 {
                    0
                } else {
                    i + 1
                },
                None => 0,
            };
            self.select(Some(next));
        }
    }

    /// Moves one row up in a list of `len` rows, wrapping to the last row;
    /// with no row selected the first row is selected. Nothing changes when
    /// the list is empty.
    pub fn retreat(&mut self, len: usize)
        ensures
            *final(self) == old(self).retreated(len as nat),
            len == 0 ==> *final(self) == *old(self),
    {
        if len > 0 {
            let prev = match self.selected {
                Some(i) => if i == 0 {
                    len - 1
                } else {
                    i - 1
                },
                None => 0,
            };
            self.select(Some(prev));
        }
    }

    /// Starts over on a list of `len` rows: its first row is selected, if any.
    pub fn start(&mut self, len: usize)
        ensures
            *final(self) == Selection::started(len as nat),
    {
        if len > 0 {
            self.select(Some(0));
        } else {
            self.select(None);
        }
    }

    /// Keeps the selection after the list was replaced by one of `len` rows,
    /// unless the selected row no longer exists; then nothing is selected.
    pub fn reset(&mut self, len: usize)
        ensures
            *final(self) == old(self).kept(len as nat),
    {
        let kept = match self.selected {
            Some(i) => if i < len {
                Some(i)
            } else {
                None
            },
            None => None,
        };
        self.select(kept);
    }
}

/// Moving down then up, or up then down, comes back to the row one
/// started from.
pub proof fn lemma_retreat_inverts_advance(i: usize, len: nat)
    requires
        i < len,
        len <= usize::MAX,
    ensures
        prev_selection(next_selection(Some(i), len), len) == Some(i),
        next_selection(prev_selection(Some(i), len), len) == Some(i),
{
}

proof fn lemma_advance_times_split(sel: Option<usize>, len: nat, a: nat, b: nat)
    ensures
        advance_times(sel, len, a + b) == advance_times(advance_times(sel, len, a), len, b),
    decreases a,
{
    if a > 0 {
        lemma_advance_times_split(next_selection(sel, len), len, (a - 1) as nat, b);
        assert((a + b - 1) as nat == (a - 1) as nat + b);
    }
}

proof fn lemma_advance_from(i: usize, len: nat, n: nat)
    requires
        i + n < len,
        len <= usize::MAX,
    ensures
        advance_times(Some(i), len, n) == Some((i + n) as usize),
    decreases n,
{
    if n > 0 {
        assert(next_selection(Some(i), len) == Some((i + 1) as usize));
        lemma_advance_from((i + 1) as usize, len, (n - 1) as nat);
        assert((i + 1) as usize + (n - 1) as nat == i + n);
    }
}

/// In a list of `len` rows, moving down `len` times comes back to the row
/// one started from.
pub proof fn lemma_advance_cycle(i: usize, len: nat)
    requires
        i < len,
        len <= usize::MAX,
    ensures
        advance_times(Some(i), len, len) == Some(i),
{
    let to_last = (len - 1 - i) as nat;
    lemma_advance_times_split(Some(i), len, to_last, (i + 1) as nat);
    lemma_advance_from(i, len, to_last);
    let last = Some((len - 1) as usize);
    lemma_advance_times_split(last, len, 1, i as nat);
    assert(advance_times(last, len, 1) == Some(0usize)) by {
        assert(advance_times(Some(0usize), len, 0) == Some(0usize));
    }
    lemma_advance_from(0, len, i as nat);
    assert(to_last + (i + 1) as nat == len);
    assert(1 + i as nat == (i + 1) as nat);
}

} // verus!

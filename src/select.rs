//! Per-dimension multi-mark lists.
use std::collections::HashSet;
use vstd::prelude::*;
use vstd::std_specs::iter::IteratorSpec;

verus! {

broadcast use vstd::std_specs::hash::group_hash_axioms;

/// The sequence holds its values in strictly ascending order.
pub open spec fn strictly_ascending(s: Seq<usize>) -> bool {
    forall|i: int, j: int| 0 <= i < j < s.len() ==> s[i] < s[j]
}

/// The set of marked list positions.
#[derive(Debug)]
pub struct MultipleSelectionListState {
    marked: HashSet<usize>,
}

impl View for MultipleSelectionListState {
    type V = Set<usize>;

    closed spec fn view(&self) -> Set<usize> {
        self.marked@
    }
}

impl Default for MultipleSelectionListState {
    fn default() -> (r: Self)
        ensures
            r@ == Set::<usize>::empty(),
    {
        MultipleSelectionListState::new()
    }
}

impl MultipleSelectionListState {
    /// A state with no marks.
    pub fn new() -> (r: Self)
        ensures
            r@ == Set::<usize>::empty(),
    {
        MultipleSelectionListState { marked: HashSet::new() }
    }

    pub fn contains(&self, i: usize) -> (r: bool)
        ensures
            r == self@.contains(i),
    {
        self.marked.contains(&i)
    }

    /// The marks, in no particular order, each once.
    pub fn marked(&self) -> (r: std::collections::hash_set::Iter<'_, usize>)
        ensures
            r.remaining().unref().to_set() == self@,
            r.remaining().unref().no_duplicates(),
    {
        self.marked.iter()
    }

    pub fn mark(&mut self, index: Option<usize>)
        ensures
            final(self)@ == match index {
                Some(i) => old(self)@.insert(i),
                None => old(self)@,
            },
    {
        if let Some(i) = index {
            self.marked.insert(i);
        }
    }

    pub fn unmark(&mut self, index: Option<usize>)
        ensures
            final(self)@ == match index {
                Some(i) => old(self)@.remove(i),
                None => old(self)@,
            },
    {
        if let Some(i) = index {
            self.marked.remove(&i);
        }
    }

    pub fn toggle(&mut self, index: Option<usize>)
        ensures
            final(self)@ == match index {
                Some(i) => if old(self)@.contains(i) {
                    old(self)@.remove(i)
                } else {
                    old(self)@.insert(i)
                },
                None => old(self)@,
            },
    {
        if let Some(i) = index {
            if !self.marked.insert(i) {
                self.marked.remove(&i);
            }
        }
    }

    pub fn clear(&mut self)
        ensures
            final(self)@ == Set::<usize>::empty(),
    {
        self.marked.clear();
    }

    /// The marks in ascending order.
    pub fn sorted(&self) -> (r: Vec<usize>)
        ensures
            strictly_ascending(r@),
            forall|x: usize| r@.contains(x) <==> self@.contains(x),
    {
        let mut all: Vec<usize> = Vec::new();
        let ghost full = self.marked.iter().remaining().unref();
        for x in it: self.marked.iter()
            invariant
                all@ == it.history().unref(),
                it.seq().unref() == full,
                full.to_set() == self.marked@,
        {
            all.push(*x);
        }
        assert(all@ == full);
        let mut out: Vec<usize> = Vec::new();
        let mut i: usize = 0;
        while i < all.len()
            invariant
                i <= all.len(),
                strictly_ascending(out@),
                forall|y: usize| out@.contains(y) <==> all@.subrange(0, i as int).contains(y),
            decreases all.len() - i,
        {
            proof {
                let pre = all@.subrange(0, i as int);
                let nxt = all@.subrange(0, i + 1);
                assert(nxt == pre.push(all@[i as int]));
                assert forall|y: usize| nxt.contains(y) <==> (pre.contains(y) || y == all@[i as int]) by {
                    if nxt.contains(y) {
                        let k = choose|k: int| 0 <= k < nxt.len() && nxt[k] == y;
                        if k < pre.len() {
                            assert(pre[k] == y);
                        }
                    }
                    if pre.contains(y) {
                        let k = choose|k: int| 0 <= k < pre.len() && pre[k] == y;
                        assert(nxt[k] == y);
                    }
                    if y == all@[i as int] {
                        assert(nxt[pre.len() as int] == y);
                    }
                }
            }
            insert_ascending(&mut out, all[i]);
            i = i + 1;
        }
        proof {
            assert(all@.subrange(0, all@.len() as int) == all@);
            assert forall|y: usize| out@.contains(y) <==> self@.contains(y) by {
                assert(full.to_set().contains(y) == full.contains(y));
            }
        }
        out
    }
}

/// Inserts `x` into a strictly ascending vector, keeping it so.
fn insert_ascending(v: &mut Vec<usize>, x: usize)
    requires
        strictly_ascending(old(v)@),
    ensures
        strictly_ascending(final(v)@),
        forall|y: usize| final(v)@.contains(y) <==> (old(v)@.contains(y) || y == x),
{
    let mut pos: usize = 0;
    while pos < v.len() && v[pos] < x
        invariant
            pos <= v.len(),
            v@ == old(v)@,
            forall|k: int| 0 <= k < pos ==> v@[k] < x,
        decreases v.len() - pos,
    {
        pos = pos + 1;
    }
    if pos < v.len() && v[pos] == x {
        assert(v@[pos as int] == x);
    } else {
        let ghost before = v@;
        v.insert(pos, x);
        proof {
            assert forall|y: usize| v@.contains(y) <==> (before.contains(y) || y == x) by {
                if v@.contains(y) {
                    let k = choose|k: int| 0 <= k < v@.len() && v@[k] == y;
                    if k < pos {
                        assert(before[k] == y);
                    } else if k > pos {
                        assert(before[k - 1] == y);
                    }
                }
                if before.contains(y) {
                    let k = choose|k: int| 0 <= k < before.len() && before[k] == y;
                    if k < pos {
                        assert(v@[k] == y);
                    } else {
                        assert(v@[k + 1] == y);
                    }
                }
                if y == x {
                    assert(v@[pos as int] == x);
                }
            }
        }
    }
}

/// The position that follows `cursor` in a list of `len` items, wrapping to
/// the first one.
pub open spec fn next_position(cursor: Option<usize>, len: nat) -> usize {
    match cursor {
        Some(i) => if len == 0 || i >= len - 1 {
            0
        } else {
            (i + 1) as usize
        },
        None => 0,
    }
}

/// The position before `cursor` in a list of `len` items, wrapping to the
/// last one.
pub open spec fn previous_position(cursor: Option<usize>, len: nat) -> usize {
    match cursor {
        Some(i) => if i == 0 {
            if len == 0 {
                0
            } else {
                (len - 1) as usize
            }
        } else {
            (i - 1) as usize
        },
        None => 0,
    }
}

/// A list of labels with a cursor and a set of marked positions.
#[derive(Debug)]
pub struct StatefulList {
    pub cursor: Option<usize>,
    pub multiple_selection_state: MultipleSelectionListState,
    pub items: Vec<String>,
}

impl StatefulList {
    pub fn with_items(items: Vec<String>) -> (r: StatefulList)
        ensures
            r.items == items,
            r.cursor is None,
            r.multiple_selection_state@ == Set::<usize>::empty(),
    {
        StatefulList { cursor: None, multiple_selection_state: MultipleSelectionListState::new(), items }
    }

    /// The marked positions in ascending order; where nothing is marked,
    /// position 0 is marked first, so that at least one member is active.
    pub fn selected(&mut self) -> (r: Vec<usize>)
        ensures
            final(self).items == old(self).items,
            final(self).cursor == old(self).cursor,
            final(self).multiple_selection_state@ == if old(self).multiple_selection_state@
                == Set::<usize>::empty() {
                set![0usize]
            } else {
                old(self).multiple_selection_state@
            },
            strictly_ascending(r@),
            forall|x: usize| r@.contains(x) <==> final(self).multiple_selection_state@.contains(x),
    {
        let s = self.multiple_selection_state.sorted();
        if s.len() == 0 {
            proof {
                assert(self.multiple_selection_state@ =~= Set::<usize>::empty()) by {
                    assert forall|x: usize| !self.multiple_selection_state@.contains(x) by {
                        assert(!s@.contains(x));
                    }
                }
            }
            self.multiple_selection_state.mark(Some(0));
            let r = vec![0usize];
            proof {
                assert forall|x: usize| r@.contains(x) <==> x == 0 by {
                    if x == 0 {
                        assert(r@[0] == 0);
                    }
                }
            }
            r
        } else {
            proof {
                assert(self.multiple_selection_state@.contains(s@[0]));
            }
            s
        }
    }

    /// Flips the mark at the cursor.
    pub fn toggle(&mut self)
        ensures
            final(self).items == old(self).items,
            final(self).cursor == old(self).cursor,
            final(self).multiple_selection_state@ == match old(self).cursor {
                Some(i) => if old(self).multiple_selection_state@.contains(i) {
                    old(self).multiple_selection_state@.remove(i)
                } else {
                    old(self).multiple_selection_state@.insert(i)
                },
                None => old(self).multiple_selection_state@,
            },
    {
        let c = self.cursor;
        self.multiple_selection_state.toggle(c);
    }

    /// Flips the mark of every position of the list, each on its own.
    pub fn toggle_all(&mut self)
        ensures
            final(self).items == old(self).items,
            final(self).cursor == old(self).cursor,
            forall|x: usize| #[trigger] final(self).multiple_selection_state@.contains(x) == if x
                < old(self).items.len() {
                !old(self).multiple_selection_state@.contains(x)
            } else {
                old(self).multiple_selection_state@.contains(x)
            },
    {
        let n = self.items.len();
        let mut i: usize = 0;
        while i < n
            invariant
                i <= n,
                n == self.items.len(),
                self.items == old(self).items,
                self.cursor == old(self).cursor,
                forall|x: usize| #[trigger] self.multiple_selection_state@.contains(x) == if x < i {
                    !old(self).multiple_selection_state@.contains(x)
                } else {
                    old(self).multiple_selection_state@.contains(x)
                },
            decreases n - i,
        {
            self.multiple_selection_state.toggle(Some(i));
            i = i + 1;
        }
    }

    /// Marks every position of the list.
    pub fn mark_all(&mut self)
        ensures
            final(self).items == old(self).items,
            final(self).cursor == old(self).cursor,
            forall|x: usize| #[trigger] final(self).multiple_selection_state@.contains(x) == (x
                < old(self).items.len() || old(self).multiple_selection_state@.contains(x)),
    {
        let n = self.items.len();
        let mut i: usize = 0;
        while i < n
            invariant
                i <= n,
                n == self.items.len(),
                self.items == old(self).items,
                self.cursor == old(self).cursor,
                forall|x: usize| #[trigger] self.multiple_selection_state@.contains(x) == (x < i
                    || old(self).multiple_selection_state@.contains(x)),
            decreases n - i,
        {
            self.multiple_selection_state.mark(Some(i));
            i = i + 1;
        }
    }

    pub fn unmark_all(&mut self)
        ensures
            final(self).items == old(self).items,
            final(self).cursor == old(self).cursor,
            final(self).multiple_selection_state@ == Set::<usize>::empty(),
    {
        self.multiple_selection_state.clear();
    }

    /// Moves the cursor down, wrapping from the last item to the first.
    pub fn next(&mut self)
        ensures
            final(self).items == old(self).items,
            final(self).multiple_selection_state@ == old(self).multiple_selection_state@,
            final(self).cursor == Some(next_position(old(self).cursor, old(self).items@.len())),
    {
        let len = self.items.len();
        let i = match self.cursor {
            Some(i) => if len == 0 || i >= len - 1 {
                0
            } else {
                i + 1
            },
            None => 0,
        };
        self.cursor = Some(i);
    }

    /// Moves the cursor up, wrapping from the first item to the last.
    pub fn previous(&mut self)
        ensures
            final(self).items == old(self).items,
            final(self).multiple_selection_state@ == old(self).multiple_selection_state@,
            final(self).cursor == Some(previous_position(old(self).cursor, old(self).items@.len())),
    {
        let len = self.items.len();
        let i = match self.cursor {
            Some(i) => if i == 0 {
                if len == 0 {
                    0
                } else {
                    len - 1
                }
            } else {
                i - 1
            },
            None => 0,
        };
        self.cursor = Some(i);
    }
}

/// One mark list per dimension of a table, with the dimension in view.
#[derive(Debug)]
pub struct Select {
    pub active_sets_state: Vec<StatefulList>,
    pub set_names: Vec<String>,
    pub current_set: usize,
}

impl Select {
    /// An overlay with no dimensions.
    pub fn new() -> (r: Select)
        ensures
            r.active_sets_state@.len() == 0,
            r.set_names@.len() == 0,
            r.current_set == 0,
    {
        Select { active_sets_state: Vec::new(), set_names: Vec::new(), current_set: 0 }
    }

    /// Puts every list's cursor on its first item and marks all of its items.
    pub fn init(&mut self)
        ensures
            final(self).set_names == old(self).set_names,
            final(self).current_set == old(self).current_set,
            final(self).active_sets_state@.len() == old(self).active_sets_state@.len(),
            forall|k: int| 0 <= k < final(self).active_sets_state@.len() ==> {
                let l = #[trigger] final(self).active_sets_state@[k];
                let o = old(self).active_sets_state@[k];
                &&& l.items == o.items
                &&& l.cursor == Some(0usize)
                &&& forall|x: usize| #[trigger] l.multiple_selection_state@.contains(x) == (x < o.items.len()
                    || o.multiple_selection_state@.contains(x))
            },
    {
        let n = self.active_sets_state.len();
        let mut i: usize = 0;
        while i < n
            invariant
                i <= n,
                n == self.active_sets_state.len(),
                self.set_names == old(self).set_names,
                self.current_set == old(self).current_set,
                forall|k: int| 0 <= k < n ==> {
                    let l = #[trigger] self.active_sets_state@[k];
                    let o = old(self).active_sets_state@[k];
                    if k < i {
                        &&& l.items == o.items
                        &&& l.cursor == Some(0usize)
                        &&& forall|x: usize| #[trigger] l.multiple_selection_state@.contains(x) == (x
                            < o.items.len() || o.multiple_selection_state@.contains(x))
                    } else {
                        l == o
                    }
                },
            decreases n - i,
        {
            self.active_sets_state[i].cursor = Some(0);
            self.active_sets_state[i].mark_all();
            i = i + 1;
        }
    }

    /// Moves the cursor of the dimension in view down.
    pub fn next_element(&mut self)
        ensures
            final(self).set_names == old(self).set_names,
            final(self).current_set == old(self).current_set,
            final(self).active_sets_state@.len() == old(self).active_sets_state@.len(),
            forall|k: int| 0 <= k < final(self).active_sets_state@.len() && k != old(self).current_set ==>
                #[trigger] final(self).active_sets_state@[k] == old(self).active_sets_state@[k],
            old(self).current_set < old(self).active_sets_state@.len() ==> {
                let l = final(self).active_sets_state@[old(self).current_set as int];
                let o = old(self).active_sets_state@[old(self).current_set as int];
                &&& l.items == o.items
                &&& l.multiple_selection_state@ == o.multiple_selection_state@
                &&& l.cursor == Some(next_position(o.cursor, o.items@.len()))
            },
    {
        if self.current_set < self.active_sets_state.len() {
            let c = self.current_set;
            self.active_sets_state[c].next();
        }
    }

    /// Moves the cursor of the dimension in view up.
    pub fn previous_element(&mut self)
        ensures
            final(self).set_names == old(self).set_names,
            final(self).current_set == old(self).current_set,
            final(self).active_sets_state@.len() == old(self).active_sets_state@.len(),
            forall|k: int| 0 <= k < final(self).active_sets_state@.len() && k != old(self).current_set ==>
                #[trigger] final(self).active_sets_state@[k] == old(self).active_sets_state@[k],
            old(self).current_set < old(self).active_sets_state@.len() ==> {
                let l = final(self).active_sets_state@[old(self).current_set as int];
                let o = old(self).active_sets_state@[old(self).current_set as int];
                &&& l.items == o.items
                &&& l.multiple_selection_state@ == o.multiple_selection_state@
                &&& l.cursor == Some(previous_position(o.cursor, o.items@.len()))
            },
    {
        if self.current_set < self.active_sets_state.len() {
            let c = self.current_set;
            self.active_sets_state[c].previous();
        }
    }

    /// Moves to the next dimension, wrapping to the first; the marks of every
    /// dimension are kept.
    pub fn next_set(&mut self)
        ensures
            final(self).set_names == old(self).set_names,
            final(self).active_sets_state == old(self).active_sets_state,
            final(self).current_set == if old(self).current_set + 1 >= old(self).set_names@.len() {
                0
            } else {
                old(self).current_set + 1
            },
    {
        if self.current_set >= self.set_names.len() || self.current_set + 1 >= self.set_names.len() {
            self.current_set = 0;
        } else {
            self.current_set = self.current_set + 1;
        }
    }

    /// Moves to the previous dimension, wrapping to the last; the marks of
    /// every dimension are kept.
    pub fn previous_set(&mut self)
        ensures
            final(self).set_names == old(self).set_names,
            final(self).active_sets_state == old(self).active_sets_state,
            final(self).current_set == if old(self).current_set == 0 {
                if old(self).set_names@.len() == 0 {
                    0
                } else {
                    (old(self).set_names@.len() - 1) as usize
                }
            } else {
                (old(self).current_set - 1) as usize
            },
    {
        if self.current_set == 0 {
            if self.set_names.len() == 0 {
                self.current_set = 0;
            } else {
                self.current_set = self.set_names.len() - 1;
            }
        } else {
            self.current_set = self.current_set - 1;
        }
    }

    /// Flips the mark at the cursor of the dimension in view.
    pub fn toggle(&mut self)
        ensures
            final(self).set_names == old(self).set_names,
            final(self).current_set == old(self).current_set,
            final(self).active_sets_state@.len() == old(self).active_sets_state@.len(),
            forall|k: int| 0 <= k < final(self).active_sets_state@.len() && k != old(self).current_set ==>
                #[trigger] final(self).active_sets_state@[k] == old(self).active_sets_state@[k],
            old(self).current_set < old(self).active_sets_state@.len() ==> {
                let l = final(self).active_sets_state@[old(self).current_set as int];
                let o = old(self).active_sets_state@[old(self).current_set as int];
                &&& l.items == o.items
                &&& l.cursor == o.cursor
                &&& l.multiple_selection_state@ == match o.cursor {
                    Some(i) => if o.multiple_selection_state@.contains(i) {
                        o.multiple_selection_state@.remove(i)
                    } else {
                        o.multiple_selection_state@.insert(i)
                    },
                    None => o.multiple_selection_state@,
                }
            },
    {
        if self.current_set < self.active_sets_state.len() {
            let c = self.current_set;
            self.active_sets_state[c].toggle();
        }
    }

    /// Flips every mark of the dimension in view, each on its own.
    pub fn toggle_all(&mut self)
        ensures
            final(self).set_names == old(self).set_names,
            final(self).current_set == old(self).current_set,
            final(self).active_sets_state@.len() == old(self).active_sets_state@.len(),
            forall|k: int| 0 <= k < final(self).active_sets_state@.len() && k != old(self).current_set ==>
                #[trigger] final(self).active_sets_state@[k] == old(self).active_sets_state@[k],
            old(self).current_set < old(self).active_sets_state@.len() ==> {
                let l = final(self).active_sets_state@[old(self).current_set as int];
                let o = old(self).active_sets_state@[old(self).current_set as int];
                &&& l.items == o.items
                &&& l.cursor == o.cursor
                &&& forall|x: usize| #[trigger] l.multiple_selection_state@.contains(x) == if x < o.items.len() {
                    !o.multiple_selection_state@.contains(x)
                } else {
                    o.multiple_selection_state@.contains(x)
                }
            },
    {
        if self.current_set < self.active_sets_state.len() {
            let c = self.current_set;
            self.active_sets_state[c].toggle_all();
        }
    }

    /// Rebuilds one unmarked list per dimension from its labels.
    pub fn refresh(&mut self, set_data: Vec<Vec<String>>, set_names: Vec<String>)
        ensures
            final(self).set_names == set_names,
            final(self).current_set == old(self).current_set,
            final(self).active_sets_state@.len() == set_data@.len(),
            forall|k: int| 0 <= k < set_data@.len() ==> {
                let l = #[trigger] final(self).active_sets_state@[k];
                &&& l.items == set_data@[k]
                &&& l.cursor is None
                &&& l.multiple_selection_state@ == Set::<usize>::empty()
            },
    {
        let mut lists: Vec<StatefulList> = Vec::new();
        let mut rest = set_data;
        let ghost all = rest@;
        while rest.len() > 0
            invariant
                lists@.len() + rest@.len() == all.len(),
                rest@ == all.subrange(lists@.len() as int, all.len() as int),
                forall|k: int| 0 <= k < lists@.len() ==> {
                    let l = #[trigger] lists@[k];
                    &&& l.items == all[k]
                    &&& l.cursor is None
                    &&& l.multiple_selection_state@ == Set::<usize>::empty()
                },
            decreases rest.len(),
        {
            let items = rest.remove(0);
            lists.push(StatefulList::with_items(items));
        }
        self.active_sets_state = lists;
        self.set_names = set_names;
    }
}

} // verus!

//! The pivot view: which two axes are free, where every other axis is
//! pinned, the cursor and the horizontal scroll.
use vstd::prelude::*;
use crate::grid::{cells, margin_grid, margin_layout, orient, oriented, rectangular};
use crate::select::Select;
use crate::summary::Summary;
use crate::table::{spec_storage_axis, Data};

verus! {

#[derive(Debug, Clone, Copy, PartialEq, Eq, Structural)]
pub enum Mode {
    Normal,
    Editing,
    Selection,
}

/// Why the view could not do what was asked.
#[derive(Debug, Clone, Copy, PartialEq, Eq, Structural)]
pub enum ViewError {
    /// No table is open.
    NoTable,
    /// An axis or a pinned index lies outside the table.
    IndexOutOfRange,
    /// The two free axes are the same axis.
    AxesNotDistinct,
}

/// How one axis of the store is read for a projection: whole, or at one index.
#[derive(Debug, Clone, Copy, PartialEq, Eq, Structural)]
pub enum AxisSlice {
    Full,
    Index(usize),
}

/// The scroll column `c` brought inside an axis of `n` indices.
pub open spec fn clamp_col(c: usize, n: usize) -> usize {
    if n == 0 {
        0
    } else if c < n {
        c
    } else {
        (n - 1) as usize
    }
}

/// The free axis after `a` in a table of `n` axes, wrapping to the first.
pub open spec fn step_up(a: usize, n: usize) -> usize {
    if n == 0 || a >= n - 1 {
        0
    } else {
        (a + 1) as usize
    }
}

/// The free axis before `a` in a table of `n` axes, wrapping to the last.
pub open spec fn step_down(a: usize, n: usize) -> usize {
    if a == 0 {
        if n == 0 {
            0
        } else {
            (n - 1) as usize
        }
    } else {
        (a - 1) as usize
    }
}

/// Moves free axis `a` up by one; where it lands on the other free axis
/// `other`, it moves once more in the same direction.
pub open spec fn axis_up(a: usize, other: usize, n: usize) -> usize {
    let s = step_up(a, n);
    if s == other {
        step_up(s, n)
    } else {
        s
    }
}

/// Moves free axis `a` down by one; where it lands on the other free axis
/// `other`, it moves once more in the same direction.
pub open spec fn axis_down(a: usize, other: usize, n: usize) -> usize {
    let s = step_down(a, n);
    if s == other {
        step_down(s, n)
    } else {
        s
    }
}

/// The index after `v` along an axis of extent `e`, wrapping to 0.
pub open spec fn index_up(v: usize, e: nat) -> usize {
    if e == 0 || v >= e - 1 {
        0
    } else {
        (v + 1) as usize
    }
}

/// The index before `v` along an axis of extent `e`, wrapping to the last.
pub open spec fn index_down(v: usize, e: nat) -> usize {
    if v == 0 {
        if e == 0 {
            0
        } else {
            (e - 1) as usize
        }
    } else {
        (v - 1) as usize
    }
}

/// The row after `i` of a grid whose last row is `last`, wrapping to the first.
pub open spec fn row_after(selected: Option<usize>, last: usize) -> usize {
    match selected {
        Some(i) => if i >= last {
            0
        } else {
            (i + 1) as usize
        },
        None => 0,
    }
}

/// The row before `i` of a grid whose last row is `last`, wrapping to the last.
pub open spec fn row_before(selected: Option<usize>, last: usize) -> usize {
    match selected {
        Some(i) => if i == 0 || i > last {
            last
        } else {
            (i - 1) as usize
        },
        None => 0,
    }
}

/// How the store is read for the free axes `axis0` and `axis1` with every
/// other axis pinned at `fixed[i]`, listed in the store's axis order.
pub open spec fn slice_spec(ndims: nat, axis0: usize, axis1: usize, fixed: Seq<usize>) -> Seq<AxisSlice> {
    Seq::new(
        ndims,
        |k: int|
            {
                let i = spec_storage_axis(ndims, k as nat);
                if i == axis0 || i == axis1 {
                    AxisSlice::Full
                } else {
                    AxisSlice::Index(fixed[i as int])
                }
            },
    )
}

/// The widths of the pivot view's columns on a screen `width` cells wide:
/// one of 20 for the labels, then `k` of 9 while they fit with a gap each.
pub open spec fn fitting_columns(width: u16, k: nat) -> bool {
    &&& 31 + 10 * k >= width
    &&& (k == 0 || 31 + 10 * (k - 1) < width)
}

/// An abstract command to the pivot view.
#[derive(Debug, Clone, Copy, PartialEq, Eq, Structural)]
pub enum Command {
    ToggleFormattedData,
    MoveSelectionNext,
    MoveSelectionPrevious,
    MoveSelectionLeft,
    MoveSelectionRight,
    MoveSelectionTop,
    MoveSelectionBottom,
    MoveSelectionHome,
    MoveSelectionEnd,
    /// Moves the pinned index of an axis up.
    NextAxis(usize),
    /// Moves the pinned index of an axis down.
    PreviousAxis(usize),
    /// Moves a free axis up: the first one for 1, the second one otherwise.
    IncrementAxis(usize),
    /// Moves a free axis down: the first one for 1, the second one otherwise.
    DecrementAxis(usize),
    ToggleSelection,
    ToggleAllSelection,
    EnterInsert,
    EnterNormal,
    EnterSubset,
    Close,
}

#[derive(Debug)]
pub struct Viewer {
    pub file: String,
    pub name: String,
    pub focus: bool,
    pub data: Option<Data>,
    pub ncol: usize,
    pub nrow: usize,
    pub selected: Option<usize>,
    pub axis0: usize,
    pub axis1: usize,
    pub col: usize,
    pub row: usize,
    pub active_index: Vec<usize>,
    pub show_zeros_as_dashes: bool,
    pub mode: Mode,
    pub summary: Summary,
    pub select: Select,
}

impl Viewer {
    /// The free axes are two distinct axes of the pinned index vector.
    pub open spec fn axes_valid(&self) -> bool {
        let n = self.active_index@.len();
        &&& n >= 2
        &&& self.axis0 < n
        &&& self.axis1 < n
        &&& self.axis0 != self.axis1
    }

    /// The extent of axis `i` of the open table.
    pub open spec fn extent(&self, i: int) -> nat {
        self.data->Some_0.set_data@[i]@.len()
    }

    /// A table is open, the free axes are valid for it, every pinned index
    /// lies inside its axis and the scroll lies inside the first free axis
    /// (at 0 where that axis is empty).
    pub open spec fn wf(&self) -> bool {
        &&& self.data is Some
        &&& self.data->Some_0.wf()
        &&& self.active_index@.len() == self.data->Some_0.ndims
        &&& self.axes_valid()
        &&& self.ncol == self.extent(self.axis0 as int)
        &&& self.nrow == self.extent(self.axis1 as int)
        &&& (self.col < self.ncol || self.ncol == 0 && self.col == 0)
        &&& forall|i: int| 0 <= i < self.active_index@.len() ==> (#[trigger] self.active_index@[i] < self.extent(i)
            || self.extent(i) == 0 && self.active_index@[i] == 0)
    }

    /// The state from which `initialize_state` makes a well-formed view: a
    /// table of at least two axes is open, the free axes lie inside it, and
    /// the pinned indices are either absent or one per axis inside its axis.
    pub open spec fn ready(&self) -> bool {
        let d = self.data->Some_0;
        &&& self.data is Some
        &&& d.wf()
        &&& d.ndims >= 2
        &&& (self.active_index@.len() == 0 || self.active_index@.len() == d.ndims)
        &&& self.axis0 < d.ndims
        &&& self.axis1 < d.ndims
        &&& forall|i: int| 0 <= i < self.active_index@.len() ==> (#[trigger] self.active_index@[i]
            < d.set_data@[i]@.len() || d.set_data@[i]@.len() == 0 && self.active_index@[i] == 0)
    }

    /// Everything but the free axes and the scroll is unchanged.
    pub open spec fn same_but_axes(&self, o: &Viewer) -> bool {
        &&& self.data == o.data
        &&& self.active_index == o.active_index
        &&& self.ncol == o.ncol
        &&& self.nrow == o.nrow
        &&& self.selected == o.selected
        &&& self.show_zeros_as_dashes == o.show_zeros_as_dashes
        &&& self.mode == o.mode
    }

    /// A view of no table.
    pub fn new(file: String, name: String) -> (r: Viewer)
        ensures
            r.file == file,
            r.name == name,
            r.data is None,
            r.active_index@.len() == 0,
            r.selected is None,
    {
        Viewer {
            file,
            name,
            focus: false,
            data: None,
            ncol: 0,
            nrow: 0,
            selected: None,
            axis0: 0,
            axis1: 0,
            col: 0,
            row: 0,
            active_index: Vec::new(),
            show_zeros_as_dashes: false,
            mode: Mode::Normal,
            summary: Summary::new(),
            select: Select::new(),
        }
    }

    /// Opens table `d`: the last axis and axis 0 become the free axes, every
    /// axis is pinned at 0 and zeros show as dashes.
    pub fn init(&mut self, d: Data)
        requires
            d.wf(),
            d.ndims >= 2,
        ensures
            final(self).wf(),
            final(self).data == Some(d),
            final(self).axis0 == d.ndims - 1,
            final(self).axis1 == 0,
            final(self).col == 0,
            final(self).active_index@ == Seq::new(d.ndims as nat, |i: int| 0usize),
            final(self).focus,
            final(self).show_zeros_as_dashes,
    {
        self.focus = true;
        self.show_zeros_as_dashes = true;
        self.axis1 = 0;
        self.axis0 = d.ndims - 1;
        self.active_index = Vec::new();
        self.data = Some(d);
        self.col = 0;
        let r = self.initialize_state();
        assert(r is Ok);
    }

    /// Makes the derived state agree with the open table: distinct free axes,
    /// the extents of the two free axes, a pinned index for every axis, the
    /// header and the selection lists.
    pub fn initialize_state(&mut self) -> (r: Result<(), ViewError>)
        ensures
            final(self).data == old(self).data,
            old(self).data is None ==> r == Err::<(), ViewError>(ViewError::NoTable) && *final(self) == *old(self),
            old(self).ready() ==> {
                let d = old(self).data->Some_0;
                &&& r is Ok
                &&& final(self).wf()
                &&& old(self).axis0 != old(self).axis1 ==> final(self).axis0 == old(self).axis0 && final(self).axis1 == old(self).axis1
                &&& old(self).axis0 == old(self).axis1 ==> final(self).axis0 == old(self).data->Some_0.ndims - 1 && final(self).axis1 == 0
                &&& old(self).active_index@.len() != 0 ==> final(self).active_index == old(self).active_index
                &&& old(self).active_index@.len() == 0 ==> final(self).active_index@ == Seq::new(old(self).data->Some_0.ndims as nat, |i: int| 0usize)
                &&& final(self).col == clamp_col(old(self).col, final(self).ncol)
                &&& final(self).summary.describes(d, final(self).active_index@, final(self).axis0, final(self).axis1)
                &&& final(self).select.set_names@ == d.set_names@
                &&& final(self).select.current_set == old(self).select.current_set
                &&& final(self).select.active_sets_state@.len() == d.ndims
                &&& forall|k: int| 0 <= k < d.ndims ==> {
                    let l = #[trigger] final(self).select.active_sets_state@[k];
                    &&& l.items@ == d.set_data@[k]@
                    &&& l.cursor == Some(0usize)
                    &&& forall|x: usize| #[trigger] l.multiple_selection_state@.contains(x) == (x < l.items@.len())
                }
                &&& final(self).selected == old(self).selected
                &&& final(self).focus == old(self).focus
                &&& final(self).show_zeros_as_dashes == old(self).show_zeros_as_dashes
                &&& final(self).mode == old(self).mode
            },
    {
        let ghost snapshot = *self;
        let ok = match &self.data {
            None => false,
            Some(d) => {
                let n = d.ndims;
                d.set_data.len() == n && n >= 2 && d.set_names.len() == n && self.axis0 < n && self.axis1 < n
                    && (self.active_index.len() == 0 || self.active_index.len() == n)
            },
        };
        if !ok {
            if self.data.is_none() {
                return Err(ViewError::NoTable);
            }
            return Err(ViewError::IndexOutOfRange);
        }
        let d = match &self.data {
            Some(d) => d,
            None => return Err(ViewError::NoTable),
        };
        let n = d.ndims;
        if self.axis0 == self.axis1 {
            self.axis0 = n - 1;
            self.axis1 = 0;
        }
        let ncol = d.set_data[self.axis0].len();
        let nrow = d.set_data[self.axis1].len();
        if self.active_index.len() == 0 {
            let mut zeros: Vec<usize> = Vec::new();
            let mut i: usize = 0;
            while i < n
                invariant
                    i <= n,
                    zeros@ == Seq::new(i as nat, |k: int| 0usize),
                decreases n - i,
            {
                zeros.push(0);
                i = i + 1;
                assert(zeros@ =~= Seq::new(i as nat, |k: int| 0usize));
            }
            self.active_index = zeros;
        }
        let mut summary = Summary::new();
        summary.refresh(d, &self.active_index, self.axis0, self.axis1);
        let labels = copy_labels(&d.set_data);
        let names = copy_strings(&d.set_names);
        self.ncol = ncol;
        self.nrow = nrow;
        self.col = if ncol == 0 {
            0
        } else if self.col < ncol {
            self.col
        } else {
            ncol - 1
        };
        self.summary = summary;
        self.select.refresh(labels, names);
        self.select.init();
        Ok(())
    }

    /// Carries out command `c` and makes the derived state agree again.
    /// Returns whether the view was closed. In selection mode the commands go
    /// to the selection lists, and `EnterNormal` leaves that mode.
    pub fn update(&mut self, c: Command) -> (closed: bool)
        ensures
            closed == (old(self).mode != Mode::Selection && c == Command::Close),
            final(self).data == old(self).data,
            old(self).wf() && !closed ==> final(self).wf(),
            old(self).wf() && old(self).mode == Mode::Selection ==> {
                &&& final(self).axis0 == old(self).axis0
                &&& final(self).axis1 == old(self).axis1
                &&& final(self).col == old(self).col
                &&& final(self).active_index == old(self).active_index
                &&& final(self).mode == if c == Command::EnterNormal { Mode::Normal } else { Mode::Selection }
            },
            old(self).wf() && old(self).mode != Mode::Selection ==> {
                let n = old(self).active_index@.len() as usize;
                let o = *old(self);
                let f = *final(self);
                match c {
                    Command::ToggleFormattedData => f.show_zeros_as_dashes == !o.show_zeros_as_dashes
                        && f.axis0 == o.axis0 && f.axis1 == o.axis1 && f.active_index == o.active_index,
                    Command::MoveSelectionNext => f.selected == (if o.nrow == 0 { None } else { Some(row_after(o.selected, o.nrow)) }),
                    Command::MoveSelectionPrevious => f.selected == (if o.nrow == 0 { None } else { Some(row_before(o.selected, o.nrow)) }),
                    Command::MoveSelectionTop => f.selected == (if o.nrow == 0 { None } else { Some(0usize) }),
                    Command::MoveSelectionBottom => f.selected == (if o.nrow == 0 { None } else { Some(o.nrow) }),
                    Command::MoveSelectionLeft => f.col == (if o.col == 0 { 0 } else { (o.col - 1) as usize }),
                    Command::MoveSelectionRight => f.col == (if o.ncol == 0 { 0 } else if o.col < o.ncol - 1 { (o.col + 1) as usize } else { (o.ncol - 1) as usize }),
                    Command::MoveSelectionHome => f.col == 0,
                    Command::MoveSelectionEnd => f.col == (if o.ncol == 0 { 0 } else { (o.ncol - 1) as usize }),
                    Command::NextAxis(i) => i < n ==> f.active_index@ == o.active_index@.update(i as int, index_up(o.active_index@[i as int], o.extent(i as int))),
                    Command::PreviousAxis(i) => i < n ==> f.active_index@ == o.active_index@.update(i as int, index_down(o.active_index@[i as int], o.extent(i as int))),
                    Command::IncrementAxis(i) => f.col == 0 && if i == 1 {
                        f.axis0 == axis_up(o.axis0, o.axis1, n) && f.axis1 == o.axis1
                    } else {
                        f.axis1 == axis_up(o.axis1, o.axis0, n) && f.axis0 == o.axis0
                    },
                    Command::DecrementAxis(i) => f.col == 0 && if i == 1 {
                        f.axis0 == axis_down(o.axis0, o.axis1, n) && f.axis1 == o.axis1
                    } else {
                        f.axis1 == axis_down(o.axis1, o.axis0, n) && f.axis0 == o.axis0
                    },
                    Command::EnterInsert => f.mode == Mode::Editing,
                    Command::EnterSubset => f.mode == Mode::Selection,
                    Command::Close => f.selected is None && f.active_index@.len() == 0,
                    _ => f.axis0 == o.axis0 && f.axis1 == o.axis1 && f.active_index == o.active_index,
                }
            },
    {
        if self.mode == Mode::Selection {
            match c {
                Command::EnterNormal => {
                    self.mode = Mode::Normal;
                    let _ = self.initialize_state();
                },
                Command::MoveSelectionNext => self.select.next_element(),
                Command::MoveSelectionPrevious => self.select.previous_element(),
                Command::MoveSelectionLeft => self.select.previous_set(),
                Command::MoveSelectionRight => self.select.next_set(),
                Command::ToggleSelection => self.select.toggle(),
                Command::ToggleAllSelection => self.select.toggle_all(),
                _ => {},
            }
            return false;
        }
        match c {
            Command::ToggleFormattedData => self.show_zeros_as_dashes = !self.show_zeros_as_dashes,
            Command::MoveSelectionNext => self.move_next(),
            Command::MoveSelectionPrevious => self.move_previous(),
            Command::MoveSelectionLeft => self.move_left(),
            Command::MoveSelectionRight => self.move_right(),
            Command::MoveSelectionTop => self.move_top(),
            Command::MoveSelectionBottom => self.move_bottom(),
            Command::MoveSelectionHome => self.move_home(),
            Command::MoveSelectionEnd => self.move_end(),
            Command::NextAxis(i) => self.increment_index(i),
            Command::PreviousAxis(i) => self.decrement_index(i),
            Command::IncrementAxis(i) => if i == 1 {
                self.increment_axis0()
            } else {
                self.increment_axis1()
            },
            Command::DecrementAxis(i) => if i == 1 {
                self.decrement_axis0()
            } else {
                self.decrement_axis1()
            },
            Command::EnterInsert => {
                self.mode = Mode::Editing;
                return false;
            },
            Command::EnterSubset => {
                self.mode = Mode::Selection;
                return false;
            },
            Command::Close => {
                self.reset();
                return true;
            },
            Command::EnterNormal => self.mode = Mode::Normal,
            _ => return false,
        }
        let _ = self.initialize_state();
        false
    }

    /// Clears the cursor and the pinned indices, and takes the focus.
    pub fn reset(&mut self)
        ensures
            final(self).selected is None,
            final(self).active_index@.len() == 0,
            final(self).focus,
            final(self).data == old(self).data,
    {
        self.selected = None;
        self.active_index = Vec::new();
        self.focus = true;
    }

    /// How the store is read for the current projection, in the store's axis
    /// order: the free axes whole, every other axis at its pinned index.
    pub fn slices(&self) -> (r: Result<Vec<AxisSlice>, ViewError>)
        ensures
            self.data is None ==> r == Err::<Vec<AxisSlice>, ViewError>(ViewError::NoTable),
            self.data is Some ==> {
                let d = self.data->Some_0;
                let n = self.active_index@.len();
                let in_range = self.axis0 < n && self.axis1 < n && n == d.set_data@.len()
                    && forall|i: int| 0 <= i < n && i != self.axis0 && i != self.axis1
                        ==> #[trigger] self.active_index@[i] < d.set_data@[i]@.len();
                &&& self.axis0 == self.axis1 ==> r == Err::<Vec<AxisSlice>, ViewError>(ViewError::AxesNotDistinct)
                &&& self.axis0 != self.axis1 && !in_range ==> r == Err::<Vec<AxisSlice>, ViewError>(ViewError::IndexOutOfRange)
                &&& self.axis0 != self.axis1 && in_range ==> (r matches Ok(v) && v@ == slice_spec(n as nat, self.axis0, self.axis1, self.active_index@))
            },
    {
        let d = match &self.data {
            Some(d) => d,
            None => return Err(ViewError::NoTable),
        };
        if self.axis0 == self.axis1 {
            return Err(ViewError::AxesNotDistinct);
        }
        let n = self.active_index.len();
        if self.axis0 >= n || self.axis1 >= n || n != d.set_data.len() {
            return Err(ViewError::IndexOutOfRange);
        }
        let mut i: usize = 0;
        while i < n
            invariant
                i <= n,
                n == self.active_index@.len(),
                n == d.set_data@.len(),
                self.data == Some(*d),
                self.axis0 != self.axis1,
                self.axis0 < n && self.axis1 < n,
                forall|k: int| 0 <= k < i && k != self.axis0 && k != self.axis1
                    ==> #[trigger] self.active_index@[k] < d.set_data@[k]@.len(),
            decreases n - i,
        {
            if i != self.axis0 && i != self.axis1 && self.active_index[i] >= d.set_data[i].len() {
                return Err(ViewError::IndexOutOfRange);
            }
            i = i + 1;
        }
        let mut r: Vec<AxisSlice> = Vec::new();
        let mut k: usize = 0;
        while k < n
            invariant
                k <= n,
                n == self.active_index@.len(),
                r@ == slice_spec(n as nat, self.axis0, self.axis1, self.active_index@).subrange(0, k as int),
            decreases n - k,
        {
            let i = n - 1 - k;
            if i == self.axis0 || i == self.axis1 {
                r.push(AxisSlice::Full);
            } else {
                r.push(AxisSlice::Index(self.active_index[i]));
            }
            proof {
                assert(r@ =~= slice_spec(n as nat, self.axis0, self.axis1, self.active_index@).subrange(0, k + 1));
            }
            k = k + 1;
        }
        proof {
            assert(r@ =~= slice_spec(n as nat, self.axis0, self.axis1, self.active_index@));
        }
        Ok(r)
    }

    /// Whether the slice read from the store must be transposed so that the
    /// first free axis is outermost: the store lists the axis with the larger
    /// index first.
    pub fn transposes(&self) -> (r: bool)
        ensures
            r == (self.axis1 > self.axis0),
    {
        self.axis1 > self.axis0
    }

    /// The slice read from the store, whose rows hold `inner` values each,
    /// with the first free axis outermost.
    pub fn orient_slice<T: Copy>(&self, raw: &Vec<Vec<T>>, inner: usize) -> (r: Vec<Vec<T>>)
        requires
            rectangular(cells(raw@), raw@.len(), inner as nat),
        ensures
            cells(r@) == oriented(cells(raw@), inner as nat, self.axis1 > self.axis0),
            self.axis1 > self.axis0 ==> rectangular(cells(r@), inner as nat, raw@.len()),
            self.axis1 <= self.axis0 ==> rectangular(cells(r@), raw@.len(), inner as nat),
            self.wf() && raw@.len() == self.extent(crate::grid::larger(self.axis0, self.axis1) as int)
                && inner == self.extent(crate::grid::smaller(self.axis0, self.axis1) as int)
                ==> rectangular(cells(r@), self.ncol as nat, self.nrow as nat),
    {
        orient(raw, inner, self.axis1 > self.axis0)
    }

    /// The grid the view shows for the oriented slice `d` and its totals,
    /// scrolled to the current column; `None` where the parts do not fit
    /// together.
    pub fn layout<T: Copy>(&self, d: &Vec<Vec<T>>, row_totals: &Vec<T>, col_totals: &Vec<T>, grand: T) -> (r: Option<Vec<Vec<T>>>)
        ensures
            (col_totals@.len() == d@.len() && self.col <= d@.len()
                && rectangular(cells(d@), d@.len(), row_totals@.len())) == r is Some,
            r matches Some(g) ==> {
                &&& cells(g@) == margin_grid(cells(d@), row_totals@, col_totals@, grand, self.col as int)
                &&& rectangular(cells(g@), row_totals@.len() + 1, (d@.len() - self.col + 1) as nat)
            },
            self.wf() && d@.len() == self.ncol && rectangular(cells(d@), self.ncol as nat, self.nrow as nat)
                && row_totals@.len() == self.nrow && col_totals@.len() == self.ncol ==> (r matches Some(g)
                && rectangular(cells(g@), (self.nrow + 1) as nat, (self.ncol - self.col + 1) as nat)),
    {
        if col_totals.len() != d.len() || self.col > d.len() {
            return None;
        }
        let rows = row_totals.len();
        let mut i: usize = 0;
        while i < d.len()
            invariant
                i <= d@.len(),
                rows == row_totals@.len(),
                forall|k: int| 0 <= k < i ==> #[trigger] d@[k]@.len() == rows,
            decreases d@.len() - i,
        {
            if d[i].len() != rows {
                proof {
                    assert(cells(d@)[i as int].len() != rows);
                }
                return None;
            }
            i = i + 1;
        }
        proof {
            assert forall|k: int| 0 <= k < d@.len() implies #[trigger] cells(d@)[k].len() == rows by {
                assert(d@[k]@.len() == rows);
            }
        }
        Some(margin_layout(d, row_totals, col_totals, grand, self.col))
    }

    /// The column headings: the two free axes' names, "Total", then the
    /// labels of the first free axis from the scroll column on.
    pub fn columns(&self) -> (r: Vec<String>)
        ensures
            self.wf() ==> {
                let d = self.data->Some_0;
                let labels = d.set_data@[self.axis0 as int]@;
                &&& r@.len() == 2 + self.ncol - self.col
                &&& r@[0]@ == d.set_names@[self.axis1 as int]@ + "＼"@ + d.set_names@[self.axis0 as int]@
                &&& r@[1]@ == "Total"@
                &&& forall|j: int| 0 <= j < self.ncol - self.col ==> (#[trigger] r@[j + 2]) == labels[self.col + j]
            },
    {
        let mut r: Vec<String> = Vec::new();
        let d = match &self.data {
            Some(d) => d,
            None => return r,
        };
        if self.axis0 >= d.set_data.len() || self.axis1 >= d.set_names.len() || self.axis0 >= d.set_names.len() {
            return r;
        }
        let labels = &d.set_data[self.axis0];
        if self.col > self.ncol || self.ncol > labels.len() {
            return r;
        }
        let corner = pivot_corner(&d.set_names[self.axis1], &d.set_names[self.axis0]);
        r.push(corner);
        r.push(String::from_str("Total"));
        let ghost corner_cell = r@[0];
        let ghost total_cell = r@[1];
        let mut j: usize = self.col;
        while j < self.ncol
            invariant
                self.col <= j <= self.ncol,
                r@.len() >= 2,
                r@[0] == corner_cell,
                r@[1] == total_cell,
                self.ncol <= labels@.len(),
                r@.len() == 2 + j - self.col,
                forall|m: int| 0 <= m < j - self.col ==> (#[trigger] r@[m + 2]) == labels@[self.col + m],
            decreases self.ncol - j,
        {
            r.push(labels[j].clone());
            j = j + 1;
        }
        r
    }

    /// The row headings: the labels of the second free axis from the row
    /// offset on, then "Total".
    pub fn rows(&self) -> (r: Vec<String>)
        ensures
            self.wf() && self.row <= self.nrow ==> {
                let labels = self.data->Some_0.set_data@[self.axis1 as int]@;
                &&& r@.len() == self.nrow - self.row + 1
                &&& forall|j: int| 0 <= j < self.nrow - self.row ==> (#[trigger] r@[j]) == labels[self.row + j]
                &&& r@[r@.len() - 1]@ == "Total"@
            },
    {
        let mut r: Vec<String> = Vec::new();
        let d = match &self.data {
            Some(d) => d,
            None => return r,
        };
        if self.axis1 >= d.set_data.len() {
            return r;
        }
        let labels = &d.set_data[self.axis1];
        let start = if self.row < labels.len() { self.row } else { labels.len() };
        let mut j: usize = start;
        while j < labels.len()
            invariant
                start <= j <= labels@.len(),
                start == self.row || start == labels@.len(),
                r@.len() == j - start,
                forall|m: int| 0 <= m < j - start ==> (#[trigger] r@[m]) == labels@[start + m],
            decreases labels@.len() - j,
        {
            r.push(labels[j].clone());
            j = j + 1;
        }
        r.push(String::from_str("Total"));
        r
    }

    /// The widths of the columns on a screen `width` cells wide: 20 for the
    /// row headings, then 9 for each column that still fits with its gap.
    pub fn constraints(&self, width: u16) -> (r: Vec<u16>)
        ensures
            r@.len() >= 1,
            r@[0] == 20,
            forall|j: int| 1 <= j < r@.len() ==> #[trigger] r@[j] == 9,
            fitting_columns(width, (r@.len() - 1) as nat),
    {
        let mut r: Vec<u16> = vec![20u16];
        let mut total: u32 = 21;
        while total + 10 < width as u32
            invariant
                r@.len() >= 1,
                r@[0] == 20,
                forall|j: int| 1 <= j < r@.len() ==> #[trigger] r@[j] == 9,
                total == 21 + 10 * (r@.len() - 1),
                r@.len() == 1 || 31 + 10 * (r@.len() - 2) < width,
                total <= 100000,
            decreases width as u32 - total,
        {
            r.push(9);
            total = total + 10;
        }
        r
    }

    /// Puts the cursor on the first row of the grid.
    pub fn move_top(&mut self)
        ensures
            final(self).selected == if old(self).nrow == 0 { None } else { Some(0usize) },
            final(self).data == old(self).data,
            final(self).active_index == old(self).active_index,
            final(self).axis0 == old(self).axis0,
            final(self).axis1 == old(self).axis1,
            final(self).col == old(self).col,
            final(self).nrow == old(self).nrow,
            final(self).ncol == old(self).ncol,
    {
        if self.nrow == 0 {
            self.selected = None;
        } else {
            self.selected = Some(0);
        }
    }

    /// Puts the cursor on the last row of the grid, the row of totals.
    pub fn move_bottom(&mut self)
        ensures
            final(self).selected == if old(self).nrow == 0 { None } else { Some(old(self).nrow) },
            final(self).data == old(self).data,
            final(self).active_index == old(self).active_index,
            final(self).axis0 == old(self).axis0,
            final(self).axis1 == old(self).axis1,
            final(self).col == old(self).col,
            final(self).nrow == old(self).nrow,
            final(self).ncol == old(self).ncol,
    {
        if self.nrow == 0 {
            self.selected = None;
        } else {
            self.selected = Some(self.nrow);
        }
    }

    /// Moves the cursor down a row, wrapping from the row of totals to the
    /// first row.
    pub fn move_next(&mut self)
        ensures
            final(self).selected == if old(self).nrow == 0 {
                None
            } else {
                Some(row_after(old(self).selected, old(self).nrow))
            },
            final(self).data == old(self).data,
            final(self).active_index == old(self).active_index,
            final(self).axis0 == old(self).axis0,
            final(self).axis1 == old(self).axis1,
            final(self).col == old(self).col,
            final(self).nrow == old(self).nrow,
            final(self).ncol == old(self).ncol,
    {
        if self.nrow == 0 {
            self.selected = None;
        } else {
            let i = match self.selected {
                Some(i) => if i >= self.nrow {
                    0
                } else {
                    i + 1
                },
                None => 0,
            };
            self.selected = Some(i);
        }
    }

    /// Moves the cursor up a row, wrapping from the first row to the row of
    /// totals.
    pub fn move_previous(&mut self)
        ensures
            final(self).selected == if old(self).nrow == 0 {
                None
            } else {
                Some(row_before(old(self).selected, old(self).nrow))
            },
            final(self).data == old(self).data,
            final(self).active_index == old(self).active_index,
            final(self).axis0 == old(self).axis0,
            final(self).axis1 == old(self).axis1,
            final(self).col == old(self).col,
            final(self).nrow == old(self).nrow,
            final(self).ncol == old(self).ncol,
    {
        if self.nrow == 0 {
            self.selected = None;
        } else {
            let i = match self.selected {
                Some(i) => if i == 0 || i > self.nrow {
                    self.nrow
                } else {
                    i - 1
                },
                None => 0,
            };
            self.selected = Some(i);
        }
    }

    /// Scrolls one column right, up to the last column.
    pub fn move_right(&mut self)
        ensures
            final(self).col == if old(self).ncol == 0 {
                0
            } else if old(self).col < old(self).ncol - 1 {
                (old(self).col + 1) as usize
            } else {
                (old(self).ncol - 1) as usize
            },
            final(self).data == old(self).data,
            final(self).active_index == old(self).active_index,
            final(self).axis0 == old(self).axis0,
            final(self).axis1 == old(self).axis1,
            final(self).selected == old(self).selected,
            final(self).nrow == old(self).nrow,
            final(self).ncol == old(self).ncol,
    {
        if self.ncol == 0 {
            self.col = 0;
        } else if self.col < self.ncol - 1 {
            self.col = self.col + 1;
        } else {
            self.col = self.ncol - 1;
        }
    }

    /// Scrolls one column left, down to the first column.
    pub fn move_left(&mut self)
        ensures
            final(self).col == if old(self).col == 0 { 0 } else { (old(self).col - 1) as usize },
            final(self).data == old(self).data,
            final(self).active_index == old(self).active_index,
            final(self).axis0 == old(self).axis0,
            final(self).axis1 == old(self).axis1,
            final(self).selected == old(self).selected,
            final(self).nrow == old(self).nrow,
            final(self).ncol == old(self).ncol,
    {
        if self.col > 0 {
            self.col = self.col - 1;
        }
    }

    /// Scrolls to the first column.
    pub fn move_home(&mut self)
        ensures
            final(self).col == 0,
            final(self).data == old(self).data,
            final(self).active_index == old(self).active_index,
            final(self).axis0 == old(self).axis0,
            final(self).axis1 == old(self).axis1,
            final(self).selected == old(self).selected,
            final(self).nrow == old(self).nrow,
            final(self).ncol == old(self).ncol,
    {
        self.col = 0;
    }

    /// Scrolls to the last column.
    pub fn move_end(&mut self)
        ensures
            final(self).col == if old(self).ncol == 0 { 0 } else { (old(self).ncol - 1) as usize },
            final(self).data == old(self).data,
            final(self).active_index == old(self).active_index,
            final(self).axis0 == old(self).axis0,
            final(self).axis1 == old(self).axis1,
            final(self).selected == old(self).selected,
            final(self).nrow == old(self).nrow,
            final(self).ncol == old(self).ncol,
    {
        if self.ncol == 0 {
            self.col = 0;
        } else {
            self.col = self.ncol - 1;
        }
    }

    /// Moves the first free axis to the next axis, skipping the second free
    /// axis, and scrolls back to the origin.
    pub fn increment_axis0(&mut self)
        ensures
            final(self).axis0 == axis_up(old(self).axis0, old(self).axis1, old(self).active_index@.len() as usize),
            final(self).axis1 == old(self).axis1,
            final(self).row == 0,
            final(self).col == 0,
            final(self).same_but_axes(old(self)),
            old(self).axes_valid() ==> final(self).axes_valid(),
    {
        self.row = 0;
        self.col = 0;
        let n = self.active_index.len();
        let mut a = if n == 0 || self.axis0 >= n - 1 { 0 } else { self.axis0 + 1 };
        if a == self.axis1 {
            a = if n == 0 || a >= n - 1 { 0 } else { a + 1 };
        }
        self.axis0 = a;
    }

    /// Moves the second free axis to the next axis, skipping the first free
    /// axis, and scrolls back to the origin.
    pub fn increment_axis1(&mut self)
        ensures
            final(self).axis1 == axis_up(old(self).axis1, old(self).axis0, old(self).active_index@.len() as usize),
            final(self).axis0 == old(self).axis0,
            final(self).row == 0,
            final(self).col == 0,
            final(self).same_but_axes(old(self)),
            old(self).axes_valid() ==> final(self).axes_valid(),
    {
        self.row = 0;
        self.col = 0;
        let n = self.active_index.len();
        let mut a = if n == 0 || self.axis1 >= n - 1 { 0 } else { self.axis1 + 1 };
        if a == self.axis0 {
            a = if n == 0 || a >= n - 1 { 0 } else { a + 1 };
        }
        self.axis1 = a;
    }

    /// Moves the first free axis to the previous axis, skipping the second
    /// free axis, and scrolls back to the origin.
    pub fn decrement_axis0(&mut self)
        ensures
            final(self).axis0 == axis_down(old(self).axis0, old(self).axis1, old(self).active_index@.len() as usize),
            final(self).axis1 == old(self).axis1,
            final(self).row == 0,
            final(self).col == 0,
            final(self).same_but_axes(old(self)),
            old(self).axes_valid() ==> final(self).axes_valid(),
    {
        self.row = 0;
        self.col = 0;
        let n = self.active_index.len();
        let mut a = if self.axis0 == 0 { if n == 0 { 0 } else { n - 1 } } else { self.axis0 - 1 };
        if a == self.axis1 {
            a = if a == 0 { if n == 0 { 0 } else { n - 1 } } else { a - 1 };
        }
        self.axis0 = a;
    }

    /// Moves the second free axis to the previous axis, skipping the first
    /// free axis, and scrolls back to the origin.
    pub fn decrement_axis1(&mut self)
        ensures
            final(self).axis1 == axis_down(old(self).axis1, old(self).axis0, old(self).active_index@.len() as usize),
            final(self).axis0 == old(self).axis0,
            final(self).row == 0,
            final(self).col == 0,
            final(self).same_but_axes(old(self)),
            old(self).axes_valid() ==> final(self).axes_valid(),
    {
        self.row = 0;
        self.col = 0;
        let n = self.active_index.len();
        let mut a = if self.axis1 == 0 { if n == 0 { 0 } else { n - 1 } } else { self.axis1 - 1 };
        if a == self.axis0 {
            a = if a == 0 { if n == 0 { 0 } else { n - 1 } } else { a - 1 };
        }
        self.axis1 = a;
    }

    /// Moves the pinned index of axis `i` to the next index, wrapping to 0;
    /// does nothing where there is no such axis.
    pub fn increment_index(&mut self, i: usize)
        ensures
            final(self).data == old(self).data,
            final(self).axis0 == old(self).axis0,
            final(self).axis1 == old(self).axis1,
            final(self).col == old(self).col,
            final(self).ncol == old(self).ncol,
            final(self).nrow == old(self).nrow,
            final(self).selected == old(self).selected,
            (i < old(self).active_index@.len() && old(self).data is Some
                && i < old(self).data->Some_0.set_data@.len()) ==> final(self).active_index@
                == old(self).active_index@.update(i as int, index_up(old(self).active_index@[i as int], old(self).extent(i as int))),
            !(i < old(self).active_index@.len() && old(self).data is Some
                && i < old(self).data->Some_0.set_data@.len()) ==> final(self).active_index == old(self).active_index,
            (i < old(self).active_index@.len() && old(self).data is Some
                && i < old(self).data->Some_0.set_data@.len()) ==> index_step(*old(self), i, *final(self)),
            old(self).wf() ==> final(self).wf(),
    {
        let e = match &self.data {
            Some(d) => if i < d.set_data.len() { Some(d.set_data[i].len()) } else { None },
            None => None,
        };
        if let Some(e) = e {
            if i < self.active_index.len() {
                let v = self.active_index[i];
                let next = if e == 0 || v >= e - 1 { 0 } else { v + 1 };
                self.active_index.set(i, next);
            }
        }
    }

    /// Moves the pinned index of axis `i` to the previous index, wrapping to
    /// the last; does nothing where there is no such axis.
    pub fn decrement_index(&mut self, i: usize)
        ensures
            final(self).data == old(self).data,
            final(self).axis0 == old(self).axis0,
            final(self).axis1 == old(self).axis1,
            final(self).col == old(self).col,
            final(self).ncol == old(self).ncol,
            final(self).nrow == old(self).nrow,
            final(self).selected == old(self).selected,
            (i < old(self).active_index@.len() && old(self).data is Some
                && i < old(self).data->Some_0.set_data@.len()) ==> final(self).active_index@
                == old(self).active_index@.update(i as int, index_down(old(self).active_index@[i as int], old(self).extent(i as int))),
            !(i < old(self).active_index@.len() && old(self).data is Some
                && i < old(self).data->Some_0.set_data@.len()) ==> final(self).active_index == old(self).active_index,
            old(self).wf() ==> final(self).wf(),
    {
        let e = match &self.data {
            Some(d) => if i < d.set_data.len() { Some(d.set_data[i].len()) } else { None },
            None => None,
        };
        if let Some(e) = e {
            if i < self.active_index.len() {
                let v = self.active_index[i];
                let prev = if v == 0 { if e == 0 { 0 } else { e - 1 } } else { v - 1 };
                self.active_index.set(i, prev);
            }
        }
    }
}

/// A command that moves one of the free axes.
#[derive(Debug, Clone, Copy, PartialEq, Eq, Structural)]
pub enum AxisCommand {
    Increment0,
    Increment1,
    Decrement0,
    Decrement1,
}

/// The free axes `(axis0, axis1)` after command `c` in a table of `n` axes,
/// as `increment_axis0` and its siblings move them.
pub open spec fn apply_axis_command(axes: (usize, usize), n: usize, c: AxisCommand) -> (usize, usize) {
    match c {
        AxisCommand::Increment0 => (axis_up(axes.0, axes.1, n), axes.1),
        AxisCommand::Increment1 => (axes.0, axis_up(axes.1, axes.0, n)),
        AxisCommand::Decrement0 => (axis_down(axes.0, axes.1, n), axes.1),
        AxisCommand::Decrement1 => (axes.0, axis_down(axes.1, axes.0, n)),
    }
}

/// The free axes after the commands `cs`, in order.
pub open spec fn run_axis_commands(axes: (usize, usize), n: usize, cs: Seq<AxisCommand>) -> (usize, usize)
    decreases cs.len(),
{
    if cs.len() == 0 {
        axes
    } else {
        apply_axis_command(run_axis_commands(axes, n, cs.drop_last()), n, cs.last())
    }
}

/// The pinned index after `k` moves up from `v` along an axis of extent `e`.
pub open spec fn index_up_times(v: usize, e: nat, k: nat) -> usize
    decreases k,
{
    if k == 0 {
        v
    } else {
        index_up(index_up_times(v, e, (k - 1) as nat), e)
    }
}

/// In a table of at least two axes, the two free axes stay two distinct axes
/// of the table whatever sequence of axis moves is applied.
pub proof fn lemma_free_axes_stay_distinct(axes: (usize, usize), n: usize, cs: Seq<AxisCommand>)
    requires
        n >= 2,
        axes.0 < n,
        axes.1 < n,
        axes.0 != axes.1,
    ensures
        run_axis_commands(axes, n, cs).0 != run_axis_commands(axes, n, cs).1,
        run_axis_commands(axes, n, cs).0 < n,
        run_axis_commands(axes, n, cs).1 < n,
    decreases cs.len(),
{
    if cs.len() > 0 {
        lemma_free_axes_stay_distinct(axes, n, cs.drop_last());
    }
}

/// Moving a free axis up and then down again, or down and then up, brings it
/// back to where it was, whether or not the move skipped the other free axis.
pub proof fn lemma_axis_up_down_round_trip(a: usize, other: usize, n: usize)
    requires
        n >= 2,
        a < n,
        other < n,
        a != other,
    ensures
        axis_down(axis_up(a, other, n), other, n) == a,
        axis_up(axis_down(a, other, n), other, n) == a,
{
}

/// Moving a pinned index up as many times as its axis has indices brings it
/// back to where it was.
pub proof fn lemma_index_up_wraps_around(v: usize, e: usize)
    requires
        v < e,
    ensures
        index_up_times(v, e as nat, e as nat) == v,
{
    lemma_index_up_times_below(v, e, (e - 1 - v) as nat);
    assert(index_up_times(v, e as nat, (e - v) as nat) == 0);
    lemma_index_up_times_split(v, e, (e - v) as nat, v as nat);
    lemma_index_up_times_below(0, e, v as nat);
    assert((e - v) + v == e);
}

/// One call of `increment_index(i)` on a view whose axis `i` exists takes
/// view `a` to view `b`: the open table stays and the pinned index of axis
/// `i` moves up by one, wrapping to 0.
pub open spec fn index_step(a: Viewer, i: usize, b: Viewer) -> bool {
    &&& b.data == a.data
    &&& b.active_index@ == a.active_index@.update(i as int, index_up(a.active_index@[i as int], a.extent(i as int)))
}

/// On a well-formed view, calling `increment_index(i)` as many times as axis
/// `i` has indices brings the pinned indices back to where they were.
pub proof fn lemma_index_cycle_returns(vs: Seq<Viewer>, i: usize)
    requires
        vs.len() >= 1,
        vs[0].wf(),
        i < vs[0].active_index@.len(),
        vs.len() == vs[0].extent(i as int) + 1,
        forall|k: int| 0 <= k < vs.len() - 1 ==> #[trigger] index_step(vs[k], i, vs[k + 1]),
    ensures
        vs.last().data == vs[0].data,
        vs.last().active_index@ == vs[0].active_index@,
{
    let d = vs[0].data->Some_0;
    let e = vs[0].extent(i as int);
    assert(d.set_data@[i as int]@.len() == d.shape@[i as int]);
    let eu = d.shape@[i as int];
    let v0 = vs[0].active_index@[i as int];
    if e > 0 {
        lemma_index_cycle_prefix(vs, i, (vs.len() - 1) as nat);
        lemma_index_up_wraps_around(v0, eu);
        assert(vs.last().active_index@ =~= vs[0].active_index@);
    }
}

/// After `k` steps the open table is unchanged and index `i` has moved up
/// `k` times.
proof fn lemma_index_cycle_prefix(vs: Seq<Viewer>, i: usize, k: nat)
    requires
        vs.len() >= 1,
        i < vs[0].active_index@.len(),
        k < vs.len(),
        forall|j: int| 0 <= j < vs.len() - 1 ==> #[trigger] index_step(vs[j], i, vs[j + 1]),
    ensures
        vs[k as int].data == vs[0].data,
        vs[k as int].active_index@ == vs[0].active_index@.update(
            i as int,
            index_up_times(vs[0].active_index@[i as int], vs[0].extent(i as int), k),
        ),
    decreases k,
{
    if k > 0 {
        lemma_index_cycle_prefix(vs, i, (k - 1) as nat);
        let j = k - 1;
        assert(index_step(vs[j], i, vs[j + 1]));
        assert(j + 1 == k as int);
        assert(vs[k as int].active_index@ =~= vs[0].active_index@.update(
            i as int,
            index_up_times(vs[0].active_index@[i as int], vs[0].extent(i as int), k),
        ));
    } else {
        assert(vs[0].active_index@ =~= vs[0].active_index@.update(i as int, vs[0].active_index@[i as int]));
    }
}

/// Below the end of the axis, each move up adds one.
proof fn lemma_index_up_times_below(v: usize, e: usize, k: nat)
    requires
        v + k < e,
    ensures
        index_up_times(v, e as nat, k) == v + k,
    decreases k,
{
    if k > 0 {
        lemma_index_up_times_below(v, e, (k - 1) as nat);
    }
}

/// Moving up `a` times and then `b` times is moving up `a + b` times.
proof fn lemma_index_up_times_split(v: usize, e: usize, a: nat, b: nat)
    ensures
        index_up_times(v, e as nat, a + b) == index_up_times(index_up_times(v, e as nat, a), e as nat, b),
    decreases b,
{
    if b > 0 {
        lemma_index_up_times_split(v, e, a, (b - 1) as nat);
        assert((a + b - 1) as nat == a + (b - 1) as nat);
    }
}

/// The heading of the corner cell: the second free axis's name, a
/// backslash, the first free axis's name.
fn pivot_corner(rows_name: &String, cols_name: &String) -> (r: String)
    ensures
        r@ == rows_name@ + "＼"@ + cols_name@,
{
    let a = rows_name.clone();
    let b = a.concat("＼");
    b.concat(cols_name.as_str())
}

/// A copy of each string.
pub(crate) fn copy_strings(v: &Vec<String>) -> (r: Vec<String>)
    ensures
        r@ == v@,
{
    let mut r: Vec<String> = Vec::new();
    let mut i: usize = 0;
    while i < v.len()
        invariant
            i <= v@.len(),
            r@ == v@.subrange(0, i as int),
        decreases v@.len() - i,
    {
        r.push(v[i].clone());
        i = i + 1;
        assert(r@ =~= v@.subrange(0, i as int));
    }
    assert(r@ =~= v@);
    r
}

/// A copy of each list of labels.
fn copy_labels(v: &Vec<Vec<String>>) -> (r: Vec<Vec<String>>)
    ensures
        r@.len() == v@.len(),
        forall|i: int| 0 <= i < v@.len() ==> (#[trigger] r@[i])@ == v@[i]@,
{
    let mut r: Vec<Vec<String>> = Vec::new();
    let mut i: usize = 0;
    while i < v.len()
        invariant
            i <= v@.len(),
            r@.len() == i,
            forall|k: int| 0 <= k < i ==> (#[trigger] r@[k])@ == v@[k]@,
        decreases v@.len() - i,
    {
        r.push(copy_strings(&v[i]));
        i = i + 1;
    }
    r
}

} // verus!

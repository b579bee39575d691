//! The key bindings shown by the help overlay.
use vstd::prelude::*;
use crate::session::Mode;
use crate::text::texts;

verus! {

/// The bindings of the catalog view, as (keys, action) pairs.
pub open spec fn picker_bindings() -> Seq<Seq<Seq<char>>> {
    seq![
        seq!["j / ↓"@, "Move down"@],
        seq!["k / ↑"@, "Move up"@],
        seq!["PageUp"@, "Go to top"@],
        seq!["PageDown"@, "Go to bottom"@],
        seq!["/"@, "Enter Fuzzy Find Mode"@],
        seq!["ESC"@, "Exit Fuzzy Find Mode"@],
        seq!["Enter"@, "Choose Current Selection"@],
        seq!["r"@, "Reload Data"@],
        seq!["q"@, "Quit"@],
        seq!["?"@, "Open Help"@],
    ]
}

/// The bindings of the pivot view, as (keys, action) pairs.
pub open spec fn viewer_bindings() -> Seq<Seq<Seq<char>>> {
    seq![
        seq!["h / ←"@, "Move left"@],
        seq!["j / ↓"@, "Move down"@],
        seq!["k / ↑"@, "Move up"@],
        seq!["l / →"@, "Move right"@],
        seq!["PageUp"@, "Go to top"@],
        seq!["PageDown"@, "Go to bottom"@],
        seq!["F1 / Shift+F1"@, "Cycle 1st dimension"@],
        seq!["F2 / Shift+F2"@, "Cycle 2nd dimension"@],
        seq!["F3 / Shift+F3"@, "Cycle 3rd dimension"@],
        seq!["F4 / Shift+F4"@, "Cycle 4rd dimension"@],
        seq!["F5 / Shift+F5"@, "Cycle 5th dimension"@],
        seq!["F6 / Shift+F6"@, "Cycle 6th dimension"@],
        seq!["F7 / Shift+F7"@, "Cycle 7th dimension"@],
        seq!["F8 / Shift+F8"@, "Cycle 8th dimension"@],
        seq!["F9 / Shift+F9"@, "Cycle 9th dimension"@],
        seq!["1 / Ctrl+1"@, "Cycle 1st dimension"@],
        seq!["2 / Ctrl+2"@, "Cycle 2nd dimension"@],
        seq!["3 / Ctrl+3"@, "Cycle 3rd dimension"@],
        seq!["4 / Ctrl+4"@, "Cycle 4rd dimension"@],
        seq!["5 / Ctrl+5"@, "Cycle 5th dimension"@],
        seq!["6 / Ctrl+6"@, "Cycle 6th dimension"@],
        seq!["7 / Ctrl+7"@, "Cycle 7th dimension"@],
        seq!["8 / Ctrl+8"@, "Cycle 8th dimension"@],
        seq!["9 / Ctrl+9"@, "Cycle 9th dimension"@],
        seq!["[ / ]"@, "Cycle 1st Axis"@],
        seq!["{ / }"@, "Cycle 2nd Axis"@],
        seq!["s"@, "Select mode"@],
        seq!["v"@, "Toggle current set in Select mode"@],
        seq!["t"@, "Toggle totals"@],
        seq!["."@, "Toggle formatting"@],
        seq!["ESC"@, "Close Viewer"@],
        seq!["?"@, "Open Help"@],
    ]
}

/// The bindings shown for the view the help was opened from.
pub open spec fn bindings_for(mode: Mode) -> Seq<Seq<Seq<char>>> {
    match mode {
        Mode::Picker => picker_bindings(),
        Mode::Viewer(_) => viewer_bindings(),
        _ => Seq::empty(),
    }
}

/// One line of the table: the keys and what they do.
fn key_row(keys: &str, action: &str) -> (r: Vec<String>)
    ensures
        texts(r@) == seq![keys@, action@],
{
    let r = vec![String::from_str(keys), String::from_str(action)];
    assert(texts(r@) =~= seq![keys@, action@]);
    r
}

/// The help overlay: the view it was opened from and its cursor.
#[derive(Debug)]
pub struct Help {
    pub previous_mode: Mode,
    pub selected: Option<usize>,
}

/// The views of a table of lines.
pub open spec fn table_view(r: Seq<Vec<String>>) -> Seq<Seq<Seq<char>>> {
    Seq::new(r.len(), |i: int| texts(r[i]@))
}

impl Help {
    pub fn new(previous_mode: Mode) -> (r: Help)
        ensures
            r.previous_mode == previous_mode,
            r.selected is None,
    {
        Help { previous_mode, selected: None }
    }

    /// The key bindings of the view the help was opened from.
    pub fn items(&self) -> (r: Vec<Vec<String>>)
        ensures
            table_view(r@) == bindings_for(self.previous_mode),
    {
        match self.previous_mode {
            Mode::Picker => {
                let r = vec![
        key_row("j / ↓", "Move down"),
        key_row("k / ↑", "Move up"),
        key_row("PageUp", "Go to top"),
        key_row("PageDown", "Go to bottom"),
        key_row("/", "Enter Fuzzy Find Mode"),
        key_row("ESC", "Exit Fuzzy Find Mode"),
        key_row("Enter", "Choose Current Selection"),
        key_row("r", "Reload Data"),
        key_row("q", "Quit"),
        key_row("?", "Open Help"),
                ];
                assert(table_view(r@) =~= picker_bindings());
                r
            },
            Mode::Viewer(_) => {
                let r = vec![
        key_row("h / ←", "Move left"),
        key_row("j / ↓", "Move down"),
        key_row("k / ↑", "Move up"),
        key_row("l / →", "Move right"),
        key_row("PageUp", "Go to top"),
        key_row("PageDown", "Go to bottom"),
        key_row("F1 / Shift+F1", "Cycle 1st dimension"),
        key_row("F2 / Shift+F2", "Cycle 2nd dimension"),
        key_row("F3 / Shift+F3", "Cycle 3rd dimension"),
        key_row("F4 / Shift+F4", "Cycle 4rd dimension"),
        key_row("F5 / Shift+F5", "Cycle 5th dimension"),
        key_row("F6 / Shift+F6", "Cycle 6th dimension"),
        key_row("F7 / Shift+F7", "Cycle 7th dimension"),
        key_row("F8 / Shift+F8", "Cycle 8th dimension"),
        key_row("F9 / Shift+F9", "Cycle 9th dimension"),
        key_row("1 / Ctrl+1", "Cycle 1st dimension"),
        key_row("2 / Ctrl+2", "Cycle 2nd dimension"),
        key_row("3 / Ctrl+3", "Cycle 3rd dimension"),
        key_row("4 / Ctrl+4", "Cycle 4rd dimension"),
        key_row("5 / Ctrl+5", "Cycle 5th dimension"),
        key_row("6 / Ctrl+6", "Cycle 6th dimension"),
        key_row("7 / Ctrl+7", "Cycle 7th dimension"),
        key_row("8 / Ctrl+8", "Cycle 8th dimension"),
        key_row("9 / Ctrl+9", "Cycle 9th dimension"),
        key_row("[ / ]", "Cycle 1st Axis"),
        key_row("{ / }", "Cycle 2nd Axis"),
        key_row("s", "Select mode"),
        key_row("v", "Toggle current set in Select mode"),
        key_row("t", "Toggle totals"),
        key_row(".", "Toggle formatting"),
        key_row("ESC", "Close Viewer"),
        key_row("?", "Open Help"),
                ];
                assert(table_view(r@) =~= viewer_bindings());
                r
            },
            _ => {
                let r: Vec<Vec<String>> = Vec::new();
                assert(table_view(r@) =~= Seq::<Seq<Seq<char>>>::empty());
                r
            },
        }
    }

    /// Moves the cursor down a line, stopping at the last.
    pub fn next(&mut self)
        ensures
            final(self).previous_mode == old(self).previous_mode,
            final(self).selected == if bindings_for(old(self).previous_mode).len() == 0 {
                None
            } else {
                let last = (bindings_for(old(self).previous_mode).len() - 1) as usize;
                match old(self).selected {
                    Some(i) => Some(if i >= last { last } else { (i + 1) as usize }),
                    None => Some(0usize),
                }
            },
    {
        let n = self.items().len();
        if n == 0 {
            self.selected = None;
        } else {
            let i = match self.selected {
                Some(i) => if i >= n - 1 { n - 1 } else { i + 1 },
                None => 0,
            };
            self.selected = Some(i);
        }
    }

    /// Moves the cursor up a line, stopping at the first.
    pub fn previous(&mut self)
        ensures
            final(self).previous_mode == old(self).previous_mode,
            final(self).selected == if bindings_for(old(self).previous_mode).len() == 0 {
                None
            } else {
                match old(self).selected {
                    Some(i) => Some(if i == 0 { 0usize } else { (i - 1) as usize }),
                    None => Some(0usize),
                }
            },
    {
        let n = self.items().len();
        if n == 0 {
            self.selected = None;
        } else {
            let i = match self.selected {
                Some(i) => if i == 0 { 0 } else { i - 1 },
                None => 0,
            };
            self.selected = Some(i);
        }
    }
}

} // verus!

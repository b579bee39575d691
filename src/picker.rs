//! The catalog view: the list of tables found so far, filtered by a query,
//! with a cursor and marks.
use vstd::prelude::*;
use crate::select::MultipleSelectionListState;
use vstd::std_specs::iter::IteratorSpec;
use crate::table::Data;
use crate::text::{
    contains_text, decimal, decimal_text, is_infix, join, joined, lower_of, lowercase, split_words,
    texts, words_of,
};

verus! {

#[derive(Debug, Clone, Copy, PartialEq, Eq, Structural)]
pub enum Mode {
    Normal,
    Editing,
}

/// The numerals of a shape.
pub open spec fn shape_texts(shape: Seq<usize>) -> Seq<Seq<char>> {
    Seq::new(shape.len(), |i: int| decimal(shape[i] as nat))
}

/// The catalog's line for a table: its quoted name, its dimension names, its
/// shape, its number of dimensions, its units and its documentation.
pub open spec fn catalog_line(d: Data) -> Seq<Seq<char>> {
    seq![
        "'"@ + d.name@ + "'"@,
        joined(texts(d.set_names@), ", "@),
        joined(shape_texts(d.shape@), ", "@),
        decimal(d.ndims as nat),
        d.units@,
        d.doc@,
    ]
}

/// Every word occurs in the name.
pub open spec fn name_matches(words: Seq<Seq<char>>, name: Seq<char>) -> bool {
    forall|k: int| 0 <= k < words.len() ==> is_infix(#[trigger] words[k], name)
}

/// The catalog's lines for the tables whose lower-cased name holds every one
/// of `words`, in the tables' order.
pub open spec fn filtered_lines(ds: Seq<Data>, words: Seq<Seq<char>>) -> Seq<Seq<Seq<char>>>
    decreases ds.len(),
{
    if ds.len() == 0 {
        Seq::empty()
    } else {
        let rest = filtered_lines(ds.drop_last(), words);
        if name_matches(words, lower_of(ds.last().name@)) {
            rest.push(catalog_line(ds.last()))
        } else {
            rest
        }
    }
}

/// The views of a list of lines.
pub open spec fn lines_view(r: Seq<Vec<String>>) -> Seq<Seq<Seq<char>>> {
    Seq::new(r.len(), |i: int| texts(r[i]@))
}

/// The name inside the quotes of a catalog line's first cell.
pub open spec fn unquoted(s: Seq<char>) -> Option<Seq<char>> {
    if s.len() >= 2 && s[0] == '\'' && s.last() == '\'' {
        Some(s.subrange(1, s.len() - 1))
    } else {
        None
    }
}

/// Whether `name` holds every one of `words`.
pub fn matches_words(words: &Vec<String>, name: &str) -> (r: bool)
    ensures
        r == name_matches(texts(words@), name@),
{
    let mut i: usize = 0;
    while i < words.len()
        invariant
            i <= words@.len(),
            forall|k: int| 0 <= k < i ==> is_infix(#[trigger] texts(words@)[k], name@),
        decreases words@.len() - i,
    {
        if !contains_text(name, words[i].as_str()) {
            assert(!is_infix(texts(words@)[i as int], name@));
            return false;
        }
        i = i + 1;
    }
    true
}

/// The numerals of a shape, one per axis.
fn shape_numerals(shape: &Vec<usize>) -> (r: Vec<String>)
    ensures
        texts(r@) == shape_texts(shape@),
{
    let mut r: Vec<String> = Vec::new();
    let mut i: usize = 0;
    while i < shape.len()
        invariant
            i <= shape@.len(),
            texts(r@) == shape_texts(shape@).subrange(0, i as int),
        decreases shape@.len() - i,
    {
        let ghost prev = r@;
        let t = decimal_text(shape[i]);
        r.push(t);
        assert(texts(r@) =~= texts(prev).push(t@));
        i = i + 1;
        assert(texts(r@) =~= shape_texts(shape@).subrange(0, i as int));
    }
    assert(shape_texts(shape@).subrange(0, i as int) =~= shape_texts(shape@));
    r
}

/// The catalog's line for table `d`.
pub fn catalog_row(d: &Data) -> (r: Vec<String>)
    ensures
        texts(r@) == catalog_line(*d),
{
    let quoted = String::from_str("'").concat(d.name.as_str()).concat("'");
    let dims = join(&d.set_names, ", ");
    let shape = join(&shape_numerals(&d.shape), ", ");
    let ndims = decimal_text(d.ndims);
    let r = vec![quoted, dims, shape, ndims, d.units.clone(), d.doc.clone()];
    assert(texts(r@) =~= catalog_line(*d));
    r
}

/// The catalog's lines for the tables whose lower-cased name holds every one
/// of `words`.
pub fn filter_rows(datasets: &Vec<Data>, words: &Vec<String>) -> (r: Vec<Vec<String>>)
    ensures
        lines_view(r@) == filtered_lines(datasets@, texts(words@)),
{
    let mut r: Vec<Vec<String>> = Vec::new();
    let mut i: usize = 0;
    while i < datasets.len()
        invariant
            i <= datasets@.len(),
            lines_view(r@) == filtered_lines(datasets@.subrange(0, i as int), texts(words@)),
        decreases datasets@.len() - i,
    {
        let ghost prev = r@;
        let name = lowercase(datasets[i].name.as_str());
        let keep = matches_words(words, name.as_str());
        if keep {
            r.push(catalog_row(&datasets[i]));
            assert(lines_view(r@) =~= lines_view(prev).push(catalog_line(datasets@[i as int])));
        }
        proof {
            assert(datasets@.subrange(0, i + 1).drop_last() =~= datasets@.subrange(0, i as int));
        }
        i = i + 1;
    }
    assert(datasets@.subrange(0, i as int) =~= datasets@);
    r
}

#[derive(Debug)]
pub struct Picker {
    pub file: String,
    pub selected: Option<usize>,
    pub columns: Vec<String>,
    pub constraints: Vec<u16>,
    pub focus: bool,
    pub bold_first_row_col: bool,
    pub bold_first_row: bool,
    pub marked: MultipleSelectionListState,
    pub groups: Vec<String>,
    pub loading: usize,
    pub mode: Mode,
    pub filtered_items: Vec<Vec<String>>,
    pub page_height: Option<usize>,
}

impl Picker {
    /// A catalog view of the store `file` with nothing listed yet.
    pub fn new(file: String) -> (r: Picker)
        ensures
            r.file == file,
            r.selected is None,
            r.filtered_items@.len() == 0,
            r.marked@ == Set::<usize>::empty(),
            r.mode == Mode::Normal,
    {
        Picker {
            file,
            selected: None,
            columns: Vec::new(),
            constraints: Vec::new(),
            focus: false,
            bold_first_row_col: false,
            bold_first_row: false,
            marked: MultipleSelectionListState::new(),
            groups: Vec::new(),
            loading: 0,
            mode: Mode::Normal,
            filtered_items: Vec::new(),
            page_height: None,
        }
    }

    /// Takes the focus and sets up the headings for a catalog of
    /// `n_datasets` tables.
    pub fn init(&mut self, n_datasets: usize)
        ensures
            final(self).bold_first_row,
            final(self).focus == (old(self).mode == Mode::Normal),
            final(self).selected == if n_datasets > 0 {
                if old(self).selected is None { Some(0usize) } else { old(self).selected }
            } else {
                None
            },
    {
        self.focus = true;
        self.bold_first_row = true;
        self.refresh(n_datasets);
    }

    /// Lists the tables of `datasets` whose lower-cased name holds every word
    /// of the lower-cased query `filter`.
    pub fn tick(&mut self, datasets: &Vec<Data>, filter: &str)
        ensures
            lines_view(final(self).filtered_items@) == filtered_lines(datasets@, words_of(lower_of(filter@))),
            final(self).selected == old(self).selected,
            final(self).marked@ == old(self).marked@,
    {
        let query = lowercase(filter);
        let words = split_words(query.as_str());
        self.filtered_items = filter_rows(datasets, &words);
    }

    /// Clears the cursor and the headings, and takes the focus.
    pub fn reset(&mut self)
        ensures
            final(self).selected is None,
            final(self).columns@.len() == 0,
            final(self).constraints@.len() == 0,
            final(self).focus,
            final(self).filtered_items == old(self).filtered_items,
    {
        self.selected = None;
        self.columns = Vec::new();
        self.constraints = Vec::new();
        self.focus = true;
    }

    pub fn contains(&self, i: usize) -> (r: bool)
        ensures
            r == self.marked@.contains(i),
    {
        self.marked.contains(i)
    }

    /// The marked lines, in no particular order, each once.
    pub fn marked(&self) -> (r: std::collections::hash_set::Iter<'_, usize>)
        ensures
            r.remaining().unref().to_set() == self.marked@,
            r.remaining().unref().no_duplicates(),
    {
        self.marked.marked()
    }

    pub fn mark(&mut self, index: Option<usize>)
        ensures
            final(self).marked@ == match index {
                Some(i) => old(self).marked@.insert(i),
                None => old(self).marked@,
            },
            final(self).selected == old(self).selected,
    {
        self.marked.mark(index);
    }

    pub fn unmark(&mut self, index: Option<usize>)
        ensures
            final(self).marked@ == match index {
                Some(i) => old(self).marked@.remove(i),
                None => old(self).marked@,
            },
            final(self).selected == old(self).selected,
    {
        self.marked.unmark(index);
    }

    pub fn toggle(&mut self, index: Option<usize>)
        ensures
            final(self).marked@ == match index {
                Some(i) => if old(self).marked@.contains(i) {
                    old(self).marked@.remove(i)
                } else {
                    old(self).marked@.insert(i)
                },
                None => old(self).marked@,
            },
            final(self).selected == old(self).selected,
    {
        self.marked.toggle(index);
    }

    pub fn clear(&mut self)
        ensures
            final(self).marked@ == Set::<usize>::empty(),
            final(self).selected == old(self).selected,
    {
        self.marked.clear();
    }

    /// Puts the cursor on the first line.
    pub fn top(&mut self)
        ensures
            final(self).selected == if old(self).filtered_items@.len() == 0 { None } else { Some(0usize) },
            final(self).filtered_items == old(self).filtered_items,
    {
        if self.filtered_items.len() == 0 {
            self.selected = None;
        } else {
            self.selected = Some(0);
        }
    }

    /// Puts the cursor on the last line.
    pub fn bottom(&mut self)
        ensures
            final(self).selected == if old(self).filtered_items@.len() == 0 {
                None
            } else {
                Some((old(self).filtered_items@.len() - 1) as usize)
            },
            final(self).filtered_items == old(self).filtered_items,
    {
        if self.filtered_items.len() == 0 {
            self.selected = None;
        } else {
            self.selected = Some(self.filtered_items.len() - 1);
        }
    }

    /// Moves the cursor a page up, stopping at the first line.
    pub fn page_up(&mut self)
        ensures
            final(self).selected == if old(self).filtered_items@.len() == 0 {
                None
            } else {
                match (old(self).selected, old(self).page_height) {
                    (Some(s), Some(h)) => Some(if s >= h { (s - h) as usize } else { 0usize }),
                    _ => Some(0usize),
                }
            },
            final(self).filtered_items == old(self).filtered_items,
    {
        if self.filtered_items.len() == 0 {
            self.selected = None;
        } else {
            let s = match (self.selected, self.page_height) {
                (Some(s), Some(h)) => if s >= h { s - h } else { 0 },
                _ => 0,
            };
            self.selected = Some(s);
        }
    }

    /// Moves the cursor a page down, stopping at the last line.
    pub fn page_down(&mut self)
        ensures
            final(self).selected == if old(self).filtered_items@.len() == 0 {
                None
            } else {
                let last = (old(self).filtered_items@.len() - 1) as usize;
                match (old(self).selected, old(self).page_height) {
                    (Some(s), Some(h)) => Some(if s + h <= last { (s + h) as usize } else { last }),
                    _ => Some(last),
                }
            },
            final(self).filtered_items == old(self).filtered_items,
    {
        if self.filtered_items.len() == 0 {
            self.selected = None;
        } else {
            let last = self.filtered_items.len() - 1;
            let s = match (self.selected, self.page_height) {
                (Some(s), Some(h)) => if s <= last && h <= last - s { s + h } else { last },
                _ => last,
            };
            self.selected = Some(s);
        }
    }

    /// Moves the cursor down a line, wrapping from the last to the first.
    pub fn next(&mut self)
        ensures
            final(self).selected == if old(self).filtered_items@.len() == 0 {
                None
            } else {
                match old(self).selected {
                    Some(i) => Some(if i >= old(self).filtered_items@.len() - 1 { 0usize } else { (i + 1) as usize }),
                    None => Some(0usize),
                }
            },
            final(self).filtered_items == old(self).filtered_items,
    {
        if self.filtered_items.len() == 0 {
            self.selected = None;
        } else {
            let i = match self.selected {
                Some(i) => if i >= self.filtered_items.len() - 1 { 0 } else { i + 1 },
                None => 0,
            };
            self.selected = Some(i);
        }
    }

    /// Moves the cursor up a line, wrapping from the first to the last.
    pub fn previous(&mut self)
        ensures
            final(self).selected == if old(self).filtered_items@.len() == 0 {
                None
            } else {
                match old(self).selected {
                    Some(i) => Some(if i == 0 { (old(self).filtered_items@.len() - 1) as usize } else { (i - 1) as usize }),
                    None => Some(0usize),
                }
            },
            final(self).filtered_items == old(self).filtered_items,
    {
        if self.filtered_items.len() == 0 {
            self.selected = None;
        } else {
            let i = match self.selected {
                Some(i) => if i == 0 { self.filtered_items.len() - 1 } else { i - 1 },
                None => 0,
            };
            self.selected = Some(i);
        }
    }

    /// A copy of the listed lines.
    pub fn filtered_items(&self) -> (r: Vec<Vec<String>>)
        ensures
            lines_view(r@) == lines_view(self.filtered_items@),
    {
        let mut r: Vec<Vec<String>> = Vec::new();
        let mut i: usize = 0;
        while i < self.filtered_items.len()
            invariant
                i <= self.filtered_items@.len(),
                r@.len() == i,
                forall|k: int| 0 <= k < i ==> texts((#[trigger] r@[k])@) == texts(self.filtered_items@[k]@),
            decreases self.filtered_items@.len() - i,
        {
            r.push(crate::viewer::copy_strings(&self.filtered_items[i]));
            i = i + 1;
        }
        assert(lines_view(r@) =~= lines_view(self.filtered_items@));
        r
    }

    /// Sets the headings and widths of the catalog's columns, puts the cursor
    /// on the first line where there was none and `n_datasets` tables are
    /// known, and takes the focus in normal mode.
    pub fn refresh(&mut self, n_datasets: usize)
        ensures
            texts(final(self).columns@) == seq!["Name"@, "Dims"@, "Shape"@, "N"@, "Units"@, "Documentation"@],
            final(self).constraints@ == seq![20u16, 25u16, 15u16, 5u16, 5u16, 20u16],
            final(self).selected == if n_datasets > 0 {
                if old(self).selected is None { Some(0usize) } else { old(self).selected }
            } else {
                None
            },
            final(self).focus == (old(self).mode == Mode::Normal),
            final(self).mode == old(self).mode,
            final(self).filtered_items == old(self).filtered_items,
            final(self).bold_first_row == old(self).bold_first_row,
    {
        self.columns = vec![
            String::from_str("Name"),
            String::from_str("Dims"),
            String::from_str("Shape"),
            String::from_str("N"),
            String::from_str("Units"),
            String::from_str("Documentation"),
        ];
        assert(texts(self.columns@) =~= seq!["Name"@, "Dims"@, "Shape"@, "N"@, "Units"@, "Documentation"@]);
        self.constraints = vec![20, 25, 15, 5, 5, 20];
        assert(self.constraints@ =~= seq![20u16, 25u16, 15u16, 5u16, 5u16, 20u16]);
        if n_datasets > 0 {
            if self.selected.is_none() {
                self.selected = Some(0);
            }
        } else {
            self.selected = None;
        }
        self.focus = match self.mode {
            Mode::Normal => true,
            Mode::Editing => false,
        };
    }

    /// The position in `datasets` of the table on line `selection`; `None`
    /// where there is no such line or no such table.
    pub fn select(&self, selection: usize, datasets: &Vec<Data>) -> (r: Option<usize>)
        ensures
            match r {
                Some(i) => {
                    &&& selection < self.filtered_items@.len()
                    &&& self.filtered_items@[selection as int]@.len() > 0
                    &&& unquoted(self.filtered_items@[selection as int]@[0]@) == Some(datasets@[i as int].name@)
                    &&& i < datasets@.len()
                    &&& forall|k: int| 0 <= k < i ==> Some((#[trigger] datasets@[k]).name@) != unquoted(
                        self.filtered_items@[selection as int]@[0]@)
                },
                None => selection >= self.filtered_items@.len() || self.filtered_items@[selection as int]@.len() == 0
                    || unquoted(self.filtered_items@[selection as int]@[0]@) is None
                    || forall|k: int| 0 <= k < datasets@.len() ==> Some((#[trigger] datasets@[k]).name@) != unquoted(
                        self.filtered_items@[selection as int]@[0]@),
            },
    {
        if selection >= self.filtered_items.len() || self.filtered_items[selection].len() == 0 {
            return None;
        }
        let first = self.filtered_items[selection][0].as_str();
        let n = first.unicode_len();
        if n < 2 || first.get_char(0) != '\'' || first.get_char(n - 1) != '\'' {
            return None;
        }
        let name = first.substring_char(1, n - 1);
        let ghost target = unquoted(first@);
        let mut i: usize = 0;
        while i < datasets.len()
            invariant
                i <= datasets@.len(),
                target == Some(name@),
                selection < self.filtered_items@.len(),
                self.filtered_items@[selection as int]@.len() > 0,
                first@ == self.filtered_items@[selection as int]@[0]@,
                target == unquoted(first@),
                forall|k: int| 0 <= k < i ==> Some((#[trigger] datasets@[k]).name@) != target,
            decreases datasets@.len() - i,
        {
            if str_eq(datasets[i].name.as_str(), name) {
                return Some(i);
            }
            i = i + 1;
        }
        None
    }
}

/// Whether the two strings hold the same characters.
fn str_eq(a: &str, b: &str) -> (r: bool)
    ensures
        r == (a@ == b@),
{
    let n = a.unicode_len();
    if n != b.unicode_len() {
        return false;
    }
    let mut i: usize = 0;
    while i < n
        invariant
            i <= n,
            n == a@.len(),
            n == b@.len(),
            forall|k: int| 0 <= k < i ==> a@[k] == b@[k],
        decreases n - i,
    {
        if a.get_char(i) != b.get_char(i) {
            return false;
        }
        i = i + 1;
    }
    assert(a@ =~= b@);
    true
}

} // verus!

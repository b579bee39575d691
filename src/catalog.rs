//! The catalog scan: a state machine that a background task drives, one
//! table at a time, while the interactive side reads its progress.
use vstd::prelude::*;
use crate::table::{Data, TableError};
use crate::text::texts;

verus! {

broadcast use vstd::seq_lib::group_seq_properties;

/// Where a scan stands.
#[derive(Debug, Clone, Copy, PartialEq, Eq, Structural)]
pub enum ScanState {
    Idle,
    Scanning,
    Completed,
    Cancelled,
}

/// The qualified name `group/table`.
pub open spec fn qualified(group: Seq<char>, table: Seq<char>) -> Seq<char> {
    group + "/"@ + table
}

/// Every `group/table` name of a store, group by group in the store's order.
pub open spec fn all_qualified(groups: Seq<(String, Vec<String>)>) -> Seq<Seq<char>> {
    Seq::new(
        groups.len(),
        |i: int| Seq::new(groups[i].1@.len(), |j: int| qualified(groups[i].0@, groups[i].1@[j]@)),
    ).flatten()
}

/// The names of every table in a store, as `group/table`, from each group's
/// name and the names of its tables.
pub fn qualified_names(groups: &Vec<(String, Vec<String>)>) -> (r: Vec<String>)
    ensures
        texts(r@) == all_qualified(groups@),
{
    let ghost parts = Seq::new(
        groups@.len(),
        |i: int| Seq::new(groups@[i].1@.len(), |j: int| qualified(groups@[i].0@, groups@[i].1@[j]@)),
    );
    let mut r: Vec<String> = Vec::new();
    let mut i: usize = 0;
    while i < groups.len()
        invariant
            i <= groups@.len(),
            parts == Seq::new(
                groups@.len(),
                |i: int| Seq::new(groups@[i].1@.len(), |j: int| qualified(groups@[i].0@, groups@[i].1@[j]@)),
            ),
            texts(r@) == parts.subrange(0, i as int).flatten(),
        decreases groups@.len() - i,
    {
        let group = &groups[i].0;
        let tables = &groups[i].1;
        let ghost before = texts(r@);
        let mut j: usize = 0;
        while j < tables.len()
            invariant
                j <= tables@.len(),
                i < groups@.len(),
                group == groups@[i as int].0,
                tables == groups@[i as int].1,
                texts(r@) == before + parts[i as int].subrange(0, j as int),
                parts[i as int] == Seq::new(tables@.len(), |j: int| qualified(group@, tables@[j]@)),
            decreases tables@.len() - j,
        {
            let name = group.clone().concat("/").concat(tables[j].as_str());
            let ghost prev = r@;
            r.push(name);
            proof {
                assert(texts(r@) =~= texts(prev).push(name@));
                assert(parts[i as int].subrange(0, j + 1) =~= parts[i as int].subrange(0, j as int).push(parts[i as int][j as int]));
                assert(texts(r@) =~= before + parts[i as int].subrange(0, j + 1));
            }
            j = j + 1;
        }
        proof {
            assert(parts[i as int].subrange(0, j as int) =~= parts[i as int]);
            assert(parts.subrange(0, i + 1) =~= parts.subrange(0, i as int).push(parts[i as int]));
            parts.subrange(0, i as int).lemma_flatten_push(parts[i as int]);
        }
        i = i + 1;
    }
    proof {
        assert(parts.subrange(0, i as int) =~= parts);
    }
    r
}

/// A scan of a store's tables.
///
/// `names` lists every table to open, `next` how many have been tried, and
/// `datasets` the ones that opened, in discovery order. `ndatasets` is the
/// total: the number of tables the scan tries, known before any is opened and
/// kept for the whole scan. A table that fails to open lowers the completed
/// count, `datasets@.len()`, but not the total.
#[derive(Debug)]
pub struct CatalogScan {
    pub state: ScanState,
    pub names: Vec<String>,
    pub next: usize,
    pub datasets: Vec<Data>,
    pub ndatasets: usize,
}

impl CatalogScan {
    pub open spec fn wf(&self) -> bool {
        &&& self.next <= self.names@.len()
        &&& self.ndatasets == self.names@.len()
        &&& self.state == ScanState::Scanning ==> self.next < self.names@.len()
        &&& self.datasets@.len() <= self.next
    }

    /// A scan that has not started.
    pub fn new() -> (r: CatalogScan)
        ensures
            r.wf(),
            r.state == ScanState::Idle,
            r.datasets@.len() == 0,
            r.ndatasets == 0,
    {
        CatalogScan { state: ScanState::Idle, names: Vec::new(), next: 0, datasets: Vec::new(), ndatasets: 0 }
    }

    /// Whether a scan is under way; a new one may only start once it has
    /// ended.
    pub fn is_scanning(&self) -> (r: bool)
        ensures
            r == (self.state == ScanState::Scanning),
    {
        self.state == ScanState::Scanning
    }

    /// Starts a scan of the tables `names`, with an empty collection and the
    /// total known before any table is opened. Refused, leaving everything as
    /// it was, while a scan is under way.
    pub fn start(&mut self, names: Vec<String>) -> (r: bool)
        requires
            old(self).wf(),
        ensures
            final(self).wf(),
            r == (old(self).state != ScanState::Scanning),
            !r ==> *final(self) == *old(self),
            r ==> {
                &&& final(self).datasets@.len() == 0
                &&& final(self).names == names
                &&& final(self).next == 0
                &&& final(self).state == if names@.len() == 0 {
                    ScanState::Completed
                } else {
                    ScanState::Scanning
                }
                &&& final(self).ndatasets == names@.len()
            },
    {
        if self.state == ScanState::Scanning {
            return false;
        }
        self.datasets = Vec::new();
        self.next = 0;
        self.ndatasets = names.len();
        if names.len() == 0 {
            self.state = ScanState::Completed;
        } else {
            self.state = ScanState::Scanning;
        }
        self.names = names;
        true
    }

    /// The next table to open, while the scan is under way.
    pub fn pending(&self) -> (r: Option<String>)
        requires
            self.wf(),
        ensures
            self.state == ScanState::Scanning ==> r == Some(self.names@[self.next as int]),
            self.state != ScanState::Scanning ==> r is None,
    {
        if self.state == ScanState::Scanning {
            Some(self.names[self.next].clone())
        } else {
            None
        }
    }

    /// Records the outcome of opening the pending table: a table that opened
    /// is appended, one that did not is skipped. The scan ends when
    /// `cancelled` holds or when no table is left.
    pub fn record(&mut self, outcome: Result<Data, TableError>, cancelled: bool)
        requires
            old(self).wf(),
        ensures
            final(self).wf(),
            old(self).state != ScanState::Scanning ==> *final(self) == *old(self),
            old(self).state == ScanState::Scanning ==> {
                &&& final(self).names == old(self).names
                &&& final(self).ndatasets == old(self).ndatasets
                &&& final(self).next == old(self).next + 1
                &&& final(self).datasets@ == match outcome {
                    Ok(d) => old(self).datasets@.push(d),
                    Err(_) => old(self).datasets@,
                }
                &&& final(self).state == if cancelled {
                    ScanState::Cancelled
                } else if final(self).next == old(self).names@.len() {
                    ScanState::Completed
                } else {
                    ScanState::Scanning
                }
            },
    {
        if self.state != ScanState::Scanning {
            return;
        }
        match outcome {
            Ok(d) => self.datasets.push(d),
            Err(_) => {},
        }
        self.next = self.next + 1;
        if cancelled {
            self.state = ScanState::Cancelled;
        } else if self.next == self.names.len() {
            self.state = ScanState::Completed;
        }
    }

    /// The store could not be opened: the scan ends at once.
    pub fn store_unavailable(&mut self)
        requires
            old(self).wf(),
        ensures
            final(self).wf(),
            final(self).state == ScanState::Cancelled,
            final(self).datasets == old(self).datasets,
            final(self).names == old(self).names,
            final(self).ndatasets == old(self).ndatasets,
    {
        self.state = ScanState::Cancelled;
    }

    /// The number of tables indexed so far and the number the scan tries.
    pub fn progress(&self) -> (r: (usize, usize))
        requires
            self.wf(),
        ensures
            r == (self.datasets@.len() as usize, self.names@.len() as usize),
    {
        (self.datasets.len(), self.ndatasets)
    }

    /// The number of tables that opened so far.
    pub fn completed_count(&self) -> (r: usize)
        ensures
            r == self.datasets@.len(),
    {
        self.datasets.len()
    }
}

} // verus!

//! The header of the pivot view: one line per dimension with its current
//! coordinate.
use vstd::prelude::*;
use crate::table::Data;

verus! {

/// The label at `index` of axis `i`, or an empty label where there is none.
pub open spec fn label_at(d: Data, i: int, index: int) -> Seq<char> {
    if 0 <= index < d.set_data@[i]@.len() {
        d.set_data@[i]@[index]@
    } else {
        Seq::<char>::empty()
    }
}

#[derive(Debug)]
pub struct Summary {
    pub scroll: u16,
    pub name: String,
    pub doc: String,
    pub kvs: Vec<(String, String)>,
    pub kis: Vec<usize>,
    pub total_indices: Vec<usize>,
    pub axis0: usize,
    pub axis1: usize,
}

impl Summary {
    /// The header describes table `d` at the coordinates `indices`, with
    /// `axis0` and `axis1` as the free axes: for each dimension its name, the
    /// label at its index, the index and the extent.
    pub open spec fn describes(&self, d: Data, indices: Seq<usize>, axis0: usize, axis1: usize) -> bool {
        &&& self.name@ == d.name@
        &&& self.doc@ == d.doc@
        &&& self.axis0 == axis0
        &&& self.axis1 == axis1
        &&& self.kvs@.len() == d.set_names@.len()
        &&& self.kis@.len() == d.set_names@.len()
        &&& self.total_indices@.len() == d.set_names@.len()
        &&& forall|i: int| 0 <= i < d.set_names@.len() ==> {
            &&& (#[trigger] self.kvs@[i]).0@ == d.set_names@[i]@
            &&& self.kvs@[i].1@ == label_at(d, i, indices[i] as int)
            &&& self.kis@[i] == indices[i]
            &&& self.total_indices@[i] == d.set_data@[i]@.len()
        }
    }

    pub fn new() -> (r: Summary)
        ensures
            r.kvs@.len() == 0,
            r.kis@.len() == 0,
            r.total_indices@.len() == 0,
    {
        Summary {
            scroll: 0,
            name: String::new(),
            doc: String::new(),
            kvs: Vec::new(),
            kis: Vec::new(),
            total_indices: Vec::new(),
            axis0: 0,
            axis1: 0,
        }
    }

    /// Describes table `d` at the coordinates `indices`, with `axis0` and
    /// `axis1` as the free axes: for each dimension its name, the label at its
    /// index, the index and the extent.
    pub fn refresh(&mut self, d: &Data, indices: &Vec<usize>, axis0: usize, axis1: usize)
        requires
            d.set_data@.len() >= d.set_names@.len(),
            indices@.len() >= d.set_names@.len(),
        ensures
            final(self).scroll == old(self).scroll,
            final(self).describes(*d, indices@, axis0, axis1),
    {
        let mut kvs: Vec<(String, String)> = Vec::new();
        let mut kis: Vec<usize> = Vec::new();
        let mut total_indices: Vec<usize> = Vec::new();
        let n = d.set_names.len();
        let mut i: usize = 0;
        while i < n
            invariant
                i <= n,
                n == d.set_names@.len(),
                d.set_data@.len() >= n,
                indices@.len() >= n,
                kvs@.len() == i,
                kis@.len() == i,
                total_indices@.len() == i,
                forall|k: int| 0 <= k < i ==> {
                    &&& (#[trigger] kvs@[k]).0@ == d.set_names@[k]@
                    &&& kvs@[k].1@ == label_at(*d, k, indices@[k] as int)
                    &&& kis@[k] == indices@[k]
                    &&& total_indices@[k] == d.set_data@[k]@.len()
                },
            decreases n - i,
        {
            let labels = &d.set_data[i];
            let index = indices[i];
            let label = if index < labels.len() {
                labels[index].clone()
            } else {
                String::new()
            };
            kvs.push((d.set_names[i].clone(), label));
            kis.push(index);
            total_indices.push(labels.len());
            i = i + 1;
        }
        self.kvs = kvs;
        self.kis = kis;
        self.total_indices = total_indices;
        self.name = d.name.clone();
        self.doc = d.doc.clone();
        self.axis0 = axis0;
        self.axis1 = axis1;
    }
}

} // verus!

//! Table metadata: the names, units and coordinate labels of one table.
use vstd::prelude::*;

verus! {

/// Why a table could not be opened.
#[derive(Debug, Clone, Copy, PartialEq, Eq, Structural)]
pub enum TableError {
    /// A required attribute or a per-axis coordinate table is absent.
    MetadataMissing,
    /// The coordinate labels disagree with the declared shape.
    ShapeMismatch,
}

/// The attributes of a table as the store hands them over; `None` where the
/// store has no such attribute.
#[derive(Debug)]
pub struct TableAttributes {
    pub units: Option<String>,
    pub doc: Option<String>,
    pub typ: Option<String>,
    pub dims: Option<Vec<String>>,
}

/// The metadata of one table.
///
/// Axis 0 is the slowest-varying dimension as a reader sees it, which is the
/// last dimension of the store's own order.
#[derive(Debug, Clone)]
pub struct Data {
    pub name: String,
    pub doc: String,
    pub units: String,
    pub set_names: Vec<String>,
    pub ndims: usize,
    pub typ: String,
    pub shape: Vec<usize>,
    pub set_data: Vec<Vec<String>>,
}

/// The store's shape read in the opposite order.
pub open spec fn reversed(s: Seq<usize>) -> Seq<usize> {
    Seq::new(s.len(), |i: int| s[s.len() - 1 - i])
}

/// Every axis has one label per index along it.
pub open spec fn labels_match_shape(labels: Seq<Vec<String>>, shape: Seq<usize>) -> bool {
    &&& labels.len() == shape.len()
    &&& forall|i: int| 0 <= i < shape.len() ==> #[trigger] labels[i]@.len() == shape[i]
}

/// Whether every entry of the sequence is present.
pub open spec fn all_present(s: Seq<Option<Vec<String>>>) -> bool {
    forall|i: int| 0 <= i < s.len() ==> #[trigger] s[i] is Some
}

/// The labels of every axis, once all of them are present.
pub open spec fn unwrapped(s: Seq<Option<Vec<String>>>) -> Seq<Vec<String>> {
    Seq::new(s.len(), |i: int| s[i]->Some_0)
}

impl Data {
    /// The invariant of a table's metadata.
    pub open spec fn wf(&self) -> bool {
        &&& self.ndims >= 1
        &&& self.ndims == self.shape@.len()
        &&& self.set_names@.len() == self.ndims
        &&& labels_match_shape(self.set_data@, self.shape@)
    }

    /// Assembles a table's metadata from what the store holds for it:
    /// `storage_shape` is the shape in the store's order and `labels` holds,
    /// for each name in `attrs.dims`, that axis's coordinate labels.
    pub fn new(
        name: String,
        attrs: TableAttributes,
        storage_shape: Vec<usize>,
        labels: Vec<Option<Vec<String>>>,
    ) -> (r: Result<Data, TableError>)
        ensures
            (attrs.units is None || attrs.doc is None || attrs.typ is None || attrs.dims is None
                || !all_present(labels@)) ==> r == Err::<Data, TableError>(TableError::MetadataMissing),
            (attrs.units is Some && attrs.doc is Some && attrs.typ is Some && attrs.dims is Some
                && all_present(labels@)) ==> {
                let ok = storage_shape@.len() >= 1
                    && attrs.dims->Some_0@.len() == storage_shape@.len()
                    && labels_match_shape(unwrapped(labels@), reversed(storage_shape@));
                &&& ok ==> (r matches Ok(d) && {
                    &&& d.wf()
                    &&& d.name == name
                    &&& d.units == attrs.units->Some_0
                    &&& d.doc == attrs.doc->Some_0
                    &&& d.typ == attrs.typ->Some_0
                    &&& d.set_names == attrs.dims->Some_0
                    &&& d.ndims == storage_shape@.len()
                    &&& d.shape@ == reversed(storage_shape@)
                    &&& d.set_data@ == unwrapped(labels@)
                })
                &&& !ok ==> r == Err::<Data, TableError>(TableError::ShapeMismatch)
            },
    {
        let units = match attrs.units {
            Some(u) => u,
            None => return Err(TableError::MetadataMissing),
        };
        let doc = match attrs.doc {
            Some(d) => d,
            None => return Err(TableError::MetadataMissing),
        };
        let typ = match attrs.typ {
            Some(t) => t,
            None => return Err(TableError::MetadataMissing),
        };
        let set_names = match attrs.dims {
            Some(d) => d,
            None => return Err(TableError::MetadataMissing),
        };
        let ghost all = labels@;
        let mut set_data: Vec<Vec<String>> = Vec::new();
        let mut rest = labels;
        while rest.len() > 0
            invariant
                all == labels@,
                set_data@.len() + rest@.len() == all.len(),
                rest@ == all.subrange(set_data@.len() as int, all.len() as int),
                forall|k: int| 0 <= k < set_data@.len() ==> all[k] == Some(#[trigger] set_data@[k]),
            decreases rest.len(),
        {
            match rest.remove(0) {
                Some(l) => set_data.push(l),
                None => {
                    proof {
                        assert(all[set_data@.len() as int] is None);
                        assert(!all_present(all));
                    }
                    return Err(TableError::MetadataMissing);
                },
            }
        }
        proof {
            assert forall|k: int| 0 <= k < all.len() implies #[trigger] all[k] is Some by {
                assert(all[k] == Some(set_data@[k]));
            }
            assert(all_present(all));
            assert(set_data@ =~= unwrapped(all));
        }
        let shape = view_shape(&storage_shape);
        let ndims = storage_shape.len();
        if ndims == 0 || set_names.len() != ndims || set_data.len() != ndims {
            return Err(TableError::ShapeMismatch);
        }
        let mut i: usize = 0;
        while i < ndims
            invariant
                i <= ndims,
                ndims == shape@.len(),
                ndims == set_data@.len(),
                all == labels@,
                attrs.units is Some && attrs.doc is Some && attrs.typ is Some && attrs.dims is Some,
                all_present(all),
                set_data@ == unwrapped(all),
                shape@ == reversed(storage_shape@),
                ndims == storage_shape@.len(),
                forall|k: int| 0 <= k < i ==> #[trigger] set_data@[k]@.len() == shape@[k],
            decreases ndims - i,
        {
            if set_data[i].len() != shape[i] {
                return Err(TableError::ShapeMismatch);
            }
            i = i + 1;
        }
        Ok(Data { name, doc, units, set_names, ndims, typ, shape, set_data })
    }
}

/// The number of indices in a range.
pub open spec fn range_len(r: std::ops::Range<usize>) -> nat {
    if r.end > r.start {
        (r.end - r.start) as nat
    } else {
        0
    }
}

/// The points `(x, y)` of `range_x` by `range_y`, `x` outermost.
pub open spec fn grid_points(range_x: std::ops::Range<usize>, range_y: std::ops::Range<usize>) -> Seq<(usize, usize)> {
    Seq::new(
        range_len(range_x),
        |i: int| Seq::new(range_len(range_y), |j: int| ((range_x.start + i) as usize, (range_y.start + j) as usize)),
    ).flatten()
}

impl Data {
    /// Every point of `range_x` by `range_y`, `x` outermost: the points a
    /// read of that block of the table covers.
    pub fn selection(&self, range_x: std::ops::Range<usize>, range_y: std::ops::Range<usize>) -> (r: Vec<(usize, usize)>)
        ensures
            r@ == grid_points(range_x, range_y),
    {
        let ghost rows = Seq::new(
            range_len(range_x),
            |i: int| Seq::new(range_len(range_y), |j: int| ((range_x.start + i) as usize, (range_y.start + j) as usize)),
        );
        let mut points: Vec<(usize, usize)> = Vec::new();
        let mut x: usize = range_x.start;
        while x < range_x.end
            invariant
                range_x.start <= x,
                x < range_x.end ==> x - range_x.start <= range_len(range_x),
                x >= range_x.end ==> x == range_x.start || x == range_x.end,
                rows == Seq::new(
                    range_len(range_x),
                    |i: int| Seq::new(range_len(range_y), |j: int| ((range_x.start + i) as usize, (range_y.start + j) as usize)),
                ),
                points@ == rows.subrange(0, x - range_x.start).flatten(),
            decreases range_x.end - x,
        {
            let ghost before = points@;
            let ghost i = x - range_x.start;
            let mut y: usize = range_y.start;
            while y < range_y.end
                invariant
                    range_y.start <= y,
                    y >= range_y.end ==> y == range_y.start || y == range_y.end,
                    x < range_x.end,
                    i == x - range_x.start,
                    i < rows.len(),
                    rows[i] == Seq::new(range_len(range_y), |j: int| ((range_x.start + i) as usize, (range_y.start + j) as usize)),
                    points@ == before + rows[i].subrange(0, y - range_y.start),
                decreases range_y.end - y,
            {
                points.push((x, y));
                proof {
                    assert(rows[i].subrange(0, y + 1 - range_y.start) =~= rows[i].subrange(0, y - range_y.start).push((x, y)));
                }
                y = y + 1;
            }
            proof {
                assert(rows[i].subrange(0, y - range_y.start) =~= rows[i]);
                assert(rows.subrange(0, i + 1) =~= rows.subrange(0, i).push(rows[i]));
                rows.subrange(0, i).lemma_flatten_push(rows[i]);
            }
            x = x + 1;
        }
        proof {
            assert(rows.subrange(0, x - range_x.start) =~= rows);
        }
        points
    }
}

/// The first index at or after `i` that is not a `/`.
pub open spec fn skip_slashes(s: Seq<char>, i: int) -> int
    decreases s.len() - i,
{
    if 0 <= i < s.len() && s[i] == '/' {
        skip_slashes(s, i + 1)
    } else {
        i
    }
}

/// The first index at or after `i` that is a `/`, or the length.
pub open spec fn segment_end(s: Seq<char>, i: int) -> int
    decreases s.len() - i,
{
    if 0 <= i < s.len() && s[i] != '/' {
        segment_end(s, i + 1)
    } else {
        i
    }
}

/// The group of a table: the first non-empty `/`-separated part of its name.
pub open spec fn group_of(name: Seq<char>) -> Seq<char> {
    let a = skip_slashes(name, 0);
    name.subrange(a, segment_end(name, a))
}

/// The group of the table `name`: its first non-empty `/`-separated part.
pub fn group_name(name: &str) -> (r: String)
    ensures
        r@ == group_of(name@),
{
    let n = name.unicode_len();
    let mut a: usize = 0;
    while a < n && name.get_char(a) == '/'
        invariant
            a <= n,
            n == name@.len(),
            skip_slashes(name@, 0) == skip_slashes(name@, a as int),
        decreases n - a,
    {
        a = a + 1;
    }
    let mut b: usize = a;
    while b < n && name.get_char(b) != '/'
        invariant
            a <= b <= n,
            n == name@.len(),
            segment_end(name@, a as int) == segment_end(name@, b as int),
        decreases n - b,
    {
        b = b + 1;
    }
    String::from_str(name.substring_char(a, b))
}

/// Where the store keeps the coordinate labels of dimension `dim` of table
/// `name`: under the table's group.
pub fn coordinate_path(name: &str, dim: &str) -> (r: String)
    ensures
        r@ == group_of(name@) + "/"@ + dim@,
{
    group_name(name).concat("/").concat(dim)
}

/// The shape as a reader sees it: the store's shape in the opposite order,
/// so that axis 0 is the slowest-varying one.
pub fn view_shape(storage_shape: &Vec<usize>) -> (r: Vec<usize>)
    ensures
        r@ == reversed(storage_shape@),
{
    let n = storage_shape.len();
    let mut r: Vec<usize> = Vec::new();
    let mut i: usize = 0;
    while i < n
        invariant
            i <= n,
            n == storage_shape@.len(),
            r@.len() == i,
            forall|k: int| 0 <= k < i ==> #[trigger] r@[k] == storage_shape@[n - 1 - k],
        decreases n - i,
    {
        r.push(storage_shape[n - 1 - i]);
        i = i + 1;
    }
    proof {
        assert(r@ =~= reversed(storage_shape@));
    }
    r
}

/// The store's own index of the axis that a reader calls `axis`.
pub open spec fn spec_storage_axis(ndims: nat, axis: nat) -> nat {
    (ndims - 1 - axis) as nat
}

/// The store's own index of the axis that a reader calls `axis`.
pub fn storage_axis(ndims: usize, axis: usize) -> (r: usize)
    requires
        axis < ndims,
    ensures
        r == spec_storage_axis(ndims as nat, axis as nat),
{
    ndims - 1 - axis
}

} // verus!

//! The two-dimensional slice of a table: its orientation and the grid with
//! margin totals that the pivot view shows.
use vstd::prelude::*;

verus! {

/// The cells of a grid, row by row.
pub open spec fn cells<T>(g: Seq<Vec<T>>) -> Seq<Seq<T>> {
    Seq::new(g.len(), |i: int| g[i]@)
}

/// `g` has `rows` rows of `cols` cells each.
pub open spec fn rectangular<T>(g: Seq<Seq<T>>, rows: nat, cols: nat) -> bool {
    &&& g.len() == rows
    &&& forall|i: int| 0 <= i < rows ==> #[trigger] g[i].len() == cols
}

/// The grid read with rows and columns exchanged; `cols` is the row length of
/// `g`.
pub open spec fn transposed<T>(g: Seq<Seq<T>>, cols: nat) -> Seq<Seq<T>> {
    Seq::new(cols, |i: int| Seq::new(g.len(), |j: int| g[j][i]))
}

/// The larger of two axes: the one the store lists first.
pub open spec fn larger(a: usize, b: usize) -> usize {
    if a > b {
        a
    } else {
        b
    }
}

/// The smaller of two axes.
pub open spec fn smaller(a: usize, b: usize) -> usize {
    if a > b {
        b
    } else {
        a
    }
}

/// The slice with the first free axis outermost: `raw` has the larger of the
/// two free axes outermost, so it is transposed where `transpose` holds.
pub open spec fn oriented<T>(raw: Seq<Seq<T>>, inner: nat, transpose: bool) -> Seq<Seq<T>> {
    if transpose {
        transposed(raw, inner)
    } else {
        raw
    }
}

/// The grid that the pivot view shows, from the slice `d`, in which `d[j][i]`
/// is the value at index `j` of the first free axis and index `i` of the
/// second. Row `i` of the grid is index `i` of the second free axis: first its
/// total, then its values from column `col` on. A last row holds the grand
/// total and then the column totals from column `col` on.
pub open spec fn margin_grid<T>(d: Seq<Seq<T>>, row_totals: Seq<T>, col_totals: Seq<T>, grand: T, col: int) -> Seq<Seq<T>> {
    Seq::new(
        row_totals.len() + 1,
        |i: int|
            if i < row_totals.len() {
                seq![row_totals[i]] + Seq::new((d.len() - col) as nat, |j: int| d[col + j][i])
            } else {
                seq![grand] + col_totals.subrange(col, col_totals.len() as int)
            },
    )
}

/// Exchanges the rows and columns of `raw`, whose rows hold `inner` cells each,
/// where `transpose` holds; copies it otherwise.
pub fn orient<T: Copy>(raw: &Vec<Vec<T>>, inner: usize, transpose: bool) -> (r: Vec<Vec<T>>)
    requires
        rectangular(cells(raw@), raw@.len(), inner as nat),
    ensures
        cells(r@) == oriented(cells(raw@), inner as nat, transpose),
        transpose ==> rectangular(cells(r@), inner as nat, raw@.len()),
        !transpose ==> rectangular(cells(r@), raw@.len(), inner as nat),
{
    let n = raw.len();
    let mut r: Vec<Vec<T>> = Vec::new();
    if transpose {
        let mut i: usize = 0;
        while i < inner
            invariant
                i <= inner,
                n == raw@.len(),
                rectangular(cells(raw@), n as nat, inner as nat),
                r@.len() == i,
                forall|k: int| 0 <= k < i ==> #[trigger] r@[k]@ == Seq::new(n as nat, |j: int| raw@[j]@[k]),
            decreases inner - i,
        {
            let mut row: Vec<T> = Vec::new();
            let mut j: usize = 0;
            while j < n
                invariant
                    j <= n,
                    i < inner,
                    n == raw@.len(),
                    rectangular(cells(raw@), n as nat, inner as nat),
                    row@.len() == j,
                    forall|m: int| 0 <= m < j ==> #[trigger] row@[m] == raw@[m]@[i as int],
                decreases n - j,
            {
                assert(cells(raw@)[j as int].len() == inner);
                row.push(raw[j][i]);
                j = j + 1;
            }
            assert(row@ =~= Seq::new(n as nat, |j: int| raw@[j]@[i as int]));
            r.push(row);
            i = i + 1;
        }
        assert forall|k: int| 0 <= k < inner implies #[trigger] cells(r@)[k] =~= transposed(cells(raw@), inner as nat)[k] by {
            assert(r@[k]@ == Seq::new(n as nat, |j: int| raw@[j]@[k]));
        }
        assert(cells(r@) =~= transposed(cells(raw@), inner as nat));
    } else {
        let mut i: usize = 0;
        while i < n
            invariant
                i <= n,
                n == raw@.len(),
                r@.len() == i,
                forall|k: int| 0 <= k < i ==> #[trigger] r@[k]@ == raw@[k]@,
            decreases n - i,
        {
            let mut row: Vec<T> = Vec::new();
            let m = raw[i].len();
            let mut j: usize = 0;
            while j < m
                invariant
                    j <= m,
                    i < n,
                    n == raw@.len(),
                    m == raw@[i as int]@.len(),
                    row@.len() == j,
                    forall|q: int| 0 <= q < j ==> #[trigger] row@[q] == raw@[i as int]@[q],
                decreases m - j,
            {
                row.push(raw[i][j]);
                j = j + 1;
            }
            assert(row@ =~= raw@[i as int]@);
            r.push(row);
            i = i + 1;
        }
        assert(cells(r@) =~= cells(raw@));
    }
    r
}

/// Lays out the slice `d` with its margin totals as the pivot view shows it,
/// the body starting at column `col`. Every row has the same length.
pub fn margin_layout<T: Copy>(
    d: &Vec<Vec<T>>,
    row_totals: &Vec<T>,
    col_totals: &Vec<T>,
    grand: T,
    col: usize,
) -> (r: Vec<Vec<T>>)
    requires
        col_totals@.len() == d@.len(),
        col <= d@.len(),
        rectangular(cells(d@), d@.len(), row_totals@.len()),
    ensures
        cells(r@) == margin_grid(cells(d@), row_totals@, col_totals@, grand, col as int),
        rectangular(cells(r@), row_totals@.len() + 1, (d@.len() - col + 1) as nat),
{
    let rows = row_totals.len();
    let ncols = d.len();
    let ghost g = margin_grid(cells(d@), row_totals@, col_totals@, grand, col as int);
    let mut r: Vec<Vec<T>> = Vec::new();
    let mut i: usize = 0;
    while i < rows
        invariant
            i <= rows,
            rows == row_totals@.len(),
            ncols == d@.len(),
            col <= ncols,
            rectangular(cells(d@), ncols as nat, rows as nat),
            g == margin_grid(cells(d@), row_totals@, col_totals@, grand, col as int),
            r@.len() == i,
            forall|k: int| 0 <= k < i ==> #[trigger] r@[k]@ == g[k],
        decreases rows - i,
    {
        let mut row: Vec<T> = Vec::new();
        row.push(row_totals[i]);
        let mut j: usize = col;
        while j < ncols
            invariant
                col <= j <= ncols,
                i < rows,
                rows == row_totals@.len(),
                ncols == d@.len(),
                rectangular(cells(d@), ncols as nat, rows as nat),
                row@.len() == j - col + 1,
                row@[0] == row_totals@[i as int],
                forall|m: int| 0 <= m < j - col ==> #[trigger] row@[m + 1] == d@[col + m]@[i as int],
            decreases ncols - j,
        {
            assert(cells(d@)[j as int].len() == rows);
            row.push(d[j][i]);
            j = j + 1;
        }
        assert(row@ =~= g[i as int]) by {
            assert forall|m: int| 1 <= m < row@.len() implies row@[m] == g[i as int][m] by {
                assert(row@[(m - 1) + 1] == d@[col + (m - 1)]@[i as int]);
            }
        }
        r.push(row);
        i = i + 1;
    }
    let mut last: Vec<T> = Vec::new();
    last.push(grand);
    let mut j: usize = col;
    while j < ncols
        invariant
            col <= j <= ncols,
            ncols == col_totals@.len(),
            last@ == seq![grand] + col_totals@.subrange(col as int, j as int),
        decreases ncols - j,
    {
        last.push(col_totals[j]);
        proof {
            assert(col_totals@.subrange(col as int, j + 1) =~= col_totals@.subrange(col as int, j as int).push(col_totals@[j as int]));
        }
        j = j + 1;
    }
    r.push(last);
    proof {
        assert(cells(r@) =~= g);
    }
    r
}

/// The sum of a sequence of numbers.
pub open spec fn seq_sum(s: Seq<int>) -> int
    decreases s.len(),
{
    if s.len() == 0 {
        0
    } else {
        seq_sum(s.drop_last()) + s.last()
    }
}

/// The total of each row of `g`.
pub open spec fn row_sums(g: Seq<Seq<int>>) -> Seq<int> {
    Seq::new(g.len(), |i: int| seq_sum(g[i]))
}

/// The sum of every cell of `g`.
pub open spec fn grid_total(g: Seq<Seq<int>>) -> int {
    seq_sum(row_sums(g))
}

/// The total of each of the `cols` columns of `g`.
pub open spec fn column_sums(g: Seq<Seq<int>>, cols: nat) -> Seq<int> {
    row_sums(transposed(g, cols))
}

/// The sum of two sequences of equal length, entry by entry.
pub open spec fn pointwise_add(a: Seq<int>, b: Seq<int>) -> Seq<int> {
    Seq::new(a.len(), |i: int| a[i] + b[i])
}

/// The sum of the column totals of a grid, its grand total, is the sum of
/// its cells; so it is the same whichever way round the grid is read.
pub proof fn lemma_grand_total_is_cell_sum(g: Seq<Seq<int>>, rows: nat, cols: nat)
    requires
        rectangular(g, rows, cols),
    ensures
        seq_sum(column_sums(g, cols)) == grid_total(g),
        grid_total(transposed(g, cols)) == grid_total(g),
    decreases rows,
{
    if rows == 0 {
        lemma_sum_zeros(cols);
        assert(column_sums(g, cols) =~= Seq::new(cols, |j: int| 0int)) by {
            assert forall|j: int| 0 <= j < cols implies column_sums(g, cols)[j] == 0 by {
                assert(transposed(g, cols)[j] =~= Seq::<int>::empty());
            }
        }
    } else {
        let h = g.drop_last();
        let last = g.last();
        lemma_grand_total_is_cell_sum(h, (rows - 1) as nat, cols);
        assert(column_sums(g, cols) =~= pointwise_add(column_sums(h, cols), last)) by {
            assert forall|j: int| 0 <= j < cols implies column_sums(g, cols)[j] == column_sums(h, cols)[j] + last[j] by {
                assert(transposed(g, cols)[j].drop_last() =~= transposed(h, cols)[j]);
            }
        }
        lemma_sum_pointwise_add(column_sums(h, cols), last);
        assert(row_sums(g).drop_last() =~= row_sums(h));
    }
}

/// A sequence of zeros sums to zero.
proof fn lemma_sum_zeros(n: nat)
    ensures
        seq_sum(Seq::new(n, |j: int| 0int)) == 0,
    decreases n,
{
    if n > 0 {
        lemma_sum_zeros((n - 1) as nat);
        assert(Seq::new(n, |j: int| 0int).drop_last() =~= Seq::new((n - 1) as nat, |j: int| 0int));
    }
}

/// Summing entry by entry and then summing the result adds the two sums.
proof fn lemma_sum_pointwise_add(a: Seq<int>, b: Seq<int>)
    requires
        a.len() == b.len(),
    ensures
        seq_sum(pointwise_add(a, b)) == seq_sum(a) + seq_sum(b),
    decreases a.len(),
{
    if a.len() > 0 {
        lemma_sum_pointwise_add(a.drop_last(), b.drop_last());
        assert(pointwise_add(a, b).drop_last() =~= pointwise_add(a.drop_last(), b.drop_last()));
    }
}

} // verus!

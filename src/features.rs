use vstd::prelude::*;

verus! {

/// A cell's value, or `zero` where the cell is missing.
pub open spec fn cell_or<T>(cell: Option<T>, zero: T) -> T {
    match cell {
        Some(v) => v,
        None => zero,
    }
}

/// The column with each missing cell replaced by `zero`.
pub open spec fn filled<T>(cells: Seq<Option<T>>, zero: T) -> Seq<T> {
    cells.map_values(|c: Option<T>| cell_or(c, zero))
}

/// Replaces each missing cell of a column by `zero`.
pub fn fill_missing<T: Copy>(cells: &Vec<Option<T>>, zero: T) -> (r: Vec<T>)
    ensures
        r@ == filled(cells@, zero),
{
    let mut r: Vec<T> = Vec::new();
    let mut i: usize = 0;
    while i < cells.len()
        invariant
            0 <= i <= cells.len(),
            r@ == filled(cells@.subrange(0, i as int), zero),
        decreases cells.len() - i,
    {
        let v: T = match cells[i] {
            Some(v) => v,
            None => zero,
        };
        r.push(v);
        i = i + 1;
        assert(r@ =~= filled(cells@.subrange(0, i as int), zero));
    }
    assert(cells@.subrange(0, cells.len() as int) =~= cells@);
    r
}

/// A dense matrix stored row by row: entry `(i, j)` is `data[i * cols + j]`.
pub struct FeatureMatrix<T> {
    pub rows: usize,
    pub cols: usize,
    pub data: Vec<T>,
}

/// A flat sequence does not have `rows * cols` values.
#[derive(Debug, Clone, Copy, PartialEq, Eq, Structural)]
pub struct ShapeError {
    pub rows: usize,
    pub cols: usize,
    pub len: usize,
}

impl<T> FeatureMatrix<T> {
    pub open spec fn wf(&self) -> bool {
        self.data.len() == self.rows * self.cols
    }

    /// Entry `(i, j)` of the matrix.
    pub open spec fn entry(&self, i: int, j: int) -> T {
        self.data@[i * self.cols + j]
    }

    /// Reads a flat sequence row by row into a `rows` by `cols` matrix.
    pub fn from_shape_vec(rows: usize, cols: usize, data: Vec<T>) -> (r: Result<
        FeatureMatrix<T>,
        ShapeError,
    >)
        ensures
            data.len() == rows * cols ==> (r matches Ok(m) && m.wf() && m.rows == rows && m.cols
                == cols && m.data@ == data@),
            data.len() != rows * cols ==> r == Err::<FeatureMatrix<T>, ShapeError>(
                ShapeError { rows, cols, len: data.len() },
            ),
    {
        let len = data.len();
        match rows.checked_mul(cols) {
            Some(n) if n == len => Ok(FeatureMatrix { rows, cols, data }),
            _ => Err(ShapeError { rows, cols, len }),
        }
    }

    /// The number of rows and of columns.
    pub fn shape(&self) -> (r: (usize, usize))
        ensures
            r == (self.rows, self.cols),
    {
        (self.rows, self.cols)
    }

    /// Entry `(i, j)` of the matrix.
    pub fn get(&self, i: usize, j: usize) -> (r: T) where T: Copy
        requires
            self.wf(),
            i < self.rows,
            j < self.cols,
        ensures
            r == self.entry(i as int, j as int),
    {
        proof {
            lemma_index_in_bounds(i as int, j as int, self.rows as int, self.cols as int);
        }
        self.data[i * self.cols + j]
    }
}

/// An entry's flat index lies inside a `rows` by `cols` layout.
pub proof fn lemma_index_in_bounds(i: int, j: int, rows: int, cols: int)
    requires
        0 <= i < rows,
        0 <= j < cols,
    ensures
        0 <= i * cols + j < rows * cols,
{
    assert(i * cols + j < rows * cols) by (nonlinear_arith)
        requires
            0 <= i < rows,
            0 <= j < cols,
    ;
    assert(0 <= i * cols) by (nonlinear_arith)
        requires
            0 <= i,
            0 <= j < cols,
    ;
}

} // verus!

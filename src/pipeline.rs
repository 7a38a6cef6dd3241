use vstd::prelude::*;
use crate::columns::{DatasetColumns, column_name_of};
use crate::features::{FeatureMatrix, ShapeError, filled, fill_missing};
use crate::table::{Table, first_index_of, lemma_first_index_of};

verus! {

/// The fewest rows that the analysis accepts.
pub const MIN_ROWS: usize = 1000;

/// The number of feature columns: points, assists and rebounds.
pub const FEATURE_COUNT: usize = 3;

/// Why the analysis stops before drawing or fitting anything.
#[derive(Debug, Clone, Copy, PartialEq, Eq, Structural)]
pub enum RunError {
    /// The table has fewer than `MIN_ROWS` rows.
    TooFewRows { rows: usize },
    /// The table has no column under this column's header.
    MissingColumn { column: DatasetColumns },
    /// The feature values do not fill a matrix of one row per table row.
    Shape(ShapeError),
}

/// The table has enough rows and all four columns.
pub open spec fn accepts<T>(t: &Table<T>) -> bool {
    t.rows >= MIN_ROWS && first_missing(t) is None
}

/// The cells of the table's column for `c`, where the table has one.
pub open spec fn cells_of<T>(t: &Table<T>, c: DatasetColumns) -> Option<Seq<Option<T>>> {
    t.column_named(column_name_of(c))
}

/// The first of points, assists, rebounds and win percentage, in that order,
/// that the table lacks.
pub open spec fn first_missing<T>(t: &Table<T>) -> Option<DatasetColumns> {
    if cells_of(t, DatasetColumns::Points) is None {
        Some(DatasetColumns::Points)
    } else if cells_of(t, DatasetColumns::Assists) is None {
        Some(DatasetColumns::Assists)
    } else if cells_of(t, DatasetColumns::Rebounds) is None {
        Some(DatasetColumns::Rebounds)
    } else if cells_of(t, DatasetColumns::WinPercentage) is None {
        Some(DatasetColumns::WinPercentage)
    } else {
        None
    }
}

/// The column for `c` with missing cells replaced by `zero`; empty where the
/// table lacks the column.
pub open spec fn filled_column<T>(t: &Table<T>, c: DatasetColumns, zero: T) -> Seq<T> {
    match cells_of(t, c) {
        Some(cells) => filled(cells, zero),
        None => Seq::empty(),
    }
}

/// The table column that feature `j` of a row reads: points, then assists,
/// then rebounds.
pub open spec fn feature_column(j: int) -> DatasetColumns {
    if j == 0 {
        DatasetColumns::Points
    } else if j == 1 {
        DatasetColumns::Assists
    } else {
        DatasetColumns::Rebounds
    }
}

/// Feature `j` of row `i`: the table's cell, or `zero` where it is missing.
pub open spec fn feature_value<T>(t: &Table<T>, i: int, j: int, zero: T) -> T {
    filled_column(t, feature_column(j), zero)[i]
}

/// The features and the target of the regression.
pub struct Prepared<T> {
    pub features: FeatureMatrix<T>,
    pub targets: Vec<T>,
}

/// Accepts a row count of at least `MIN_ROWS`.
pub fn check_row_count(rows: usize) -> (r: Result<(), RunError>)
    ensures
        rows >= MIN_ROWS ==> r is Ok,
        rows < MIN_ROWS ==> r == Err::<(), RunError>(RunError::TooFewRows { rows }),
{
    if rows < MIN_ROWS {
        Err(RunError::TooFewRows { rows })
    } else {
        Ok(())
    }
}

/// The cells of the table's column for `c`.
pub fn column_cells<'a, T>(table: &'a Table<T>, c: DatasetColumns) -> (r: Result<
    &'a Vec<Option<T>>,
    RunError,
>)
    requires
        table.wf(),
    ensures
        match cells_of(table, c) {
            Some(cells) => r matches Ok(v) && v@ == cells && v.len() == table.rows,
            None => r == Err::<&Vec<Option<T>>, RunError>(RunError::MissingColumn { column: c }),
        },
{
    match table.find_column(c.column_name()) {
        Some(k) => {
            proof {
                lemma_first_index_of(table.names@, column_name_of(c));
            }
            Ok(&table.columns[k])
        },
        None => Err(RunError::MissingColumn { column: c }),
    }
}

/// Checks the row count and the schema, then builds the feature matrix and
/// the target vector, with each missing cell replaced by `zero`.
///
/// Row `i` of the matrix holds the points, assists and rebounds of table row
/// `i`, in that order; entry `i` of the targets holds its win percentage.
pub fn prepare<T: Copy>(table: &Table<T>, zero: T) -> (r: Result<Prepared<T>, RunError>)
    requires
        table.wf(),
    ensures
        r is Ok <==> accepts(table),
        table.rows < MIN_ROWS ==> r == Err::<Prepared<T>, RunError>(
            RunError::TooFewRows { rows: table.rows },
        ),
        table.rows >= MIN_ROWS && first_missing(table) is Some ==> r == Err::<
            Prepared<T>,
            RunError,
        >(RunError::MissingColumn { column: first_missing(table)->Some_0 }),
        table.rows >= MIN_ROWS && first_missing(table) is None ==> (r matches Ok(p) && {
            &&& p.features.wf()
            &&& p.features.rows == table.rows
            &&& p.features.cols == FEATURE_COUNT
            &&& forall|i: int, j: int|
                0 <= i < table.rows && 0 <= j < FEATURE_COUNT ==> #[trigger] p.features.entry(i, j)
                    == feature_value(table, i, j, zero)
            &&& p.targets@ == filled_column(table, DatasetColumns::WinPercentage, zero)
        }),
{
    check_row_count(table.rows)?;
    let points = column_cells(table, DatasetColumns::Points)?;
    let assists = column_cells(table, DatasetColumns::Assists)?;
    let rebounds = column_cells(table, DatasetColumns::Rebounds)?;
    let wins = column_cells(table, DatasetColumns::WinPercentage)?;
    let mut data: Vec<T> = Vec::new();
    let mut i: usize = 0;
    while i < table.rows
        invariant
            0 <= i <= table.rows,
            first_missing(table) is None,
            points@ == cells_of(table, DatasetColumns::Points)->Some_0,
            assists@ == cells_of(table, DatasetColumns::Assists)->Some_0,
            rebounds@ == cells_of(table, DatasetColumns::Rebounds)->Some_0,
            points.len() == table.rows,
            assists.len() == table.rows,
            rebounds.len() == table.rows,
            data.len() == 3 * i,
            forall|r: int, j: int|
                0 <= r < i && 0 <= j < 3 ==> data@[r * 3 + j] == #[trigger] feature_value(
                    table,
                    r,
                    j,
                    zero,
                ),
        decreases table.rows - i,
    {
        let p: T = match points[i] {
            Some(v) => v,
            None => zero,
        };
        let a: T = match assists[i] {
            Some(v) => v,
            None => zero,
        };
        let b: T = match rebounds[i] {
            Some(v) => v,
            None => zero,
        };
        let ghost before = data@;
        data.push(p);
        data.push(a);
        data.push(b);
        assert forall|r: int, j: int| 0 <= r < i + 1 && 0 <= j < 3 implies data@[r * 3 + j]
            == #[trigger] feature_value(table, r, j, zero) by {
            if r < i {
                assert(data@[r * 3 + j] == before[r * 3 + j]);
            } else if j == 0 {
                assert(filled(points@, zero)[r] == p);
                assert(data@[r * 3 + j] == p);
            } else if j == 1 {
                assert(filled(assists@, zero)[r] == a);
                assert(data@[r * 3 + j] == a);
            } else {
                assert(filled(rebounds@, zero)[r] == b);
                assert(data@[r * 3 + j] == b);
            }
        }
        i = i + 1;
    }
    let targets = fill_missing(wins, zero);
    match FeatureMatrix::from_shape_vec(table.rows, FEATURE_COUNT, data) {
        Ok(features) => Ok(Prepared { features, targets }),
        Err(e) => Err(RunError::Shape(e)),
    }
}

} // verus!

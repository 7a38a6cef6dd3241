use vstd::prelude::*;
use crate::charts::{
    Domain, ChartSpec, is_trend_chart, is_scatter_chart, IMAGE_WIDTH, IMAGE_HEIGHT, POINTS_AXIS_END,
};
use crate::columns::column_name_of;
use crate::features::{FeatureMatrix, filled};
use crate::pipeline::{FEATURE_COUNT, cells_of, feature_column, feature_value, first_missing};
use crate::table::{Table, lemma_first_index_of};

verus! {

/// A missing cell becomes exactly `zero`, a present one keeps its value, and
/// filling keeps the column's length.
pub proof fn lemma_missing_cells_become_zero<T>(cells: Seq<Option<T>>, zero: T)
    ensures
        filled(cells, zero).len() == cells.len(),
        forall|i: int|
            0 <= i < cells.len() && cells[i] is None ==> #[trigger] filled(cells, zero)[i] == zero,
        forall|i: int|
            0 <= i < cells.len() && cells[i] is Some ==> #[trigger] filled(cells, zero)[i]
                == cells[i]->Some_0,
{
}

/// A missing feature cell of the table becomes exactly `zero` in the feature
/// matrix, at the cell's row and the feature's column.
pub proof fn lemma_missing_feature_is_zero<T>(
    table: &Table<T>,
    zero: T,
    m: &FeatureMatrix<T>,
    i: int,
    j: int,
)
    requires
        table.wf(),
        first_missing(table) is None,
        m.rows == table.rows,
        m.cols == FEATURE_COUNT,
        forall|r: int, k: int|
            0 <= r < table.rows && 0 <= k < FEATURE_COUNT ==> #[trigger] m.entry(r, k)
                == feature_value(table, r, k, zero),
        0 <= i < table.rows,
        0 <= j < FEATURE_COUNT,
        cells_of(table, feature_column(j))->Some_0[i] is None,
    ensures
        m.entry(i, j) == zero,
{
    let c = feature_column(j);
    lemma_first_index_of(table.names@, column_name_of(c));
    assert(m.entry(i, j) == feature_value(table, i, j, zero));
}

/// Two win-trend charts of tables of equal height have the same image size,
/// output path and axis domains: 1024 by 768, the row index from 0 to
/// `rows`, and win percentage from 0 to 1.
pub proof fn lemma_trend_chart_repeatable(a: &ChartSpec, b: &ChartSpec, rows: usize)
    requires
        is_trend_chart(a, rows),
        is_trend_chart(b, rows),
    ensures
        a.width == b.width,
        a.width == IMAGE_WIDTH,
        a.height == b.height,
        a.height == IMAGE_HEIGHT,
        a.output_path@ == b.output_path@,
        a.x == b.x,
        a.x == (Domain { start: 0, end: rows }),
        a.y == b.y,
        a.y == (Domain { start: 0, end: 1 }),
{
}

/// Two scatter charts have the same image size, output path and axis
/// domains: 1024 by 768, points from 0 to 40, and win percentage from 0 to 1.
pub proof fn lemma_scatter_chart_repeatable(a: &ChartSpec, b: &ChartSpec)
    requires
        is_scatter_chart(a),
        is_scatter_chart(b),
    ensures
        a.width == b.width,
        a.width == IMAGE_WIDTH,
        a.height == b.height,
        a.height == IMAGE_HEIGHT,
        a.output_path@ == b.output_path@,
        a.x == b.x,
        a.x == (Domain { start: 0, end: POINTS_AXIS_END }),
        a.y == b.y,
        a.y == (Domain { start: 0, end: 1 }),
{
}

} // verus!

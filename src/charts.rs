use vstd::prelude::*;
use crate::columns::DatasetColumns;
use crate::features::{filled, fill_missing};
use crate::pipeline::{RunError, cells_of, column_cells};
use crate::table::Table;

verus! {

pub const IMAGE_WIDTH: u32 = 1024;

pub const IMAGE_HEIGHT: u32 = 768;

pub const CAPTION_SIZE: u32 = 50;

pub const MARGIN: u32 = 10;

pub const LABEL_AREA_SIZE: u32 = 30;

pub const MARKER_RADIUS: u32 = 5;

/// The largest points-per-game value on the scatter chart's axis.
pub const POINTS_AXIS_END: usize = 40;

/// How the data is drawn.
#[derive(Debug, Clone, Copy, PartialEq, Eq, Structural)]
pub enum SeriesKind {
    /// One line through the points in order.
    Line,
    /// One filled circle per point.
    Scatter,
}

#[derive(Debug, Clone, Copy, PartialEq, Eq, Structural)]
pub enum MarkColor {
    Blue,
    Red,
}

/// An axis running from `start` to `end`.
#[derive(Debug, Clone, Copy, PartialEq, Eq, Structural)]
pub struct Domain {
    pub start: usize,
    pub end: usize,
}

/// Everything about a chart but its data: the image, its caption and
/// layout, the axes and the kind of series.
pub struct ChartSpec {
    pub title: String,
    pub output_path: String,
    pub width: u32,
    pub height: u32,
    pub caption_size: u32,
    pub margin: u32,
    pub label_area_size: u32,
    pub x: Domain,
    pub y: Domain,
    pub kind: SeriesKind,
    pub color: MarkColor,
    pub marker_radius: u32,
}

/// The frame that both charts share: the image size, caption size, margin,
/// label areas, and a win-percentage axis from 0 to 1.
pub open spec fn common_frame(c: &ChartSpec) -> bool {
    &&& c.width == IMAGE_WIDTH
    &&& c.height == IMAGE_HEIGHT
    &&& c.caption_size == CAPTION_SIZE
    &&& c.margin == MARGIN
    &&& c.label_area_size == LABEL_AREA_SIZE
    &&& c.y == Domain { start: 0, end: 1 }
}

/// The win-trend chart of a table of `rows` rows: a blue line over the row
/// index from 0 to `rows`.
pub open spec fn is_trend_chart(c: &ChartSpec, rows: usize) -> bool {
    &&& common_frame(c)
    &&& c.title@ == "Win Percentage Trend"@
    &&& c.output_path@ == "win_percentage_trend.png"@
    &&& c.x == Domain { start: 0, end: rows }
    &&& c.kind == SeriesKind::Line
    &&& c.color == MarkColor::Blue
}

/// The scatter chart: red filled circles of points per game, from 0 to 40,
/// against win percentage.
pub open spec fn is_scatter_chart(c: &ChartSpec) -> bool {
    &&& common_frame(c)
    &&& c.title@ == "Points vs. Win Percentage"@
    &&& c.output_path@ == "points_vs_win_percentage.png"@
    &&& c.x == Domain { start: 0, end: POINTS_AXIS_END }
    &&& c.kind == SeriesKind::Scatter
    &&& c.color == MarkColor::Red
    &&& c.marker_radius == MARKER_RADIUS
}

/// The chart of win percentage against row index, for a table of `rows` rows.
pub fn win_trend_chart(rows: usize) -> (r: ChartSpec)
    ensures
        is_trend_chart(&r, rows),
{
    ChartSpec {
        title: String::from_str("Win Percentage Trend"),
        output_path: String::from_str("win_percentage_trend.png"),
        width: IMAGE_WIDTH,
        height: IMAGE_HEIGHT,
        caption_size: CAPTION_SIZE,
        margin: MARGIN,
        label_area_size: LABEL_AREA_SIZE,
        x: Domain { start: 0, end: rows },
        y: Domain { start: 0, end: 1 },
        kind: SeriesKind::Line,
        color: MarkColor::Blue,
        marker_radius: 0,
    }
}

/// The chart of points per game against win percentage.
pub fn scatter_chart() -> (r: ChartSpec)
    ensures
        is_scatter_chart(&r),
{
    ChartSpec {
        title: String::from_str("Points vs. Win Percentage"),
        output_path: String::from_str("points_vs_win_percentage.png"),
        width: IMAGE_WIDTH,
        height: IMAGE_HEIGHT,
        caption_size: CAPTION_SIZE,
        margin: MARGIN,
        label_area_size: LABEL_AREA_SIZE,
        x: Domain { start: 0, end: POINTS_AXIS_END },
        y: Domain { start: 0, end: 1 },
        kind: SeriesKind::Scatter,
        color: MarkColor::Red,
        marker_radius: MARKER_RADIUS,
    }
}

/// The win-trend chart with its line: one vertex per row, at the row's index
/// and its win percentage.
pub struct TrendPlot<T> {
    pub chart: ChartSpec,
    pub points: Vec<(usize, T)>,
}

/// The scatter chart with its marks: one per row, at the row's points per
/// game and its win percentage.
pub struct ScatterPlot<T> {
    pub chart: ChartSpec,
    pub points: Vec<(T, T)>,
}

/// Pairs each value with its position.
pub fn indexed<T: Copy>(values: &Vec<T>) -> (r: Vec<(usize, T)>)
    ensures
        r.len() == values.len(),
        forall|i: int| 0 <= i < values.len() ==> #[trigger] r@[i] == (i as usize, values@[i]),
{
    let mut r: Vec<(usize, T)> = Vec::new();
    let mut i: usize = 0;
    while i < values.len()
        invariant
            0 <= i <= values.len(),
            r.len() == i,
            forall|j: int| 0 <= j < i ==> #[trigger] r@[j] == (j as usize, values@[j]),
        decreases values.len() - i,
    {
        r.push((i, values[i]));
        i = i + 1;
    }
    r
}

/// Pairs the values of two sequences position by position, as far as the
/// shorter one goes.
pub fn zip_pairs<T: Copy>(xs: &Vec<T>, ys: &Vec<T>) -> (r: Vec<(T, T)>)
    ensures
        r.len() == (if xs.len() <= ys.len() {
            xs.len()
        } else {
            ys.len()
        }),
        forall|i: int| 0 <= i < r.len() ==> #[trigger] r@[i] == (xs@[i], ys@[i]),
{
    let n: usize = if xs.len() <= ys.len() {
        xs.len()
    } else {
        ys.len()
    };
    let mut r: Vec<(T, T)> = Vec::new();
    let mut i: usize = 0;
    while i < n
        invariant
            0 <= i <= n,
            n <= xs.len(),
            n <= ys.len(),
            r.len() == i,
            forall|j: int| 0 <= j < i ==> #[trigger] r@[j] == (xs@[j], ys@[j]),
        decreases n - i,
    {
        r.push((xs[i], ys[i]));
        i = i + 1;
    }
    r
}

/// The win-trend chart of the table with its line; a missing win percentage
/// is drawn as `zero`.
pub fn win_trend_plot<T: Copy>(table: &Table<T>, zero: T) -> (r: Result<TrendPlot<T>, RunError>)
    requires
        table.wf(),
    ensures
        match cells_of(table, DatasetColumns::WinPercentage) {
            None => r == Err::<TrendPlot<T>, RunError>(
                RunError::MissingColumn { column: DatasetColumns::WinPercentage },
            ),
            Some(cells) => r matches Ok(p) && {
                &&& is_trend_chart(&p.chart, table.rows)
                &&& p.points.len() == table.rows
                &&& forall|i: int|
                    0 <= i < table.rows ==> #[trigger] p.points@[i] == (
                    i as usize,
                    filled(cells, zero)[i],
                )
            },
        },
{
    let wins = column_cells(table, DatasetColumns::WinPercentage)?;
    let values = fill_missing(wins, zero);
    Ok(TrendPlot { chart: win_trend_chart(table.rows), points: indexed(&values) })
}

/// The scatter chart of the table with its marks; a missing cell is drawn as
/// `zero`.
pub fn points_vs_win_plot<T: Copy>(table: &Table<T>, zero: T) -> (r: Result<
    ScatterPlot<T>,
    RunError,
>)
    requires
        table.wf(),
    ensures
        match (
            cells_of(table, DatasetColumns::Points),
            cells_of(table, DatasetColumns::WinPercentage),
        ) {
            (None, _) => r == Err::<ScatterPlot<T>, RunError>(
                RunError::MissingColumn { column: DatasetColumns::Points },
            ),
            (Some(_), None) => r == Err::<ScatterPlot<T>, RunError>(
                RunError::MissingColumn { column: DatasetColumns::WinPercentage },
            ),
            (Some(xs), Some(ys)) => r matches Ok(p) && {
                &&& is_scatter_chart(&p.chart)
                &&& p.points.len() == table.rows
                &&& forall|i: int|
                    0 <= i < table.rows ==> #[trigger] p.points@[i] == (
                    filled(xs, zero)[i],
                    filled(ys, zero)[i],
                )
            },
        },
{
    let points = column_cells(table, DatasetColumns::Points)?;
    let wins = column_cells(table, DatasetColumns::WinPercentage)?;
    let xs = fill_missing(points, zero);
    let ys = fill_missing(wins, zero);
    Ok(ScatterPlot { chart: scatter_chart(), points: zip_pairs(&xs, &ys) })
}

} // verus!

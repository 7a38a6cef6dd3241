use team_stats::charts::{
    points_vs_win_plot, scatter_chart, win_trend_chart, win_trend_plot, Domain, MarkColor,
    SeriesKind,
};
use team_stats::columns::DatasetColumns;
use team_stats::features::{fill_missing, FeatureMatrix, ShapeError};
use team_stats::pipeline::{check_row_count, prepare, RunError, FEATURE_COUNT, MIN_ROWS};
use team_stats::table::{Table, TableError};

const ALL: [DatasetColumns; 4] = [
    DatasetColumns::Points,
    DatasetColumns::Assists,
    DatasetColumns::Rebounds,
    DatasetColumns::WinPercentage,
];

fn table_of(cols: &[DatasetColumns], cells: Vec<Vec<Option<f64>>>, rows: usize) -> Table<f64> {
    let names = cols.iter().map(|c| c.column_name().to_string()).collect();
    Table::from_columns(names, cells, rows).unwrap()
}

fn constant_table(cols: &[DatasetColumns], rows: usize, feature: f64, win: f64) -> Table<f64> {
    let cells = cols
        .iter()
        .map(|c| {
            let v = if *c == DatasetColumns::WinPercentage { win } else { feature };
            vec![Some(v); rows]
        })
        .collect();
    table_of(cols, cells, rows)
}

#[test]
fn column_names_are_fixed() {
    assert_eq!(DatasetColumns::Points.column_name(), "team_avg_points");
    assert_eq!(DatasetColumns::Assists.column_name(), "team_avg_assists");
    assert_eq!(DatasetColumns::Rebounds.column_name(), "team_avg_rebounds");
    assert_eq!(DatasetColumns::WinPercentage.column_name(), "win_percentage");
}

#[test]
fn table_reports_its_shape() {
    let t = constant_table(&ALL, 1200, 1.0, 0.5);
    assert_eq!(t.shape(), (1200, 4));
}

#[test]
fn table_rejects_header_count_mismatch() {
    let r = Table::<f64>::from_columns(vec!["a".to_string()], vec![], 0);
    assert!(matches!(r, Err(TableError::HeaderCount)));
}

#[test]
fn table_rejects_ragged_column() {
    let names = vec!["a".to_string(), "b".to_string(), "c".to_string()];
    let cells = vec![vec![Some(1.0), None], vec![Some(2.0)], vec![None]];
    let r = Table::from_columns(names, cells, 2);
    assert!(matches!(r, Err(TableError::RaggedColumn { column: 1 })));
}

#[test]
fn find_column_takes_the_first_match() {
    let names = vec!["x".to_string(), "win_percentage".to_string(), "win_percentage".to_string()];
    let t = Table::<f64>::from_columns(names, vec![vec![None], vec![None], vec![None]], 1).unwrap();
    assert_eq!(t.find_column("win_percentage"), Some(1));
    assert_eq!(t.find_column("team_avg_points"), None);
}

#[test]
fn missing_cells_become_zero() {
    let cells = vec![Some(3.5), None, Some(-1.0), None];
    assert_eq!(fill_missing(&cells, 0.0), vec![3.5, 0.0, -1.0, 0.0]);
    let empty: Vec<Option<f64>> = vec![];
    assert_eq!(fill_missing(&empty, 0.0), Vec::<f64>::new());
}

#[test]
fn matrix_from_shape_vec_reads_row_by_row() {
    let m = FeatureMatrix::from_shape_vec(2, 3, vec![1, 2, 3, 4, 5, 6]).unwrap();
    assert_eq!(m.shape(), (2, 3));
    assert_eq!(m.get(0, 2), 3);
    assert_eq!(m.get(1, 0), 4);
}

#[test]
fn matrix_from_shape_vec_rejects_wrong_length() {
    let r = FeatureMatrix::from_shape_vec(2, 3, vec![1, 2, 3, 4, 5]);
    assert_eq!(r.err(), Some(ShapeError { rows: 2, cols: 3, len: 5 }));
    let r = FeatureMatrix::from_shape_vec(usize::MAX, 2, vec![1u8]);
    assert_eq!(r.err(), Some(ShapeError { rows: usize::MAX, cols: 2, len: 1 }));
}

#[test]
fn row_count_threshold() {
    assert_eq!(MIN_ROWS, 1000);
    assert!(check_row_count(1000).is_ok());
    assert_eq!(check_row_count(999), Err(RunError::TooFewRows { rows: 999 }));
    assert_eq!(check_row_count(0), Err(RunError::TooFewRows { rows: 0 }));
}

#[test]
fn prepare_accepts_a_complete_table() {
    let t = constant_table(&ALL, 1000, 2.0, 0.5);
    let p = prepare(&t, 0.0).unwrap();
    assert_eq!(p.features.shape(), (1000, FEATURE_COUNT));
    assert_eq!(p.features.data.len(), 3000);
    assert_eq!(p.targets.len(), 1000);
}

#[test]
fn prepare_with_999_rows_fails_on_row_count() {
    let t = constant_table(&ALL, 999, 1.0, 0.5);
    assert_eq!(prepare(&t, 0.0).err(), Some(RunError::TooFewRows { rows: 999 }));
}

#[test]
fn row_count_is_checked_before_the_schema() {
    let t = constant_table(&[DatasetColumns::Points], 10, 1.0, 0.5);
    assert_eq!(prepare(&t, 0.0).err(), Some(RunError::TooFewRows { rows: 10 }));
}

#[test]
fn prepare_without_win_percentage_fails_on_schema() {
    let cols = [DatasetColumns::Points, DatasetColumns::Assists, DatasetColumns::Rebounds];
    let t = constant_table(&cols, 1000, 1.0, 0.5);
    assert_eq!(
        prepare(&t, 0.0).err(),
        Some(RunError::MissingColumn { column: DatasetColumns::WinPercentage })
    );
}

#[test]
fn prepare_reports_the_first_missing_feature() {
    let cols = [DatasetColumns::WinPercentage, DatasetColumns::Points];
    let t = constant_table(&cols, 1000, 1.0, 0.5);
    assert_eq!(
        prepare(&t, 0.0).err(),
        Some(RunError::MissingColumn { column: DatasetColumns::Assists })
    );
}

#[test]
fn prepare_lays_one_table_row_per_matrix_row() {
    let n = 1000;
    let points: Vec<Option<f64>> = (0..n).map(|i| Some(i as f64)).collect();
    let assists: Vec<Option<f64>> = (0..n).map(|i| Some(1000.0 + i as f64)).collect();
    let rebounds: Vec<Option<f64>> = (0..n).map(|i| Some(2000.0 + i as f64)).collect();
    let mut wins: Vec<Option<f64>> = vec![Some(0.5); n];
    wins[7] = None;
    let t = table_of(&ALL, vec![points, assists, rebounds, wins], n);
    let p = prepare(&t, 0.0).unwrap();
    assert_eq!(p.features.get(0, 0), 0.0);
    assert_eq!(p.features.get(0, 1), 1000.0);
    assert_eq!(p.features.get(0, 2), 2000.0);
    assert_eq!(p.features.get(333, 1), 1333.0);
    assert_eq!(p.features.get(999, 0), 999.0);
    assert_eq!(p.features.get(999, 2), 2999.0);
    assert_eq!(&p.features.data[3..6], &[1.0, 1001.0, 2001.0]);
    assert_eq!(p.targets[7], 0.0);
    assert_eq!(p.targets[8], 0.5);
}

#[test]
fn prepare_fills_missing_feature_cells_with_zero() {
    let n = 1000;
    let mut points = vec![Some(10.0); n];
    points[1] = None;
    let mut rebounds = vec![Some(4.0); n];
    rebounds[5] = None;
    let assists = vec![Some(4.0); n];
    let wins = vec![Some(0.5); n];
    let t = table_of(&ALL, vec![points, assists, rebounds, wins], n);
    let p = prepare(&t, 0.0).unwrap();
    assert_eq!(p.features.get(1, 0), 0.0);
    assert_eq!(p.features.get(1, 1), 4.0);
    assert_eq!(p.features.get(2, 0), 10.0);
    assert_eq!(p.features.get(5, 2), 0.0);
    assert_eq!(p.features.get(5, 0), 10.0);
}

#[test]
fn constant_target_with_zero_features() {
    let t = constant_table(&ALL, 1000, 0.0, 0.5);
    let p = prepare(&t, 0.0).unwrap();
    for i in 0..1000 {
        for j in 0..3 {
            assert_eq!(p.features.get(i, j), 0.0);
        }
    }
    assert!(p.targets.iter().all(|&y| y == 0.5));
}

#[test]
fn trend_chart_frame() {
    let c = win_trend_chart(1000);
    assert_eq!(c.title, "Win Percentage Trend");
    assert_eq!(c.output_path, "win_percentage_trend.png");
    assert_eq!((c.width, c.height), (1024, 768));
    assert_eq!((c.caption_size, c.margin, c.label_area_size), (50, 10, 30));
    assert_eq!(c.x, Domain { start: 0, end: 1000 });
    assert_eq!(c.y, Domain { start: 0, end: 1 });
    assert_eq!(c.kind, SeriesKind::Line);
    assert_eq!(c.color, MarkColor::Blue);
}

#[test]
fn scatter_chart_frame() {
    let c = scatter_chart();
    assert_eq!(c.title, "Points vs. Win Percentage");
    assert_eq!(c.output_path, "points_vs_win_percentage.png");
    assert_eq!((c.width, c.height), (1024, 768));
    assert_eq!(c.x, Domain { start: 0, end: 40 });
    assert_eq!(c.y, Domain { start: 0, end: 1 });
    assert_eq!(c.kind, SeriesKind::Scatter);
    assert_eq!(c.color, MarkColor::Red);
    assert_eq!(c.marker_radius, 5);
}

#[test]
fn charts_are_the_same_on_a_second_run() {
    let a = win_trend_chart(1500);
    let b = win_trend_chart(1500);
    assert_eq!((a.width, a.height, a.x, a.y), (b.width, b.height, b.x, b.y));
    assert_eq!(a.output_path, b.output_path);
    let a = scatter_chart();
    let b = scatter_chart();
    assert_eq!((a.width, a.height, a.x, a.y), (b.width, b.height, b.x, b.y));
    assert_eq!(a.output_path, b.output_path);
}

#[test]
fn trend_plot_draws_missing_wins_as_zero() {
    let wins = vec![Some(0.1), None, Some(0.3)];
    let t = table_of(&[DatasetColumns::WinPercentage], vec![wins], 3);
    let p = win_trend_plot(&t, 0.0).unwrap();
    assert_eq!(p.points, vec![(0, 0.1), (1, 0.0), (2, 0.3)]);
    assert_eq!(p.chart.x, Domain { start: 0, end: 3 });
}

#[test]
fn trend_plot_needs_win_percentage() {
    let t = table_of(&[DatasetColumns::Points], vec![vec![Some(1.0)]], 1);
    assert_eq!(
        win_trend_plot(&t, 0.0).err(),
        Some(RunError::MissingColumn { column: DatasetColumns::WinPercentage })
    );
}

#[test]
fn scatter_plot_keeps_one_mark_per_row() {
    let points = vec![Some(20.0), None, Some(30.0), Some(35.0)];
    let wins = vec![Some(0.4), Some(0.6), None, Some(0.9)];
    let t = table_of(&[DatasetColumns::Points, DatasetColumns::WinPercentage], vec![points, wins], 4);
    let p = points_vs_win_plot(&t, 0.0).unwrap();
    assert_eq!(p.points, vec![(20.0, 0.4), (0.0, 0.6), (30.0, 0.0), (35.0, 0.9)]);
}

#[test]
fn scatter_plot_needs_points() {
    let t = table_of(&[DatasetColumns::WinPercentage], vec![vec![Some(1.0)]], 1);
    assert_eq!(
        points_vs_win_plot(&t, 0.0).err(),
        Some(RunError::MissingColumn { column: DatasetColumns::Points })
    );
}

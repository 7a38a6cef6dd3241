use vstd::prelude::*;

verus! {

/// The four columns of the statistics table that the analysis reads.
#[derive(Debug, Clone, Copy, PartialEq, Eq, Structural)]
pub enum DatasetColumns {
    Points,
    Assists,
    Rebounds,
    WinPercentage,
}

/// The header under which a column is stored in the table.
pub open spec fn column_name_of(c: DatasetColumns) -> Seq<char> {
    match c {
        DatasetColumns::Points => "team_avg_points"@,
        DatasetColumns::Assists => "team_avg_assists"@,
        DatasetColumns::Rebounds => "team_avg_rebounds"@,
        DatasetColumns::WinPercentage => "win_percentage"@,
    }
}

impl DatasetColumns {
    pub fn column_name(&self) -> (r: &'static str)
        ensures
            r@ == column_name_of(*self),
    {
        match self {
            DatasetColumns::Points => "team_avg_points",
            DatasetColumns::Assists => "team_avg_assists",
            DatasetColumns::Rebounds => "team_avg_rebounds",
            DatasetColumns::WinPercentage => "win_percentage",
        }
    }
}

} // verus!

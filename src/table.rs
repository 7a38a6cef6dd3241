use vstd::prelude::*;

verus! {

/// A table of named columns, each holding one optional cell per row.
/// A missing cell is `None`.
pub struct Table<T> {
    pub names: Vec<String>,
    pub columns: Vec<Vec<Option<T>>>,
    pub rows: usize,
}

/// Why a set of columns does not form a table.
#[derive(Debug, Clone, Copy, PartialEq, Eq, Structural)]
pub enum TableError {
    /// There are not as many headers as columns.
    HeaderCount,
    /// Column `column` does not have one cell per row.
    RaggedColumn { column: usize },
}

/// Every column has `rows` cells.
pub open spec fn columns_have_rows<T>(columns: Seq<Vec<Option<T>>>, rows: nat) -> bool {
    forall|k: int| 0 <= k < columns.len() ==> #[trigger] columns[k]@.len() == rows
}

/// The index of the first header equal to `name`, if there is one.
pub open spec fn first_index_of(names: Seq<String>, name: Seq<char>) -> Option<int>
    decreases names.len(),
{
    if names.len() == 0 {
        None
    } else if names[0]@ == name {
        Some(0)
    } else {
        match first_index_of(names.drop_first(), name) {
            Some(k) => Some(k + 1),
            None => None,
        }
    }
}

pub proof fn lemma_first_index_of(names: Seq<String>, name: Seq<char>)
    ensures
        match first_index_of(names, name) {
            Some(k) => 0 <= k < names.len() && names[k]@ == name && forall|j: int|
                0 <= j < k ==> #[trigger] names[j]@ != name,
            None => forall|j: int| 0 <= j < names.len() ==> #[trigger] names[j]@ != name,
        },
    decreases names.len(),
{
    if names.len() > 0 {
        lemma_first_index_of(names.drop_first(), name);
        if names[0]@ != name {
            assert forall|j: int| 1 <= j < names.len() implies names[j]@ == names.drop_first()[j
                - 1]@ by {}
        }
    }
}

impl<T> Table<T> {
    /// Headers and columns agree in number, and every column has `rows` cells.
    pub open spec fn wf(&self) -> bool {
        &&& self.names.len() == self.columns.len()
        &&& columns_have_rows(self.columns@, self.rows as nat)
    }

    /// The column stored under the header `name`, if any.
    pub open spec fn column_named(&self, name: Seq<char>) -> Option<Seq<Option<T>>> {
        match first_index_of(self.names@, name) {
            Some(k) => Some(self.columns@[k]@),
            None => None,
        }
    }

    /// Builds a table of `rows` rows from its headers and columns.
    pub fn from_columns(names: Vec<String>, columns: Vec<Vec<Option<T>>>, rows: usize) -> (r:
        Result<Table<T>, TableError>)
        ensures
            names.len() != columns.len() ==> r == Err::<Table<T>, TableError>(
                TableError::HeaderCount,
            ),
            names.len() == columns.len() ==> match r {
                Ok(t) => {
                    &&& t.wf()
                    &&& t.names@ == names@
                    &&& t.columns@ == columns@
                    &&& t.rows == rows
                },
                Err(e) => match e {
                    TableError::RaggedColumn { column } => {
                        &&& column < columns.len()
                        &&& columns[column as int].len() != rows
                        &&& forall|j: int| 0 <= j < column ==> #[trigger] columns[j].len() == rows
                    },
                    TableError::HeaderCount => false,
                },
            },
    {
        if names.len() != columns.len() {
            return Err(TableError::HeaderCount);
        }
        let mut k: usize = 0;
        while k < columns.len()
            invariant
                0 <= k <= columns.len(),
                names.len() == columns.len(),
                forall|j: int| 0 <= j < k ==> #[trigger] columns[j]@.len() == rows,
            decreases columns.len() - k,
        {
            if columns[k].len() != rows {
                return Err(TableError::RaggedColumn { column: k });
            }
            k = k + 1;
        }
        Ok(Table { names, columns, rows })
    }

    /// The number of rows and the number of columns.
    pub fn shape(&self) -> (r: (usize, usize))
        ensures
            r == (self.rows, self.names.len()),
    {
        (self.rows, self.names.len())
    }

    /// The position of the first column whose header is `name`.
    pub fn find_column(&self, name: &str) -> (r: Option<usize>)
        ensures
            match first_index_of(self.names@, name@) {
                Some(k) => r == Some(k as usize),
                None => r is None,
            },
    {
        let wanted = String::from_str(name);
        let mut k: usize = 0;
        while k < self.names.len()
            invariant
                0 <= k <= self.names.len(),
                wanted@ == name@,
                forall|j: int| 0 <= j < k ==> #[trigger] self.names@[j]@ != name@,
            decreases self.names.len() - k,
        {
            if self.names[k] == wanted {
                proof {
                    first_index_prefix(self.names@, name@, k as int);
                }
                return Some(k);
            }
            k = k + 1;
        }
        proof {
            lemma_first_index_of(self.names@, name@);
        }
        None
    }
}

/// Where no header before `k` is `name` and header `k` is, `k` is the first.
proof fn first_index_prefix(names: Seq<String>, name: Seq<char>, k: int)
    requires
        0 <= k < names.len(),
        names[k]@ == name,
        forall|j: int| 0 <= j < k ==> #[trigger] names[j]@ != name,
    ensures
        first_index_of(names, name) == Some(k),
    decreases k,
{
    if k > 0 {
        let rest = names.drop_first();
        assert forall|j: int| 0 <= j < k - 1 implies #[trigger] rest[j]@ != name by {
            assert(rest[j] == names[j + 1]);
        }
        first_index_prefix(rest, name, k - 1);
    }
}

} // verus!

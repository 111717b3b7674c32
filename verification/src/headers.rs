//! Lists of texts as the rows of a table, as the viewer of headers and cookies
//! takes them.

use vstd::prelude::*;

verus! {

/// A list that can be laid out as rows of cells.
pub trait StringToVec {
    /// The rows of the table.
    spec fn rows(&self) -> Seq<Seq<Seq<char>>>;

    /// Computes [`StringToVec::rows`].
    fn convert(&self) -> (table: Vec<Vec<String>>)
        ensures
            table.deep_view() == self.rows(),
    ;
}

impl StringToVec for Vec<(String, String)> {
    /// A pair of a name and a value is a row of two cells.
    open spec fn rows(&self) -> Seq<Seq<Seq<char>>> {
        Seq::new(self@.len(), |i: int| seq![self@[i].0@, self@[i].1@])
    }

    fn convert(&self) -> (table: Vec<Vec<String>>) {
        let mut table: Vec<Vec<String>> = Vec::new();
        let mut i: usize = 0;
        while i < self.len()
            invariant
                i <= self.len(),
                table.len() == i,
                forall|j: int|
                    0 <= j < i ==> (#[trigger] table@[j]).deep_view() == seq![
                        self@[j].0@,
                        self@[j].1@,
                    ],
            decreases self.len() - i,
        {
            let mut row: Vec<String> = Vec::new();
            row.push(self[i].0.clone());
            row.push(self[i].1.clone());
            table.push(row);
            i += 1;
        }
        table
    }
}

impl StringToVec for Vec<String> {
    /// A text is a row of one cell.
    open spec fn rows(&self) -> Seq<Seq<Seq<char>>> {
        Seq::new(self@.len(), |i: int| seq![self@[i]@])
    }

    fn convert(&self) -> (table: Vec<Vec<String>>) {
        let mut table: Vec<Vec<String>> = Vec::new();
        let mut i: usize = 0;
        while i < self.len()
            invariant
                i <= self.len(),
                table.len() == i,
                forall|j: int| 0 <= j < i ==> (#[trigger] table@[j]).deep_view() == seq![self@[j]@],
            decreases self.len() - i,
        {
            let mut row: Vec<String> = Vec::new();
            row.push(self[i].clone());
            table.push(row);
            i += 1;
        }
        table
    }
}

/// The number of columns of a table: the number of cells of its first row, and
/// none for a table without rows.
pub fn column_count(table: &Vec<Vec<String>>) -> (columns: usize)
    ensures
        columns == if table@.len() > 0 {
            table@[0]@.len()
        } else {
            0
        },
{
    if table.len() > 0 {
        table[0].len()
    } else {
        0
    }
}

} // verus!

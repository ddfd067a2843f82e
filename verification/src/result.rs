//! The result of a query, as the components show it.

use crate::text::{chars_of, decimal, push_decimal, push_str, string_of};
use vstd::prelude::*;

verus! {

/// The rows that a statement returned, or the number of rows it changed.
#[derive(Debug, Clone)]
pub struct QueryResult {
    /// The column names.
    pub columns: Vec<String>,
    /// The rows, each with one text for each column.
    pub rows: Vec<Vec<String>>,
    /// How many rows the statement changed.
    pub affected_rows: u64,
    /// Whether rows were cut off the end of `rows`.
    pub truncated: bool,
    /// How many rows there were before any were cut off.
    pub original_row_count: Option<usize>,
}

impl QueryResult {
    /// Whether the result holds nothing at all.
    pub open spec fn is_blank(&self) -> bool {
        &&& self.columns@.len() == 0
        &&& self.rows@.len() == 0
        &&& self.affected_rows == 0
        &&& !self.truncated
        &&& self.original_row_count is None
    }

    /// Cuts the rows down to the first `limit`. A result that had more
    /// remembers that it was cut and how many rows it had.
    pub fn limit_rows(&mut self, limit: usize) -> (cut: bool)
        ensures
            cut == (old(self).rows@.len() > limit),
            final(self).columns == old(self).columns,
            final(self).affected_rows == old(self).affected_rows,
            cut ==> final(self).rows@ == old(self).rows@.take(limit as int),
            cut ==> final(self).truncated,
            cut ==> final(self).original_row_count == Some(old(self).rows.len()),
            !cut ==> *final(self) == *old(self),
    {
        let n: usize = self.rows.len();
        if n > limit {
            self.rows.truncate(limit);
            assert(self.rows@ =~= old(self).rows@.take(limit as int));
            self.truncated = true;
            self.original_row_count = Some(n);
            true
        } else {
            false
        }
    }

    /// The index of the column named `name`: the first, if several have the
    /// name.
    pub fn column_index(&self, name: &str) -> (r: Option<usize>)
        ensures
            match r {
                Some(i) => i < self.columns@.len() && self.columns@[i as int]@ == name@
                    && forall|j: int| 0 <= j < i ==> (#[trigger] self.columns@[j])@ != name@,
                None => forall|j: int|
                    0 <= j < self.columns@.len() ==> (#[trigger] self.columns@[j])@ != name@,
            },
    {
        let mut i: usize = 0;
        while i < self.columns.len()
            invariant
                i <= self.columns@.len(),
                forall|j: int| 0 <= j < i ==> (#[trigger] self.columns@[j])@ != name@,
            decreases self.columns@.len() - i,
        {
            if crate::text::same_text(self.columns[i].as_str(), name) {
                return Some(i);
            }
            i += 1;
        }
        None
    }


    /// The warning that the bar above the grid shows for this result, if rows
    /// were cut off: with the number of rows that there were, if it is known.
    pub open spec fn truncation_warning(&self) -> Option<Seq<char>> {
        if self.truncated {
            match self.original_row_count {
                Some(all) => Some("! 已截断 (原"@ + decimal(all as nat) + "行)"@),
                None => Some("! 已截断"@),
            }
        } else {
            None
        }
    }

    /// The warning that the bar above the grid shows for this result.
    pub fn truncation_text(&self) -> (text: Option<String>)
        ensures
            match text {
                Some(t) => self.truncation_warning() == Some(t@),
                None => self.truncation_warning() is None,
            },
    {
        if !self.truncated {
            return None;
        }
        match self.original_row_count {
            Some(all) => {
                let mut out = chars_of("! 已截断 (原");
                push_decimal(&mut out, all);
                push_str(&mut out, "行)");
                Some(string_of(&out))
            },
            None => Some("! 已截断".to_owned()),
        }
    }
}

impl Default for QueryResult {
    fn default() -> (r: Self)
        ensures
            r.is_blank(),
    {
        QueryResult {
            columns: Vec::new(),
            rows: Vec::new(),
            affected_rows: 0,
            truncated: false,
            original_row_count: None,
        }
    }
}

} // verus!

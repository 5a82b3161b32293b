//! Zero-based row and column positions.
use vstd::prelude::*;
use crate::render::{decimal, decimal_string};
use vstd::string::StringExecFns;

verus! {

/// A zero-based `(row, column)` position.
#[derive(Clone, Copy, Debug, PartialEq, Eq, Structural)]
pub struct Point {
    pub row: usize,
    pub column: usize,
}

/// The inspection string of a point.
pub open spec fn point_inspection(row: nat, column: nat) -> Seq<char> {
    "#<TreeSitter::Point row="@ + decimal(row) + " column="@ + decimal(column) + ">"@
}

impl Point {
    pub fn new(row: usize, column: usize) -> (r: Point)
        ensures
            r.row == row,
            r.column == column,
    {
        Point { row, column }
    }

    /// The position that the engine reported.
    pub fn from_ts(point: tree_sitter::Point) -> (r: Point)
        ensures
            r.row == point.row,
            r.column == point.column,
    {
        Point { row: point.row, column: point.column }
    }

    pub fn row(&self) -> (r: usize)
        ensures
            r == self.row,
    {
        self.row
    }

    pub fn column(&self) -> (r: usize)
        ensures
            r == self.column,
    {
        self.column
    }

    /// The position as an ordered pair `(row, column)`.
    pub fn to_a(&self) -> (r: (usize, usize))
        ensures
            r == (self.row, self.column),
    {
        (self.row, self.column)
    }

    pub fn inspect(&self) -> (r: String)
        ensures
            r@ == point_inspection(self.row as nat, self.column as nat),
    {
        let mut out = String::from_str("#<TreeSitter::Point row=");
        out.append(decimal_string(self.row).as_str());
        out.append(" column=");
        out.append(decimal_string(self.column).as_str());
        out.append(">");
        proof {
            reveal_strlit("#<TreeSitter::Point row=");
            reveal_strlit(" column=");
            reveal_strlit(">");
        }
        assert(out@ =~= point_inspection(self.row as nat, self.column as nat));
        out
    }

    pub fn eq(&self, other: &Point) -> (r: bool)
        ensures
            r == (self.row == other.row && self.column == other.column),
    {
        self.row == other.row && self.column == other.column
    }
}

} // verus!

//! Byte spans with their positions.
use vstd::prelude::*;
use crate::point::{Point, point_inspection};
use crate::render::{decimal, decimal_string};
use vstd::string::StringExecFns;

verus! {

/// A byte span `[start_byte, end_byte)` with the positions of its ends.
#[derive(Clone, Copy, Debug)]
pub struct Range {
    start_byte: usize,
    end_byte: usize,
    start_point: Point,
    end_point: Point,
}

/// The inspection string of a range.
pub open spec fn range_inspection(start: nat, end: nat) -> Seq<char> {
    "#<TreeSitter::Range start_byte="@ + decimal(start) + " end_byte="@ + decimal(end)
        + " size="@ + decimal((end - start) as nat) + ">"@
}

impl Range {
    /// A range is well formed when it does not end before it starts.
    pub open spec fn wf(&self) -> bool {
        self.spec_start_byte() <= self.spec_end_byte()
    }

    pub closed spec fn spec_start_byte(&self) -> usize {
        self.start_byte
    }

    pub closed spec fn spec_end_byte(&self) -> usize {
        self.end_byte
    }

    pub closed spec fn spec_start_point(&self) -> Point {
        self.start_point
    }

    pub closed spec fn spec_end_point(&self) -> Point {
        self.end_point
    }

    pub fn new(start_byte: usize, end_byte: usize, start_point: Point, end_point: Point) -> (r: Range)
        ensures
            r.wf() == (start_byte <= end_byte),
            r.spec_start_byte() == start_byte,
            r.spec_end_byte() == end_byte,
            r.spec_start_point() == start_point,
            r.spec_end_point() == end_point,
    {
        Range { start_byte, end_byte, start_point, end_point }
    }

    pub fn start_byte(&self) -> (r: usize)
        ensures
            r == self.spec_start_byte(),
    {
        self.start_byte
    }

    pub fn end_byte(&self) -> (r: usize)
        ensures
            r == self.spec_end_byte(),
    {
        self.end_byte
    }

    pub fn start_point(&self) -> (r: Point)
        ensures
            r == self.spec_start_point(),
    {
        self.start_point
    }

    pub fn end_point(&self) -> (r: Point)
        ensures
            r == self.spec_end_point(),
    {
        self.end_point
    }

    /// The number of bytes in the span.
    pub fn size(&self) -> (r: usize)
        requires
            self.wf(),
        ensures
            r == self.spec_end_byte() - self.spec_start_byte(),
    {
        self.end_byte - self.start_byte
    }

    pub fn inspect(&self) -> (r: String)
        requires
            self.wf(),
        ensures
            r@ == range_inspection(self.spec_start_byte() as nat, self.spec_end_byte() as nat),
    {
        let mut out = String::from_str("#<TreeSitter::Range start_byte=");
        out.append(decimal_string(self.start_byte).as_str());
        out.append(" end_byte=");
        out.append(decimal_string(self.end_byte).as_str());
        out.append(" size=");
        out.append(decimal_string(self.end_byte - self.start_byte).as_str());
        out.append(">");
        proof {
            reveal_strlit("#<TreeSitter::Range start_byte=");
            reveal_strlit(" end_byte=");
            reveal_strlit(" size=");
            reveal_strlit(">");
        }
        assert(out@ =~= range_inspection(self.start_byte as nat, self.end_byte as nat));
        out
    }
}

} // verus!

//! Regions of the plane as unions of rectangles.

use vstd::prelude::*;
use crate::kurbo::Rect;

verus! {

/// The cells covered by at least one rectangle of `rects`.
pub open spec fn cells_of(rects: Seq<Rect>) -> Set<(int, int)> {
    Set::new(|p: (int, int)| exists|i: int| 0 <= i < rects.len() && (#[trigger] rects[i]).contains(p.0, p.1))
}

/// Appending a rectangle adds exactly its cells.
pub proof fn lemma_cells_of_push(rects: Seq<Rect>, rect: Rect)
    ensures
        cells_of(rects.push(rect)) =~= cells_of(rects).union(rect.cells()),
{
    let after = rects.push(rect);
    assert forall|p: (int, int)| cells_of(after).contains(p) implies cells_of(rects).union(rect.cells()).contains(p) by {
        let i = choose|i: int| 0 <= i < after.len() && (#[trigger] after[i]).contains(p.0, p.1);
        if i < rects.len() {
            assert(rects[i].contains(p.0, p.1));
        }
    }
    assert forall|p: (int, int)| cells_of(rects).union(rect.cells()).contains(p) implies cells_of(after).contains(p) by {
        if rect.contains(p.0, p.1) {
            assert(after[rects.len() as int].contains(p.0, p.1));
        } else {
            let i = choose|i: int| 0 <= i < rects.len() && (#[trigger] rects[i]).contains(p.0, p.1);
            assert(after[i].contains(p.0, p.1));
        }
    }
}

/// A set of cells kept as a list of rectangles.
#[derive(Clone, Debug, PartialEq, Eq)]
pub struct Region {
    rects: Vec<Rect>,
}

impl Region {
    /// The rectangles of the region, in the order in which they were added.
    pub closed spec fn spec_rects(self) -> Seq<Rect> {
        self.rects@
    }

    /// The cells that the region covers.
    pub open spec fn cells(self) -> Set<(int, int)> {
        cells_of(self.spec_rects())
    }

    /// The region without cells.
    pub fn empty() -> (r: Region)
        ensures
            r.spec_rects() == Seq::<Rect>::empty(),
            r.cells() =~= Set::<(int, int)>::empty(),
    {
        Region { rects: Vec::new() }
    }

    /// The rectangles of the region, in the order in which they were added.
    pub fn rects(&self) -> (v: &Vec<Rect>)
        ensures
            v@ == self.spec_rects(),
    {
        &self.rects
    }

    /// Whether the region covers no cell.
    pub fn is_empty(&self) -> (b: bool)
        ensures
            b <==> self.cells() =~= Set::<(int, int)>::empty(),
    {
        let mut i: usize = 0;
        while i < self.rects.len()
            invariant
                0 <= i <= self.rects.len(),
                forall|k: int| 0 <= k < i ==> (#[trigger] self.rects@[k]).spec_is_empty(),
            decreases self.rects.len() - i,
        {
            if !self.rects[i].is_empty() {
                proof {
                    let r = self.rects@[i as int];
                    assert(r.contains(r.x0 as int, r.y0 as int));
                    assert(self.cells().contains((r.x0 as int, r.y0 as int)));
                }
                return false;
            }
            i += 1;
        }
        true
    }

    /// Adds the cells of `rect`. A rectangle without cells changes nothing.
    pub fn add_rect(&mut self, rect: Rect)
        ensures
            final(self).cells() =~= old(self).cells().union(rect.cells()),
            final(self).spec_rects() == if rect.spec_is_empty() {
                old(self).spec_rects()
            } else {
                old(self).spec_rects().push(rect)
            },
    {
        proof {
            lemma_cells_of_push(self.rects@, rect);
        }
        if !rect.is_empty() {
            self.rects.push(rect);
        }
    }

    /// Removes every cell.
    pub fn clear(&mut self)
        ensures
            final(self).spec_rects() == Seq::<Rect>::empty(),
            final(self).cells() =~= Set::<(int, int)>::empty(),
    {
        self.rects.clear();
    }

    /// Empties the region and returns what it held.
    pub fn take(&mut self) -> (r: Region)
        ensures
            r == *old(self),
            final(self).spec_rects() == Seq::<Rect>::empty(),
            final(self).cells() =~= Set::<(int, int)>::empty(),
    {
        let mut out = Region::empty();
        std::mem::swap(self, &mut out);
        out
    }

    /// The part of the region inside `bounds`: the rectangles of `self` cut
    /// to `bounds`, in order, without those that lose all their cells.
    pub fn clipped(&self, bounds: &Rect) -> (r: Region)
        ensures
            r.cells() =~= self.cells().intersect(bounds.cells()),
            r.spec_rects() == clip_rects(self.spec_rects(), *bounds),
    {
        let mut out: Vec<Rect> = Vec::new();
        let mut i: usize = 0;
        while i < self.rects.len()
            invariant
                0 <= i <= self.rects.len(),
                out@ == clip_rects(self.rects@.take(i as int), *bounds),
            decreases self.rects.len() - i,
        {
            let c = self.rects[i].intersect(bounds);
            proof {
                assert(self.rects@.take(i as int + 1).drop_last() == self.rects@.take(i as int));
            }
            if !c.is_empty() {
                out.push(c);
            }
            i += 1;
        }
        proof {
            assert(self.rects@.take(i as int) == self.rects@);
            lemma_clip_rects_cells(self.rects@, *bounds);
        }
        Region { rects: out }
    }
}

/// The rectangles of `rects` cut to `bounds`, in order, without those that
/// lose all their cells.
pub open spec fn clip_rects(rects: Seq<Rect>, bounds: Rect) -> Seq<Rect>
    decreases rects.len(),
{
    if rects.len() == 0 {
        Seq::empty()
    } else {
        let head = clip_rects(rects.drop_last(), bounds);
        let c = rects.last().spec_intersect(bounds);
        if c.spec_is_empty() {
            head
        } else {
            head.push(c)
        }
    }
}

/// Cutting every rectangle to `bounds` keeps exactly the cells inside `bounds`.
pub proof fn lemma_clip_rects_cells(rects: Seq<Rect>, bounds: Rect)
    ensures
        cells_of(clip_rects(rects, bounds)) =~= cells_of(rects).intersect(bounds.cells()),
    decreases rects.len(),
{
    if rects.len() == 0 {
    } else {
        let init = rects.drop_last();
        let last = rects.last();
        lemma_clip_rects_cells(init, bounds);
        lemma_cells_of_push(init, last);
        assert(init.push(last) == rects);
        let c = last.spec_intersect(bounds);
        lemma_cells_of_push(clip_rects(init, bounds), c);
        assert(c.cells() =~= last.cells().intersect(bounds.cells()));
        if c.spec_is_empty() {
            assert(c.cells() =~= Set::<(int, int)>::empty());
        }
    }
}

impl Default for Region {
    fn default() -> (r: Region)
        ensures
            r.spec_rects() == Seq::<Rect>::empty(),
    {
        Region::empty()
    }
}

} // verus!

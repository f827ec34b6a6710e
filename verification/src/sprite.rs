//! Dirty-region tracking and an off-screen RGB565 sprite.
//!
//! [`RegionSet`] keeps a bounded list of rectangles that together cover every
//! area marked dirty; touching or overlapping rectangles are merged into
//! their bounding rectangle. [`DirtySprite`] is a framebuffer that marks each
//! changed pixel dirty, so that only changed areas need to be repainted.

use crate::geometry::{spec_intersection, spec_max, spec_min, Point, Rectangle, Rgb565, Size};
use vstd::prelude::*;

verus! {

#[derive(Clone, Copy, Debug, PartialEq, Eq, Structural)]
pub enum DirtySpriteError {
    BufferTooSmall,
    TooManyRegions,
}

// ---------------------------------------------------------------------------
// Rectangle facts used by the region set
// ---------------------------------------------------------------------------

/// A non-empty rectangle whose corners fit in `i32`.
pub open spec fn solid(r: Rectangle) -> bool {
    !r.spec_zero_sized() && r.in_range()
}

/// Two non-empty rectangles overlap or share an edge or a corner.
pub open spec fn touches(a: Rectangle, b: Rectangle) -> bool {
    &&& a.top_left.x <= b.right()
    &&& b.top_left.x <= a.right()
    &&& a.top_left.y <= b.bottom()
    &&& b.top_left.y <= a.bottom()
}

/// The smallest rectangle holding both `a` and `b`.
pub open spec fn hull(a: Rectangle, b: Rectangle) -> Rectangle {
    let left = spec_min(a.top_left.x as int, b.top_left.x as int);
    let top = spec_min(a.top_left.y as int, b.top_left.y as int);
    let right = spec_max(a.right(), b.right());
    let bottom = spec_max(a.bottom(), b.bottom());
    Rectangle {
        top_left: Point { x: left as i32, y: top as i32 },
        size: Size { width: (right - left) as u32, height: (bottom - top) as u32 },
    }
}

/// The hull of `a` and `b` can be computed in `i32`.
pub open spec fn span_ok(a: Rectangle, b: Rectangle) -> bool {
    &&& spec_max(a.right(), b.right()) - spec_min(a.top_left.x as int, b.top_left.x as int)
        <= i32::MAX
    &&& spec_max(a.bottom(), b.bottom()) - spec_min(a.top_left.y as int, b.top_left.y as int)
        <= i32::MAX
}

/// `r` lies inside `bx`.
pub open spec fn within(r: Rectangle, bx: Rectangle) -> bool {
    &&& bx.top_left.x <= r.top_left.x
    &&& bx.top_left.y <= r.top_left.y
    &&& r.right() <= bx.right()
    &&& r.bottom() <= bx.bottom()
}

pub open spec fn within_all(s: Seq<Rectangle>, bx: Rectangle) -> bool {
    forall|k: int| 0 <= k < s.len() ==> within(#[trigger] s[k], bx)
}

/// Some rectangle of `s` holds `p`.
pub open spec fn covered(s: Seq<Rectangle>, p: Point) -> bool {
    exists|k: int| 0 <= k < s.len() && (#[trigger] s[k]).spec_contains(p)
}

/// Every rectangle is solid and every pair has a computable hull.
pub open spec fn regions_ok(s: Seq<Rectangle>) -> bool {
    &&& forall|k: int| 0 <= k < s.len() ==> solid(#[trigger] s[k])
    &&& forall|j: int, k: int| 0 <= j < s.len() && 0 <= k < s.len() ==> span_ok(#[trigger] s[j], #[trigger] s[k])
}

proof fn lemma_hull(a: Rectangle, b: Rectangle)
    requires
        solid(a),
        solid(b),
        span_ok(a, b),
    ensures
        solid(hull(a, b)),
        forall|p: Point| a.spec_contains(p) || b.spec_contains(p) ==> #[trigger] hull(a, b).spec_contains(p),
        forall|c: Rectangle| span_ok(a, c) && span_ok(b, c) ==> #[trigger] span_ok(hull(a, b), c),
        forall|c: Rectangle| span_ok(c, a) && span_ok(c, b) ==> #[trigger] span_ok(c, hull(a, b)),
        forall|bx: Rectangle| within(a, bx) && within(b, bx) ==> #[trigger] within(hull(a, b), bx),
        span_ok(hull(a, b), hull(a, b)),
{
}

proof fn lemma_solid_span(a: Rectangle)
    requires
        solid(a),
    ensures
        span_ok(a, a),
{
}

fn intersects_or_touches(a: Rectangle, b: Rectangle) -> (r: bool)
    requires
        solid(a),
        solid(b),
    ensures
        r == touches(a, b),
{
    let a_br = match a.bottom_right() {
        Some(p) => p,
        None => a.top_left,
    };
    let b_br = match b.bottom_right() {
        Some(p) => p,
        None => b.top_left,
    };
    a.top_left.x <= b_br.x + 1 && a_br.x + 1 >= b.top_left.x && a.top_left.y <= b_br.y + 1
        && a_br.y + 1 >= b.top_left.y
}

fn bounding_rect(a: Rectangle, b: Rectangle) -> (r: Rectangle)
    requires
        solid(a),
        solid(b),
        span_ok(a, b),
    ensures
        r == hull(a, b),
{
    let a_br = match a.bottom_right() {
        Some(p) => p,
        None => a.top_left,
    };
    let b_br = match b.bottom_right() {
        Some(p) => p,
        None => b.top_left,
    };
    let min_x = if a.top_left.x <= b.top_left.x {
        a.top_left.x
    } else {
        b.top_left.x
    };
    let min_y = if a.top_left.y <= b.top_left.y {
        a.top_left.y
    } else {
        b.top_left.y
    };
    let max_x = if a_br.x >= b_br.x {
        a_br.x
    } else {
        b_br.x
    };
    let max_y = if a_br.y >= b_br.y {
        a_br.y
    } else {
        b_br.y
    };
    Rectangle::new(
        Point::new(min_x, min_y),
        Size::new((max_x - min_x + 1) as u32, (max_y - min_y + 1) as u32),
    )
}

/// Clips `rect` to the `width` x `height` area at the origin.
pub fn clip_to_bounds(rect: Rectangle, width: u16, height: u16) -> (r: Rectangle)
    requires
        rect.in_range(),
    ensures
        r == spec_intersection(
            rect,
            Rectangle {
                top_left: Point { x: 0, y: 0 },
                size: Size { width: width as u32, height: height as u32 },
            },
        ),
{
    let bounds = Rectangle::new(Point::zero(), Size::new(width as u32, height as u32));
    rect.intersection(&bounds)
}

// ---------------------------------------------------------------------------
// Region set
// ---------------------------------------------------------------------------

/// Small fixed-capacity dirty rectangle set holding at most `MAX_REGIONS`
/// rectangles.
pub struct RegionSet<const MAX_REGIONS: usize> {
    regions: Vec<Rectangle>,
}

impl<const MAX_REGIONS: usize> RegionSet<MAX_REGIONS> {
    /// The rectangles in the set, in order.
    pub closed spec fn regions(&self) -> Seq<Rectangle> {
        self.regions@
    }

    pub open spec fn wf(&self) -> bool {
        &&& self.regions().len() <= MAX_REGIONS
        &&& regions_ok(self.regions())
    }

    pub fn new() -> (r: Self)
        ensures
            r.wf(),
            r.regions() == Seq::<Rectangle>::empty(),
    {
        RegionSet { regions: Vec::new() }
    }

    pub fn clear(&mut self)
        ensures
            final(self).wf(),
            final(self).regions() == Seq::<Rectangle>::empty(),
    {
        self.regions.clear();
    }

    pub fn is_empty(&self) -> (r: bool)
        ensures
            r == (self.regions().len() == 0),
    {
        self.regions.len() == 0
    }

    /// The rectangles in the set, in order.
    pub fn iter(&self) -> (r: Vec<Rectangle>)
        ensures
            r@ == self.regions(),
    {
        let mut out: Vec<Rectangle> = Vec::new();
        let mut i: usize = 0;
        while i < self.regions.len()
            invariant
                i <= self.regions@.len(),
                out@ == self.regions@.take(i as int),
            decreases self.regions@.len() - i,
        {
            out.push(self.regions[i]);
            i += 1;
            assert(out@ =~= self.regions@.take(i as int));
        }
        assert(self.regions@.take(i as int) =~= self.regions@);
        out
    }

    /// Marks `rect` dirty.
    ///
    /// An empty rectangle is ignored. A rectangle that touches a stored one is
    /// merged into the first such rectangle, and then touching rectangles of
    /// the set are merged with each other; otherwise it is appended, which
    /// fails with `TooManyRegions` when the set is full and leaves the set
    /// unchanged. Every point that was covered, and every point of `rect`, is
    /// covered afterwards, and a box that held the old set and `rect` holds
    /// the new set.
    pub fn add(&mut self, rect: Rectangle) -> (r: Result<(), DirtySpriteError>)
        requires
            old(self).wf(),
            rect.in_range(),
            !rect.spec_zero_sized() ==> forall|k: int|
                0 <= k < old(self).regions().len() ==> span_ok(
                    #[trigger] old(self).regions()[k],
                    rect,
                ),
        ensures
            final(self).wf(),
            r is Ok <==> (rect.spec_zero_sized() || old(self).regions().len() < MAX_REGIONS || exists|
                k: int,
            |
                0 <= k < old(self).regions().len() && touches(
                    #[trigger] old(self).regions()[k],
                    rect,
                )),
            r matches Err(e) ==> e == DirtySpriteError::TooManyRegions && final(self).regions()
                == old(self).regions(),
            r is Ok ==> forall|p: Point|
                covered(old(self).regions(), p) || rect.spec_contains(p) ==> #[trigger] covered(
                    final(self).regions(),
                    p,
                ),
            forall|bx: Rectangle|
                within_all(old(self).regions(), bx) && within(rect, bx) ==> #[trigger] within_all(
                    final(self).regions(),
                    bx,
                ),
            final(self).regions() == spec_add(old(self).regions(), rect, MAX_REGIONS as int),
    {
        if rect.is_zero_sized() {
            return Ok(());
        }
        let ghost old_regions = self.regions@;
        let mut k: usize = 0;
        while k < self.regions.len()
            invariant
                k <= self.regions@.len(),
                self.regions@ == old_regions,
                solid(rect),
                forall|m: int| 0 <= m < k ==> !touches(#[trigger] old_regions[m], rect),
                forall|m: int| 0 <= m < old_regions.len() ==> span_ok(#[trigger] old_regions[m], rect),
                regions_ok(old_regions),
                old_regions.len() <= MAX_REGIONS,
                old_regions == old(self).regions(),
            decreases self.regions@.len() - k,
        {
            let existing = self.regions[k];
            if intersects_or_touches(existing, rect) {
                proof {
                    lemma_hull(existing, rect);
                }
                let merged = bounding_rect(existing, rect);
                let ghost before = self.regions@;
                self.regions.set(k, merged);
                proof {
                    let s = self.regions@;
                    assert(s == before.update(k as int, merged));
                    assert forall|j: int, m: int|
                        0 <= j < s.len() && 0 <= m < s.len() implies span_ok(
                        #[trigger] s[j],
                        #[trigger] s[m],
                    ) by {
                        if j == k && m == k {
                        } else if j == k {
                            assert(span_ok(before[k as int], before[m]));
                            assert(span_ok(before[m], rect));
                            assert(span_ok(rect, before[m]));
                            assert(span_ok(hull(existing, rect), before[m]));
                        } else if m == k {
                            assert(span_ok(before[j], before[k as int]));
                            assert(span_ok(before[j], rect));
                            assert(span_ok(before[j], hull(existing, rect)));
                        }
                    }
                    assert forall|p: Point|
                        covered(old_regions, p) || rect.spec_contains(p) implies covered(s, p) by {
                        if rect.spec_contains(p) {
                            assert(s[k as int].spec_contains(p));
                        } else {
                            let w = choose|w: int|
                                0 <= w < old_regions.len() && (#[trigger] old_regions[w]).spec_contains(
                                    p,
                                );
                            if w == k {
                                assert(s[k as int].spec_contains(p));
                            } else {
                                assert(s[w].spec_contains(p));
                            }
                        }
                    }
                    assert forall|bx: Rectangle|
                        within_all(old_regions, bx) && within(rect, bx) implies within_all(
                        s,
                        bx,
                    ) by {
                        assert(within(old_regions[k as int], bx));
                        assert forall|m: int| 0 <= m < s.len() implies within(#[trigger] s[m], bx) by {
                            if m != k {
                                assert(within(old_regions[m], bx));
                            }
                        }
                    }
                }
                assert(touches(old_regions[k as int], rect));
                proof {
                    assert(is_first_touch(old_regions, rect, k as int));
                    let c = choose|c: int| is_first_touch(old_regions, rect, c);
                    if c < k {
                        assert(!touches(old_regions[c], rect));
                    }
                    if k < c {
                        assert(!touches(old_regions[k as int], rect));
                    }
                    assert(c == k);
                    assert(self.regions@ == old_regions.update(k as int, hull(old_regions[k as int], rect)));
                }
                self.compact();
                return Ok(());
            }
            k += 1;
        }
        proof {
            assert forall|c: int| !is_first_touch(old_regions, rect, c) by {
                if 0 <= c < old_regions.len() {
                    assert(!touches(old_regions[c], rect));
                }
            }
        }
        if self.regions.len() >= MAX_REGIONS {
            return Err(DirtySpriteError::TooManyRegions);
        }
        self.regions.push(rect);
        proof {
            let s = self.regions@;
            assert(s == old_regions.push(rect));
            assert(s[s.len() - 1] == rect);
            lemma_solid_span(rect);
            assert forall|j: int, m: int|
                0 <= j < s.len() && 0 <= m < s.len() implies span_ok(#[trigger] s[j], #[trigger] s[m]) by {
                if j == s.len() - 1 && m < s.len() - 1 {
                    assert(span_ok(old_regions[m], rect));
                }
            }
            assert forall|p: Point|
                covered(old_regions, p) || rect.spec_contains(p) implies covered(s, p) by {
                if rect.spec_contains(p) {
                    assert(s[s.len() - 1].spec_contains(p));
                } else {
                    let w = choose|w: int|
                        0 <= w < old_regions.len() && (#[trigger] old_regions[w]).spec_contains(p);
                    assert(s[w].spec_contains(p));
                }
            }
        }
        Ok(())
    }

    /// Merges touching rectangles pairwise.
    fn compact(&mut self)
        requires
            old(self).regions().len() <= MAX_REGIONS,
            regions_ok(old(self).regions()),
        ensures
            final(self).regions().len() <= old(self).regions().len(),
            regions_ok(final(self).regions()),
            forall|p: Point| covered(old(self).regions(), p) ==> #[trigger] covered(final(self).regions(), p),
            forall|bx: Rectangle|
                within_all(old(self).regions(), bx) ==> #[trigger] within_all(final(self).regions(), bx),
            !has_touching_pair(old(self).regions()) ==> final(self).regions() == old(self).regions(),
            has_touching_pair(old(self).regions()) ==> final(self).regions().len() < old(
                self,
            ).regions().len(),
            final(self).regions() == spec_compact(old(self).regions()),
    {
        let ghost start = self.regions@;
        let ghost mut did_merge: bool = false;
        let mut i: usize = 0;
        while i < self.regions.len()
            invariant
                self.regions@.len() <= start.len(),
                regions_ok(self.regions@),
                compact_pass(self.regions@, i as int) == spec_compact(start),
                forall|p: Point| covered(start, p) ==> #[trigger] covered(self.regions@, p),
                forall|bx: Rectangle| within_all(start, bx) ==> #[trigger] within_all(self.regions@, bx),
                !did_merge ==> self.regions@ == start,
                did_merge ==> self.regions@.len() < start.len() && has_touching_pair(start),
                !did_merge ==> forall|x: int, y: int|
                    0 <= x < i && x < y < start.len() ==> !touches(#[trigger] start[x], #[trigger] start[y]),
            decreases self.regions@.len() - i,
        {
            let ghost len0 = self.regions@.len();
            assert(compact_pass(self.regions@, i as int) == compact_pass(
                compact_from(self.regions@, i as int, i + 1),
                i + 1,
            ));
            let mut j: usize = i + 1;
            while j < self.regions.len()
                invariant
                    i < self.regions@.len(),
                    self.regions@.len() <= len0,
                    i < j,
                    self.regions@.len() <= start.len(),
                    regions_ok(self.regions@),
                    compact_pass(compact_from(self.regions@, i as int, j as int), i + 1) == spec_compact(start),
                    forall|p: Point| covered(start, p) ==> #[trigger] covered(self.regions@, p),
                    forall|bx: Rectangle|
                        within_all(start, bx) ==> #[trigger] within_all(self.regions@, bx),
                    !did_merge ==> self.regions@ == start,
                    did_merge ==> self.regions@.len() < start.len() && has_touching_pair(start),
                    !did_merge ==> forall|x: int, y: int|
                        0 <= x < i && x < y < start.len() ==> !touches(#[trigger] start[x], #[trigger] start[y]),
                    !did_merge ==> forall|y: int|
                        i < y < j ==> !touches(start[i as int], #[trigger] start[y]),
                decreases self.regions@.len() - j,
            {
                let a = self.regions[i];
                let b = self.regions[j];
                if intersects_or_touches(a, b) {
                    proof {
                        assert(span_ok(self.regions@[i as int], self.regions@[j as int]));
                        lemma_hull(a, b);
                        if !did_merge {
                            assert(touches(start[i as int], start[j as int]));
                            assert(has_touching_pair(start));
                        }
                    }
                    let merged = bounding_rect(a, b);
                    let ghost cur = self.regions@;
                    self.regions.set(i, merged);
                    self.regions.swap_remove(j);
                    proof {
                        lemma_merge_step(cur, i as int, j as int);
                        did_merge = true;
                        assert(self.regions@ =~= merge_at(cur, i as int, j as int));
                        assert(compact_from(cur, i as int, j as int) == compact_from(
                            merge_at(cur, i as int, j as int),
                            i as int,
                            j as int,
                        ));
                    }
                } else {
                    j += 1;
                }
            }
            proof {
                if !did_merge {
                    assert forall|x: int, y: int|
                        0 <= x < i + 1 && x < y < start.len() implies !touches(
                        #[trigger] start[x],
                        #[trigger] start[y],
                    ) by {
                        if x == i {
                            assert(!touches(start[i as int], start[y]));
                        }
                    }
                }
            }
            i += 1;
        }
        proof {
            if !did_merge && has_touching_pair(start) {
                let (x, y) = choose|x: int, y: int|
                    0 <= x < y < start.len() && touches(#[trigger] start[x], #[trigger] start[y]);
                assert(!touches(start[x], start[y]));
            }
        }
    }
}

/// `s[i]` replaced by the hull of `s[i]` and `s[j]`, then `s[j]` removed by
/// moving the last rectangle into its place.
pub open spec fn merge_at(s: Seq<Rectangle>, i: int, j: int) -> Seq<Rectangle> {
    let u = s.update(i, hull(s[i], s[j]));
    u.update(j, u.last()).drop_last()
}

/// One pass of the compaction for position `i`, from position `j` on: each
/// later rectangle that touches `s[i]` is merged into it (the rectangle moved
/// into the freed place is looked at next); others are passed over.
pub open spec fn compact_from(s: Seq<Rectangle>, i: int, j: int) -> Seq<Rectangle>
    decreases s.len() - j,
{
    if i < 0 || j <= i || j >= s.len() {
        s
    } else if touches(s[i], s[j]) {
        compact_from(merge_at(s, i, j), i, j)
    } else {
        compact_from(s, i, j + 1)
    }
}

/// A compaction pass never lengthens the set and keeps the position it works on.
pub proof fn lemma_compact_from_len(s: Seq<Rectangle>, i: int, j: int)
    ensures
        compact_from(s, i, j).len() <= s.len(),
        0 <= i < j ==> (i < s.len() ==> i < compact_from(s, i, j).len()),
    decreases s.len() - j,
{
    if i < 0 || j <= i || j >= s.len() {
    } else if touches(s[i], s[j]) {
        lemma_compact_from_len(merge_at(s, i, j), i, j);
    } else {
        lemma_compact_from_len(s, i, j + 1);
    }
}

/// The pairwise compaction of `s` from position `i` on: for each position in
/// turn, merge into it every later rectangle that touches it.
pub open spec fn compact_pass(s: Seq<Rectangle>, i: int) -> Seq<Rectangle>
    decreases s.len() - i,
{
    if i < 0 || i >= s.len() {
        s
    } else {
        let t = compact_from(s, i, i + 1);
        proof {
            lemma_compact_from_len(s, i, i + 1);
        }
        compact_pass(t, i + 1)
    }
}

/// The pairwise compaction of a whole set.
pub open spec fn spec_compact(s: Seq<Rectangle>) -> Seq<Rectangle> {
    compact_pass(s, 0)
}

/// `k` is the first position of `s` whose rectangle touches `rect`.
pub open spec fn is_first_touch(s: Seq<Rectangle>, rect: Rectangle, k: int) -> bool {
    &&& 0 <= k < s.len()
    &&& touches(s[k], rect)
    &&& forall|m: int| 0 <= m < k ==> !touches(#[trigger] s[m], rect)
}

/// The set after marking `rect` dirty in a set of capacity `max`: unchanged
/// for an empty rectangle; with a touching rectangle, the first touching
/// entry grown to the hull of both and the set compacted; otherwise `rect`
/// appended when there is room, and the set unchanged when it is full.
pub open spec fn spec_add(s: Seq<Rectangle>, rect: Rectangle, max: int) -> Seq<Rectangle> {
    if rect.spec_zero_sized() {
        s
    } else if exists|k: int| is_first_touch(s, rect, k) {
        let k = choose|k: int| is_first_touch(s, rect, k);
        spec_compact(s.update(k, hull(s[k], rect)))
    } else if s.len() < max {
        s.push(rect)
    } else {
        s
    }
}

/// Two distinct rectangles of `s` overlap or share an edge or a corner.
pub open spec fn has_touching_pair(s: Seq<Rectangle>) -> bool {
    exists|x: int, y: int| 0 <= x < y < s.len() && touches(#[trigger] s[x], #[trigger] s[y])
}

/// Replacing `s[i]` by the hull of `s[i]` and `s[j]` and swap-removing `s[j]`
/// keeps the set sound, covers the same points and stays within any box.
proof fn lemma_merge_step(s: Seq<Rectangle>, i: int, j: int)
    requires
        0 <= i < j < s.len(),
        regions_ok(s),
    ensures
        ({
            let h = hull(s[i], s[j]);
            let n = s.update(i, h).update(j, s.update(i, h).last()).drop_last();
            &&& n.len() == s.len() - 1
            &&& regions_ok(n)
            &&& forall|p: Point| covered(s, p) ==> #[trigger] covered(n, p)
            &&& forall|bx: Rectangle| within_all(s, bx) ==> #[trigger] within_all(n, bx)
        }),
{
    let a = s[i];
    let b = s[j];
    let h = hull(a, b);
    let u = s.update(i, h);
    let n = u.update(j, u.last()).drop_last();
    let last = s.len() - 1;
    assert(span_ok(a, b));
    lemma_hull(a, b);
    // Every element of `n` is `h` or an element of `s` other than `s[i]`, `s[j]`.
    assert forall|k: int| 0 <= k < n.len() implies (k == i && n[k] == h) || (k != i && exists|
        w: int,
    | 0 <= w < s.len() && w != i && w != j && n[k] == #[trigger] s[w]) by {
        if k == i {
        } else if k == j {
            assert(n[k] == s[last]);
            assert(last != i);
            if last == j {
                assert(false);
            }
        } else {
            assert(n[k] == s[k]);
        }
    }
    assert forall|k: int| 0 <= k < n.len() implies solid(#[trigger] n[k]) by {
        if k != i {
            let w = choose|w: int| 0 <= w < s.len() && w != i && w != j && n[k] == #[trigger] s[w];
        }
    }
    assert forall|x: int, y: int| 0 <= x < n.len() && 0 <= y < n.len() implies span_ok(
        #[trigger] n[x],
        #[trigger] n[y],
    ) by {
        if x == i && y == i {
        } else if x == i {
            let w = choose|w: int| 0 <= w < s.len() && w != i && w != j && n[y] == #[trigger] s[w];
            assert(span_ok(a, s[w]) && span_ok(b, s[w]));
        } else if y == i {
            let w = choose|w: int| 0 <= w < s.len() && w != i && w != j && n[x] == #[trigger] s[w];
            assert(span_ok(s[w], a) && span_ok(s[w], b));
        } else {
            let w1 = choose|w: int| 0 <= w < s.len() && w != i && w != j && n[x] == #[trigger] s[w];
            let w2 = choose|w: int| 0 <= w < s.len() && w != i && w != j && n[y] == #[trigger] s[w];
            assert(span_ok(s[w1], s[w2]));
        }
    }
    assert forall|p: Point| covered(s, p) implies #[trigger] covered(n, p) by {
        let w = choose|w: int| 0 <= w < s.len() && (#[trigger] s[w]).spec_contains(p);
        if w == i || w == j {
            assert(n[i].spec_contains(p));
        } else if w == last {
            assert(n[j] == s[last]);
            assert(n[j].spec_contains(p));
        } else {
            assert(n[w] == s[w]);
            assert(n[w].spec_contains(p));
        }
    }
    assert forall|bx: Rectangle| within_all(s, bx) implies #[trigger] within_all(n, bx) by {
        assert(within(a, bx) && within(b, bx));
        assert forall|k: int| 0 <= k < n.len() implies within(#[trigger] n[k], bx) by {
            if k != i {
                let w = choose|w: int| 0 <= w < s.len() && w != i && w != j && n[k] == #[trigger] s[w];
            }
        }
    }
}

impl<const MAX_REGIONS: usize> Default for RegionSet<MAX_REGIONS> {
    fn default() -> (r: Self)
        ensures
            r.wf(),
            r.regions() == Seq::<Rectangle>::empty(),
    {
        Self::new()
    }
}

// ---------------------------------------------------------------------------
// Dirty sprite
// ---------------------------------------------------------------------------

/// The `w` x `h` area at the origin.
pub open spec fn screen(w: u16, h: u16) -> Rectangle {
    Rectangle { top_left: Point { x: 0, y: 0 }, size: Size { width: w as u32, height: h as u32 } }
}

/// Rows `y..y + h` of the `w`-pixel-wide column band starting at `x`, in
/// row-major order, of a framebuffer with `stride` pixels per row.
pub open spec fn region_rows(pixels: Seq<Rgb565>, stride: int, x: int, y: int, w: int, h: nat) -> Seq<
    Rgb565,
>
    decreases h,
{
    if h == 0 {
        Seq::empty()
    } else {
        let row = y + h - 1;
        region_rows(pixels, stride, x, y, w, (h - 1) as nat) + pixels.subrange(
            row * stride + x,
            row * stride + x + w,
        )
    }
}

proof fn lemma_row_index(x: int, y: int, w: int, h: int)
    requires
        0 <= x < w,
        0 <= y < h,
    ensures
        0 <= y * w + x < w * h,
        y * w + x + 1 <= (y + 1) * w,
        (y + 1) * w <= w * h,
{
    assert(y * w + x < w * h) by (nonlinear_arith)
        requires
            0 <= x < w,
            0 <= y < h,
    ;
    assert(0 <= y * w) by (nonlinear_arith)
        requires
            0 <= y,
            0 <= w,
    ;
    assert((y + 1) * w <= w * h) by (nonlinear_arith)
        requires
            0 <= y < h,
            0 <= w,
    ;
    assert((y + 1) * w == y * w + w) by (nonlinear_arith);
}

proof fn lemma_index_injective(x1: int, y1: int, x2: int, y2: int, w: int)
    requires
        0 <= x1 < w,
        0 <= x2 < w,
        0 <= y1,
        0 <= y2,
        y1 * w + x1 == y2 * w + x2,
    ensures
        x1 == x2,
        y1 == y2,
{
    if y1 < y2 {
        assert((y1 + 1) * w <= y2 * w) by (nonlinear_arith)
            requires
                y1 < y2,
                0 <= w,
        ;
        assert((y1 + 1) * w == y1 * w + w) by (nonlinear_arith);
    } else if y2 < y1 {
        assert((y2 + 1) * w <= y1 * w) by (nonlinear_arith)
            requires
                y2 < y1,
                0 <= w,
        ;
        assert((y2 + 1) * w == y2 * w + w) by (nonlinear_arith);
    }
}

/// Off-screen RGB565 framebuffer of `W` x `H` pixels that tracks the
/// rectangles touched by drawing.
///
/// `N` must be at least `W * H`; it is separate from `W` and `H` so that the
/// buffer size is a plain constant.
pub struct DirtySprite<const W: u16, const H: u16, const N: usize, const MAX_REGIONS: usize> {
    pixels: Vec<Rgb565>,
    dirty: RegionSet<MAX_REGIONS>,
    flushed: Ghost<Seq<Rgb565>>,
}

impl<const W: u16, const H: u16, const N: usize, const MAX_REGIONS: usize> DirtySprite<
    W,
    H,
    N,
    MAX_REGIONS,
> {
    /// The framebuffer, row-major, `W` pixels per row.
    pub closed spec fn pixels(&self) -> Seq<Rgb565> {
        self.pixels@
    }

    /// The dirty rectangles.
    pub closed spec fn dirty_view(&self) -> Seq<Rectangle> {
        self.dirty.regions()
    }

    /// The framebuffer as it was when dirty tracking was last cleared.
    pub closed spec fn flushed(&self) -> Seq<Rgb565> {
        self.flushed@
    }

    pub closed spec fn wf(&self) -> bool {
        &&& self.pixels@.len() == N
        &&& self.flushed@.len() == N
        &&& W * H <= N
        &&& self.dirty.wf()
        &&& within_all(self.dirty.regions(), screen(W, H))
    }

    pub open spec fn in_bounds(p: Point) -> bool {
        0 <= p.x < W && 0 <= p.y < H
    }

    pub open spec fn index_of(p: Point) -> int {
        p.y * W + p.x
    }

    pub open spec fn spec_pixel(&self, p: Point) -> Option<Rgb565> {
        if Self::in_bounds(p) {
            Some(self.pixels()[Self::index_of(p)])
        } else {
            None
        }
    }

    /// The pixel at `p` differs from what it was when tracking was cleared.
    pub open spec fn changed(&self, p: Point) -> bool {
        Self::in_bounds(p) && self.pixels()[Self::index_of(p)] != self.flushed()[Self::index_of(p)]
    }

    /// Every changed pixel lies in a dirty rectangle.
    pub open spec fn tracks_changes(&self) -> bool {
        forall|p: Point| #[trigger] self.changed(p) ==> covered(self.dirty_view(), p)
    }

    /// Creates a sprite filled with `clear` and with nothing dirty; fails with
    /// `BufferTooSmall` when `N < W * H`.
    pub fn new(clear: Rgb565) -> (r: Result<Self, DirtySpriteError>)
        requires
            W * H <= usize::MAX,
        ensures
            r is Err <==> N < W * H,
            r matches Err(e) ==> e == DirtySpriteError::BufferTooSmall,
            r matches Ok(s) ==> {
                &&& s.wf()
                &&& s.pixels() == Seq::new(N as nat, |i: int| clear)
                &&& s.dirty_view() == Seq::<Rectangle>::empty()
                &&& s.tracks_changes()
            },
    {
        if N < (W as usize) * (H as usize) {
            return Err(DirtySpriteError::BufferTooSmall);
        }
        let mut pixels: Vec<Rgb565> = Vec::new();
        let mut i: usize = 0;
        while i < N
            invariant
                i <= N,
                pixels@ == Seq::new(i as nat, |k: int| clear),
            decreases N - i,
        {
            pixels.push(clear);
            i += 1;
            assert(pixels@ =~= Seq::new(i as nat, |k: int| clear));
        }
        let ghost snapshot = pixels@;
        Ok(DirtySprite { pixels, dirty: RegionSet::new(), flushed: Ghost(snapshot) })
    }

    /// The dirty rectangles, in order.
    pub fn dirty_regions(&self) -> (r: Vec<Rectangle>)
        ensures
            r@ == self.dirty_view(),
    {
        self.dirty.iter()
    }

    /// Forgets all dirty rectangles: the framebuffer is taken as repainted.
    pub fn clear_dirty(&mut self)
        requires
            old(self).wf(),
        ensures
            final(self).wf(),
            final(self).pixels() == old(self).pixels(),
            final(self).dirty_view() == Seq::<Rectangle>::empty(),
            final(self).flushed() == final(self).pixels(),
            final(self).tracks_changes(),
    {
        self.dirty.clear();
        self.flushed = Ghost(self.pixels@);
    }

    fn index(&self, point: Point) -> (r: Option<usize>)
        requires
            self.wf(),
        ensures
            r == (if Self::in_bounds(point) {
                Some(Self::index_of(point) as usize)
            } else {
                None::<usize>
            }),
            r matches Some(i) ==> i < W * H && i < N && i as int == Self::index_of(point) && 0
                <= Self::index_of(point),
    {
        if point.x < 0 || point.y < 0 || point.x >= W as i32 || point.y >= H as i32 {
            return None;
        }
        proof {
            lemma_row_index(point.x as int, point.y as int, W as int, H as int);
        }
        Some((point.y as usize) * (W as usize) + point.x as usize)
    }

    /// The pixel at `point`, or `None` outside the sprite.
    pub fn pixel(&self, point: Point) -> (r: Option<Rgb565>)
        requires
            self.wf(),
        ensures
            r == self.spec_pixel(point),
    {
        match self.index(point) {
            Some(idx) => Some(self.pixels[idx]),
            None => None,
        }
    }

    /// Sets the pixel at `point` (points outside the sprite are ignored) and
    /// marks it dirty when its colour changes.
    ///
    /// The colour is stored even when marking fails with `TooManyRegions`.
    pub fn set_pixel(&mut self, point: Point, color: Rgb565) -> (r: Result<(), DirtySpriteError>)
        requires
            old(self).wf(),
        ensures
            final(self).wf(),
            final(self).flushed() == old(self).flushed(),
            final(self).pixels() == (if Self::in_bounds(point) {
                old(self).pixels().update(Self::index_of(point), color)
            } else {
                old(self).pixels()
            }),
            final(self).spec_pixel(point) == (if Self::in_bounds(point) {
                Some(color)
            } else {
                None::<Rgb565>
            }),
            forall|q: Point| q != point ==> #[trigger] final(self).spec_pixel(q) == old(self).spec_pixel(q),
            r matches Err(e) ==> e == DirtySpriteError::TooManyRegions && final(self).dirty_view()
                == old(self).dirty_view(),
            old(self).tracks_changes() && r is Ok ==> final(self).tracks_changes(),
            final(self).dirty_view() == (if Self::in_bounds(point) && old(self).pixels()[Self::index_of(
                point,
            )] != color {
                spec_add(
                    old(self).dirty_view(),
                    Rectangle { top_left: point, size: Size { width: 1, height: 1 } },
                    MAX_REGIONS as int,
                )
            } else {
                old(self).dirty_view()
            }),
    {
        let ghost old_self = *self;
        if let Some(idx) = self.index(point) {
            if self.pixels[idx] != color {
                self.pixels.set(idx, color);
                let rect = Rectangle::new(point, Size::new(1, 1));
                proof {
                    assert(within(rect, screen(W, H)));
                    assert forall|k: int|
                        0 <= k < old_self.dirty.regions().len() implies span_ok(
                        #[trigger] old_self.dirty.regions()[k],
                        rect,
                    ) by {
                        assert(within(old_self.dirty.regions()[k], screen(W, H)));
                    }
                }
                let res = self.dirty.add(rect);
                proof {
                    lemma_pixel_frame::<W, H, N, MAX_REGIONS>(old_self, *self, point);
                }
                return res;
            }
        }
        proof {
            lemma_pixel_frame::<W, H, N, MAX_REGIONS>(old_self, *self, point);
        }
        Ok(())
    }

    /// Fills the whole sprite with `color` and marks it dirty.
    pub fn clear(&mut self, color: Rgb565)
        requires
            old(self).wf(),
        ensures
            final(self).wf(),
            final(self).flushed() == old(self).flushed(),
            forall|i: int| 0 <= i < W * H ==> #[trigger] final(self).pixels()[i] == color,
            forall|i: int| W * H <= i < N ==> #[trigger] final(self).pixels()[i] == old(self).pixels()[i],
            MAX_REGIONS > 0 ==> final(self).tracks_changes(),
            final(self).dirty_view() == spec_add(old(self).dirty_view(), screen(W, H), MAX_REGIONS as int),
    {
        let ghost old_pixels = self.pixels@;
        let total = (W as usize) * (H as usize);
        let mut i: usize = 0;
        while i < total
            invariant
                i <= total,
                total == W * H,
                self.dirty == old(self).dirty,
                self.flushed == old(self).flushed,
                old(self).wf(),
                W * H <= N,
                self.pixels@.len() == N,
                forall|k: int| 0 <= k < i ==> #[trigger] self.pixels@[k] == color,
                forall|k: int| i <= k < N ==> #[trigger] self.pixels@[k] == old_pixels[k],
            decreases total - i,
        {
            self.pixels.set(i, color);
            i += 1;
        }
        let full = Rectangle::new(Point::zero(), Size::new(W as u32, H as u32));
        let ghost before = self.dirty.regions();
        proof {
            assert(within(full, screen(W, H)));
            assert forall|k: int| 0 <= k < before.len() implies span_ok(#[trigger] before[k], full) by {
                assert(within(before[k], screen(W, H)));
            }
            if W > 0 && H > 0 && before.len() > 0 {
                assert(within(before[0], screen(W, H)));
                assert(touches(before[0], full));
            }
        }
        let _ = self.dirty.add(full);
        proof {
            if MAX_REGIONS > 0 {
                assert forall|p: Point| #[trigger] self.changed(p) implies covered(self.dirty_view(), p) by {
                    assert(full.spec_contains(p));
                }
            }
        }
    }

    /// The sprite's size.
    pub fn size(&self) -> (r: Size)
        ensures
            r.width == W,
            r.height == H,
    {
        Size::new(W as u32, H as u32)
    }

    /// Pixels of the part of `area` inside the sprite, row by row.
    pub fn region_pixels(&self, area: Rectangle) -> (r: Vec<Rgb565>)
        requires
            self.wf(),
            area.in_range(),
        ensures
            ({
                let c = spec_intersection(area, screen(W, H));
                &&& c.spec_zero_sized() ==> r@.len() == 0
                &&& !c.spec_zero_sized() ==> r@ == region_rows(
                    self.pixels(),
                    W as int,
                    c.top_left.x as int,
                    c.top_left.y as int,
                    c.size.width as int,
                    c.size.height as nat,
                )
            }),
    {
        let clipped = clip_to_bounds(area, W, H);
        proof {
            crate::geometry::lemma_intersection_points(area, screen(W, H), clipped.top_left);
        }
        let mut out: Vec<Rgb565> = Vec::new();
        if clipped.is_zero_sized() {
            return out;
        }
        let x = clipped.top_left.x as usize;
        let y = clipped.top_left.y as usize;
        let width = clipped.size.width as usize;
        let height = clipped.size.height as usize;
        let mut row: usize = 0;
        while row < height
            invariant
                row <= height,
                width > 0,
                x + width <= W,
                y + height <= H,
                W * H <= N,
                self.pixels@.len() == N,
                out@ == region_rows(self.pixels@, W as int, x as int, y as int, width as int, row as nat),
            decreases height - row,
        {
            proof {
                lemma_row_index((x + width - 1) as int, (y + row) as int, W as int, H as int);
            }
            let base = (y + row) * (W as usize) + x;
            let mut col: usize = 0;
            while col < width
                invariant
                    col <= width,
                    row < height,
                    base == (y + row) * W + x,
                    base + width <= N,
                    self.pixels@.len() == N,
                    out@ == region_rows(self.pixels@, W as int, x as int, y as int, width as int, row as nat)
                        + self.pixels@.subrange(base as int, base + col),
                decreases width - col,
            {
                out.push(self.pixels[base + col]);
                col += 1;
                assert(out@ =~= region_rows(self.pixels@, W as int, x as int, y as int, width as int, row as nat)
                    + self.pixels@.subrange(base as int, base + col));
            }
            row += 1;
        }
        out
    }

    /// Where the part of `source_area` inside the sprite lands when the
    /// sprite's `source_area` is drawn with its top-left at `dest_top_left`,
    /// and the pixels to draw there; `None` when nothing of it is inside.
    pub fn region_at(&self, source_area: Rectangle, dest_top_left: Point) -> (r: Option<(Rectangle, Vec<Rgb565>)>)
        requires
            self.wf(),
            source_area.in_range(),
            ({
                let c = spec_intersection(source_area, screen(W, H));
                &&& i32::MIN <= dest_top_left.x + (c.top_left.x - source_area.top_left.x) <= i32::MAX
                &&& i32::MIN <= dest_top_left.y + (c.top_left.y - source_area.top_left.y) <= i32::MAX
            }),
        ensures
            ({
                let c = spec_intersection(source_area, screen(W, H));
                match r {
                    None => c.spec_zero_sized(),
                    Some((target, pixels)) => {
                        &&& !c.spec_zero_sized()
                        &&& target.top_left.x == dest_top_left.x + (c.top_left.x - source_area.top_left.x)
                        &&& target.top_left.y == dest_top_left.y + (c.top_left.y - source_area.top_left.y)
                        &&& target.size == c.size
                        &&& pixels@ == region_rows(
                            self.pixels(),
                            W as int,
                            c.top_left.x as int,
                            c.top_left.y as int,
                            c.size.width as int,
                            c.size.height as nat,
                        )
                    },
                }
            }),
    {
        let clipped = clip_to_bounds(source_area, W, H);
        if clipped.is_zero_sized() {
            return None;
        }
        proof {
            crate::geometry::lemma_intersection_points(source_area, screen(W, H), clipped.top_left);
        }
        let offset_x = clipped.top_left.x - source_area.top_left.x;
        let offset_y = clipped.top_left.y - source_area.top_left.y;
        let target = Rectangle::new(
            Point::new(dest_top_left.x + offset_x, dest_top_left.y + offset_y),
            clipped.size,
        );
        let pixels = self.region_pixels(clipped);
        proof {
            lemma_intersection_idempotent(source_area, screen(W, H));
        }
        Some((target, pixels))
    }
}

/// A solid rectangle inside the screen is its own clipped part.
proof fn lemma_clip_within(d: Rectangle, w: u16, h: u16)
    requires
        solid(d),
        within(d, screen(w, h)),
    ensures
        spec_intersection(d, screen(w, h)) == d,
{
}

impl<const W: u16, const H: u16, const N: usize, const MAX_REGIONS: usize> DirtySprite<
    W,
    H,
    N,
    MAX_REGIONS,
> {
    /// The repaint of the dirty rectangles with the sprite placed at
    /// `origin`: for each dirty rectangle, in order, where it lands and its
    /// pixels in row order. Afterwards nothing is dirty.
    pub fn flush_dirty_at(&mut self, origin: Point) -> (r: Vec<(Rectangle, Vec<Rgb565>)>)
        requires
            old(self).wf(),
            origin.x + W <= i32::MAX,
            origin.y + H <= i32::MAX,
        ensures
            final(self).wf(),
            final(self).pixels() == old(self).pixels(),
            final(self).dirty_view() == Seq::<Rectangle>::empty(),
            final(self).flushed() == final(self).pixels(),
            final(self).tracks_changes(),
            r@.len() == old(self).dirty_view().len(),
            forall|i: int|
                0 <= i < r@.len() ==> {
                    let d = #[trigger] old(self).dirty_view()[i];
                    &&& r@[i].0 == (Rectangle {
                        top_left: Point {
                            x: (origin.x + d.top_left.x) as i32,
                            y: (origin.y + d.top_left.y) as i32,
                        },
                        size: d.size,
                    })
                    &&& r@[i].1@ == region_rows(
                        old(self).pixels(),
                        W as int,
                        d.top_left.x as int,
                        d.top_left.y as int,
                        d.size.width as int,
                        d.size.height as nat,
                    )
                },
    {
        let regions = self.dirty.iter();
        let mut out: Vec<(Rectangle, Vec<Rgb565>)> = Vec::new();
        let mut i: usize = 0;
        while i < regions.len()
            invariant
                self.wf(),
                regions@ == self.dirty_view(),
                i <= regions@.len(),
                out@.len() == i,
                origin.x + W <= i32::MAX,
                origin.y + H <= i32::MAX,
                forall|j: int|
                    0 <= j < i ==> {
                        let d = #[trigger] regions@[j];
                        &&& out@[j].0 == (Rectangle {
                            top_left: Point {
                                x: (origin.x + d.top_left.x) as i32,
                                y: (origin.y + d.top_left.y) as i32,
                            },
                            size: d.size,
                        })
                        &&& out@[j].1@ == region_rows(
                            self.pixels(),
                            W as int,
                            d.top_left.x as int,
                            d.top_left.y as int,
                            d.size.width as int,
                            d.size.height as nat,
                        )
                    },
            decreases regions@.len() - i,
        {
            let d = regions[i];
            proof {
                assert(solid(regions@[i as int]));
                assert(within(regions@[i as int], screen(W, H)));
                lemma_clip_within(d, W, H);
            }
            let dest = Point::new(origin.x + d.top_left.x, origin.y + d.top_left.y);
            match self.region_at(d, dest) {
                Some(part) => {
                    out.push(part);
                },
                None => {
                    assert(false);
                },
            }
            i += 1;
        }
        self.clear_dirty();
        out
    }

    /// The repaint of the dirty rectangles at their own place.
    pub fn flush_dirty(&mut self) -> (r: Vec<(Rectangle, Vec<Rgb565>)>)
        requires
            old(self).wf(),
        ensures
            final(self).wf(),
            final(self).pixels() == old(self).pixels(),
            final(self).dirty_view() == Seq::<Rectangle>::empty(),
            final(self).tracks_changes(),
            r@.len() == old(self).dirty_view().len(),
            forall|i: int|
                0 <= i < r@.len() ==> {
                    let d = #[trigger] old(self).dirty_view()[i];
                    &&& r@[i].0 == d
                    &&& r@[i].1@ == region_rows(
                        old(self).pixels(),
                        W as int,
                        d.top_left.x as int,
                        d.top_left.y as int,
                        d.size.width as int,
                        d.size.height as nat,
                    )
                },
    {
        let r = self.flush_dirty_at(Point::zero());
        r
    }
}

proof fn lemma_intersection_idempotent(a: Rectangle, b: Rectangle)
    requires
        a.in_range(),
        b.in_range(),
        !spec_intersection(a, b).spec_zero_sized(),
        !b.spec_zero_sized(),
    ensures
        spec_intersection(spec_intersection(a, b), b) == spec_intersection(a, b),
{
}

/// What changes in the sprite's pixel view when one pixel is written.
proof fn lemma_pixel_frame<const W: u16, const H: u16, const N: usize, const MAX_REGIONS: usize>(
    old_s: DirtySprite<W, H, N, MAX_REGIONS>,
    new_s: DirtySprite<W, H, N, MAX_REGIONS>,
    point: Point,
)
    requires
        old_s.wf(),
        new_s.wf(),
        new_s.flushed() == old_s.flushed(),
        forall|i: int|
            0 <= i < N && (!DirtySprite::<W, H, N, MAX_REGIONS>::in_bounds(point) || i
                != DirtySprite::<W, H, N, MAX_REGIONS>::index_of(point)) ==> #[trigger] new_s.pixels()[i]
                == old_s.pixels()[i],
    ensures
        forall|q: Point| q != point ==> #[trigger] new_s.spec_pixel(q) == old_s.spec_pixel(q),
        forall|q: Point| q != point ==> (#[trigger] new_s.changed(q) == old_s.changed(q)),
{
    assert forall|q: Point| q != point && DirtySprite::<W, H, N, MAX_REGIONS>::in_bounds(q) implies
        new_s.pixels()[DirtySprite::<W, H, N, MAX_REGIONS>::index_of(q)] == old_s.pixels()[DirtySprite::<W, H, N, MAX_REGIONS>::index_of(q)]
        && 0 <= DirtySprite::<W, H, N, MAX_REGIONS>::index_of(q) < N by {
        lemma_row_index(q.x as int, q.y as int, W as int, H as int);
        if DirtySprite::<W, H, N, MAX_REGIONS>::in_bounds(point) {
            if q.y * W + q.x == point.y * W + point.x {
                lemma_index_injective(q.x as int, q.y as int, point.x as int, point.y as int, W as int);
            }
        }
    }
    assert forall|q: Point| q != point implies #[trigger] new_s.spec_pixel(q) == old_s.spec_pixel(q) by {
    }
    assert forall|q: Point| q != point implies (#[trigger] new_s.changed(q) == old_s.changed(q)) by {
    }
}

} // verus!

//! Screen regions and the fixed proportional splits of the layout policy.
//!
//! The screen is cut into a header (the tab bar), a body and a footer, and
//! several panels cut their body further into a stats column and a
//! visualization column.  The ratios are configuration constants, and the
//! split arithmetic is the library's own, stated and verified: each slice
//! asks for its fixed length, its minimum, or its percentage of the span;
//! leftover cells go to the slice meant to take the rest; and when the span
//! is too short the later slices give way first.  Every region a panel
//! draws into is pinned to an element of such a split.

use vstd::prelude::*;
use vstd::arithmetic::div_mod::lemma_div_pos_is_pos;
use vstd::arithmetic::mul::lemma_mul_nonnegative;

verus! {

/// A rectangular area of the terminal, in character cells.
#[derive(Clone, Copy, Debug, PartialEq, Eq, Structural)]
pub struct Region {
    pub x: u16,
    pub y: u16,
    pub width: u16,
    pub height: u16,
}

/// `a + b` clipped to the range of `u16`.
pub open spec fn sat_add_u16(a: u16, b: u16) -> u16 {
    if a + b > u16::MAX {
        u16::MAX
    } else {
        (a + b) as u16
    }
}

impl Region {
    /// The region shrunk by a margin on each side: empty when the margin
    /// does not fit, otherwise moved in by the margin and narrowed by
    /// twice of it, with the corner clipped to the type's range.
    pub open spec fn inner_spec(self, vertical: u16, horizontal: u16) -> Region {
        if self.width < 2 * horizontal || self.height < 2 * vertical {
            Region { x: 0, y: 0, width: 0, height: 0 }
        } else {
            Region {
                x: sat_add_u16(self.x, horizontal),
                y: sat_add_u16(self.y, vertical),
                width: (self.width - 2 * horizontal) as u16,
                height: (self.height - 2 * vertical) as u16,
            }
        }
    }

    /// The region shrunk by a margin on each side (see `inner_spec`);
    /// scrollbars sit in the one-cell vertical inset of their panel.
    pub fn inner(self, vertical: u16, horizontal: u16) -> (r: Region)
        ensures
            r == self.inner_spec(vertical, horizontal),
    {
        let dh: u32 = 2 * (horizontal as u32);
        let dv: u32 = 2 * (vertical as u32);
        if (self.width as u32) < dh || (self.height as u32) < dv {
            Region { x: 0, y: 0, width: 0, height: 0 }
        } else {
            let x: u32 = self.x as u32 + horizontal as u32;
            let y: u32 = self.y as u32 + vertical as u32;
            Region {
                x: if x > u16::MAX as u32 {
                    u16::MAX
                } else {
                    x as u16
                },
                y: if y > u16::MAX as u32 {
                    u16::MAX
                } else {
                    y as u16
                },
                width: ((self.width as u32 - dh) as u16),
                height: ((self.height as u32 - dv) as u16),
            }
        }
    }
}

/// Which way an area is cut.
#[derive(Clone, Copy, Debug, PartialEq, Eq, Structural)]
pub enum Dir {
    Horizontal,
    Vertical,
}

/// One requested piece of an area: a fixed number of cells, a lower bound
/// that takes the rest, or a percentage of the whole.
#[derive(Clone, Copy, Debug, PartialEq, Eq, Structural)]
pub enum Slice {
    Length(u16),
    Min(u16),
    Percentage(u16),
}

/// The cells a slice asks for out of a span of `total`: its fixed length,
/// its minimum, or its percentage rounded down — and never more than the
/// span itself.
pub open spec fn asked_size(s: Slice, total: int) -> int {
    match s {
        Slice::Length(n) => n as int,
        Slice::Min(n) => n as int,
        Slice::Percentage(p) => {
            let q = total * p / 100;
            if q > total {
                total
            } else {
                q
            }
        },
    }
}

/// What each slice asks for, in order.
pub open spec fn asked_sizes(slices: Seq<Slice>, total: int) -> Seq<int> {
    Seq::new(slices.len(), |i: int| asked_size(slices[i], total))
}

/// The sum of a list of sizes.
pub open spec fn size_sum(sizes: Seq<int>) -> int
    decreases sizes.len(),
{
    if sizes.len() == 0 {
        0
    } else {
        size_sum(sizes.drop_last()) + sizes.last()
    }
}

/// The position of the last slice that asks only for a minimum — the one
/// meant to take whatever is left.
pub open spec fn last_min_index(slices: Seq<Slice>) -> Option<int>
    decreases slices.len(),
{
    if slices.len() == 0 {
        None
    } else if slices.last() is Min {
        Some(slices.len() - 1)
    } else {
        last_min_index(slices.drop_last())
    }
}

/// Leftover cells go to the last Min slice, and to the last slice when
/// there is none.
pub open spec fn grown(slices: Seq<Slice>, sizes: Seq<int>, surplus: int) -> Seq<int> {
    if sizes.len() == 0 {
        sizes
    } else {
        let j = match last_min_index(slices) {
            Some(j) => j,
            None => sizes.len() - 1,
        };
        sizes.update(j, sizes[j] + surplus)
    }
}

/// When the asked sizes overrun the span, the later slices give way
/// first, each shrinking at most to nothing.
pub open spec fn shrunk(sizes: Seq<int>, deficit: int) -> Seq<int>
    decreases sizes.len(),
{
    if sizes.len() == 0 {
        sizes
    } else {
        let cut = if sizes.last() < deficit {
            sizes.last()
        } else {
            deficit
        };
        shrunk(sizes.drop_last(), deficit - cut).push(sizes.last() - cut)
    }
}

/// The sizes the slices receive: what each asks for, stretched or shrunk
/// so that together they fill the span exactly.
pub open spec fn split_sizes(slices: Seq<Slice>, total: int) -> Seq<int> {
    let asked = asked_sizes(slices, total);
    let sum = size_sum(asked);
    if sum <= total {
        grown(slices, asked, total - sum)
    } else {
        shrunk(asked, sum - total)
    }
}

/// The regions of a split: the area shrunk by the margin, its span along
/// the cut direction divided by `split_sizes` into consecutive pieces
/// (the span clipped so that it ends within the cell range), and the
/// other direction passed through whole.
pub open spec fn split_spec(dir: Dir, margin: u16, area: Region, slices: Seq<Slice>) -> Seq<
    Region,
> {
    let inner = area.inner_spec(margin, margin);
    let origin = if dir is Vertical {
        inner.y
    } else {
        inner.x
    };
    let axis = if dir is Vertical {
        inner.height
    } else {
        inner.width
    };
    let total: int = if axis <= u16::MAX - origin {
        axis as int
    } else {
        (u16::MAX - origin) as int
    };
    let sizes = split_sizes(slices, total);
    Seq::new(
        slices.len(),
        |i: int|
            {
                let start = origin + size_sum(sizes.take(i));
                if dir is Vertical {
                    Region {
                        x: inner.x,
                        y: start as u16,
                        width: inner.width,
                        height: sizes[i] as u16,
                    }
                } else {
                    Region {
                        x: start as u16,
                        y: inner.y,
                        width: sizes[i] as u16,
                        height: inner.height,
                    }
                }
            },
    )
}

/// The integer views of a vector of cell counts.
spec fn sizes_ints(v: Seq<u16>) -> Seq<int> {
    Seq::new(v.len(), |i: int| v[i] as int)
}

/// What a slice asks for is never negative.
proof fn lemma_asked_nonneg(s: Slice, total: int)
    requires
        total >= 0,
    ensures
        asked_size(s, total) >= 0,
{
    match s {
        Slice::Percentage(p) => {
            lemma_mul_nonnegative(total, p as int);
            lemma_div_pos_is_pos(total * (p as int), 100);
        },
        _ => {},
    }
}

/// One more element extends a prefix sum by that element.
proof fn lemma_size_sum_take_step(s: Seq<int>, i: int)
    requires
        0 <= i < s.len(),
    ensures
        size_sum(s.take(i + 1)) == size_sum(s.take(i)) + s[i],
{
    assert(s.take(i + 1).drop_last() =~= s.take(i));
    assert(s.take(i + 1).last() == s[i]);
}

/// A sum of non-negative sizes is non-negative.
proof fn lemma_size_sum_nonneg(s: Seq<int>)
    requires
        forall|k: int| 0 <= k < s.len() ==> s[k] >= 0,
    ensures
        size_sum(s) >= 0,
    decreases s.len(),
{
    if s.len() > 0 {
        lemma_size_sum_nonneg(s.drop_last());
    }
}

/// A prefix of non-negative sizes sums to no more than the whole.
proof fn lemma_size_sum_take_le(s: Seq<int>, i: int)
    requires
        0 <= i <= s.len(),
        forall|k: int| 0 <= k < s.len() ==> s[k] >= 0,
    ensures
        0 <= size_sum(s.take(i)) <= size_sum(s),
    decreases s.len() - i,
{
    lemma_size_sum_nonneg(s.take(i));
    if i < s.len() {
        lemma_size_sum_take_step(s, i);
        lemma_size_sum_take_le(s, i + 1);
    } else {
        assert(s.take(i) =~= s);
    }
}

/// No non-negative element exceeds the sum.
proof fn lemma_element_le_size_sum(s: Seq<int>, i: int)
    requires
        0 <= i < s.len(),
        forall|k: int| 0 <= k < s.len() ==> s[k] >= 0,
    ensures
        s[i] <= size_sum(s),
{
    lemma_size_sum_take_step(s, i);
    lemma_size_sum_take_le(s, i);
    lemma_size_sum_take_le(s, i + 1);
}

/// Replacing one element changes the sum by the difference.
proof fn lemma_size_sum_update(s: Seq<int>, j: int, v: int)
    requires
        0 <= j < s.len(),
    ensures
        size_sum(s.update(j, v)) == size_sum(s) - s[j] + v,
    decreases s.len(),
{
    if j == s.len() - 1 {
        assert(s.update(j, v).drop_last() =~= s.drop_last());
        assert(s.update(j, v).last() == v);
    } else {
        lemma_size_sum_update(s.drop_last(), j, v);
        assert(s.update(j, v).drop_last() =~= s.drop_last().update(j, v));
        assert(s.update(j, v).last() == s.last());
    }
}

/// Shrinking keeps every size between zero and what it was, and removes
/// exactly the deficit from the sum (all of it, when there is enough).
proof fn lemma_shrunk_props(s: Seq<int>, d: int)
    requires
        d >= 0,
        forall|k: int| 0 <= k < s.len() ==> s[k] >= 0,
    ensures
        shrunk(s, d).len() == s.len(),
        forall|k: int| 0 <= k < s.len() ==> 0 <= #[trigger] shrunk(s, d)[k] <= s[k],
        size_sum(shrunk(s, d)) == if d <= size_sum(s) {
            size_sum(s) - d
        } else {
            0
        },
    decreases s.len(),
{
    if s.len() > 0 {
        let cut = if s.last() < d {
            s.last()
        } else {
            d
        };
        lemma_shrunk_props(s.drop_last(), d - cut);
        lemma_size_sum_nonneg(s.drop_last());
        let rec = shrunk(s.drop_last(), d - cut);
        assert(rec.push(s.last() - cut).drop_last() =~= rec);
        assert(size_sum(shrunk(s, d)) == size_sum(rec) + (s.last() - cut));
        assert forall|k: int| 0 <= k < s.len() implies 0 <= #[trigger] shrunk(s, d)[k] <= s[k] by {
            if k < s.len() - 1 {
                assert(shrunk(s, d)[k] == rec[k]);
                assert(s.drop_last()[k] == s[k]);
            }
        }
    }
}

/// Divide an area along a direction into one region per slice, by the
/// stated policy (`split_spec`).
fn split_regions(dir: Dir, margin: u16, area: Region, slices: &Vec<Slice>) -> (r: Vec<Region>)
    ensures
        r@ == split_spec(dir, margin, area, slices@),
        r@.len() == slices@.len(),
{
    let inner = area.inner(margin, margin);
    let origin: u16 = match dir {
        Dir::Vertical => inner.y,
        Dir::Horizontal => inner.x,
    };
    let axis: u16 = match dir {
        Dir::Vertical => inner.height,
        Dir::Horizontal => inner.width,
    };
    let room: u16 = u16::MAX - origin;
    let total: u16 = if axis <= room {
        axis
    } else {
        room
    };
    let ghost gslices = slices@;
    let ghost gtotal = total as int;
    let ghost gasked = asked_sizes(gslices, gtotal);
    proof {
        assert forall|k: int| 0 <= k < gasked.len() implies gasked[k] >= 0 by {
            lemma_asked_nonneg(gslices[k], gtotal);
        }
    }

    // what each slice asks for, the running sum, and the last Min slice
    let mut sizes: Vec<u16> = Vec::new();
    let mut last_min: Option<usize> = None;
    let mut sum: u128 = 0;
    let mut i: usize = 0;
    while i < slices.len()
        invariant
            i <= gslices.len(),
            gslices == slices@,
            gtotal == total as int,
            gasked == asked_sizes(gslices, gtotal),
            sizes@.len() == i,
            forall|k: int| 0 <= k < i ==> sizes@[k] as int == gasked[k],
            sum == size_sum(gasked.take(i as int)),
            sum <= 0xFFFF * (i as int),
            match last_min {
                Some(j) => last_min_index(gslices.take(i as int)) == Some(j as int) && j < i,
                None => last_min_index(gslices.take(i as int)) is None,
            },
        decreases gslices.len() - i,
    {
        let v: u16 = match slices[i] {
            Slice::Length(n) => n,
            Slice::Min(n) => {
                last_min = Some(i);
                n
            },
            Slice::Percentage(p) => {
                proof {
                    assert((total as int) * (p as int) <= 0xFFFF * 0xFFFF) by (nonlinear_arith)
                        requires
                            0 <= total as int <= 0xFFFF,
                            0 <= p as int <= 0xFFFF,
                    ;
                }
                let q: u32 = (total as u32) * (p as u32) / 100;
                if q > total as u32 {
                    total
                } else {
                    q as u16
                }
            },
        };
        proof {
            assert(v as int == gasked[i as int]);
            lemma_size_sum_take_step(gasked, i as int);
            assert(gslices.take(i + 1).drop_last() =~= gslices.take(i as int));
        }
        sum = sum + (v as u128);
        sizes.push(v);
        i = i + 1;
    }
    proof {
        assert(gasked.take(gslices.len() as int) =~= gasked);
        assert(gslices.take(gslices.len() as int) =~= gslices);
    }

    // stretch or shrink so the sizes fill the span exactly
    let ghost fsizes = split_sizes(gslices, gtotal);
    if sum <= total as u128 {
        if slices.len() > 0 {
            let surplus: u16 = total - (sum as u16);
            let j: usize = match last_min {
                Some(j) => j,
                None => slices.len() - 1,
            };
            proof {
                lemma_element_le_size_sum(gasked, j as int);
            }
            let grown_v: u16 = sizes[j] + surplus;
            sizes.set(j, grown_v);
            proof {
                lemma_size_sum_update(gasked, j as int, gasked[j as int] + (surplus as int));
            }
        }
        proof {
            assert(sizes_ints(sizes@) =~= fsizes);
        }
    } else {
        let ghost deficit0 = sum as int - gtotal;
        let mut d: u128 = sum - (total as u128);
        let mut j: usize = slices.len();
        proof {
            assert(sizes_ints(sizes@).skip(j as int) =~= Seq::<int>::empty());
            assert(shrunk(gasked.take(j as int), d as int) + sizes_ints(sizes@).skip(j as int)
                =~= shrunk(gasked, deficit0));
        }
        while j > 0
            invariant
                j <= gslices.len(),
                gslices == slices@,
                gtotal == total as int,
                gasked == asked_sizes(gslices, gtotal),
                forall|k: int| 0 <= k < gasked.len() ==> gasked[k] >= 0,
                sizes@.len() == gslices.len(),
                forall|k: int| 0 <= k < j ==> sizes@[k] as int == gasked[k],
                d >= 0,
                shrunk(gasked, deficit0) =~= shrunk(gasked.take(j as int), d as int)
                    + sizes_ints(sizes@).skip(j as int),
            decreases j,
        {
            j = j - 1;
            let ghost before = sizes@;
            let ghost dbefore = d as int;
            let cut: u16 = if (sizes[j] as u128) < d {
                sizes[j]
            } else {
                d as u16
            };
            let shrunk_v: u16 = sizes[j] - cut;
            sizes.set(j, shrunk_v);
            d = d - (cut as u128);
            proof {
                assert(gasked.take(j + 1).drop_last() =~= gasked.take(j as int));
                assert(gasked.take(j + 1).last() == gasked[j as int]);
                let rec = shrunk(gasked.take(j as int), dbefore - cut);
                assert(shrunk(gasked.take(j + 1), dbefore) =~= rec.push(
                    gasked[j as int] - cut,
                ));
                assert(sizes_ints(sizes@).skip(j as int) =~= seq![gasked[j as int] - (cut as int)]
                    + sizes_ints(before).skip(j + 1));
                assert(rec.push(gasked[j as int] - cut) + sizes_ints(before).skip(j + 1) =~= rec
                    + sizes_ints(sizes@).skip(j as int));
            }
        }
        proof {
            assert(gasked.take(0) =~= Seq::<int>::empty());
            assert(shrunk(Seq::<int>::empty(), d as int) + sizes_ints(sizes@).skip(0)
                =~= sizes_ints(sizes@));
            assert(sizes_ints(sizes@) =~= fsizes);
        }
    }

    proof {
        assert forall|k: int| 0 <= k < fsizes.len() implies 0 <= #[trigger] fsizes[k] by {
            if size_sum(gasked) <= gtotal {
                lemma_size_sum_nonneg(gasked);
            } else {
                lemma_shrunk_props(gasked, size_sum(gasked) - gtotal);
            }
        }
        if fsizes.len() > 0 {
            if size_sum(gasked) <= gtotal {
                let j = match last_min_index(gslices) {
                    Some(j) => j,
                    None => gasked.len() - 1,
                };
                lemma_size_sum_update(gasked, j, gasked[j] + (gtotal - size_sum(gasked)));
            } else {
                lemma_shrunk_props(gasked, size_sum(gasked) - gtotal);
            }
            assert(size_sum(fsizes) == gtotal);
        }
    }

    // lay the pieces out one after another from the origin
    let ghost gresult = split_spec(dir, margin, area, gslices);
    let mut r: Vec<Region> = Vec::new();
    let mut pos: u16 = origin;
    let mut i: usize = 0;
    while i < slices.len()
        invariant
            i <= gslices.len(),
            gslices == slices@,
            gtotal == total as int,
            origin as int + gtotal <= u16::MAX,
            sizes@.len() == gslices.len(),
            sizes_ints(sizes@) == fsizes,
            fsizes == split_sizes(gslices, gtotal),
            forall|k: int| 0 <= k < fsizes.len() ==> 0 <= #[trigger] fsizes[k],
            fsizes.len() > 0 ==> size_sum(fsizes) == gtotal,
            pos as int == origin + size_sum(fsizes.take(i as int)),
            gresult == split_spec(dir, margin, area, gslices),
            inner == area.inner_spec(margin, margin),
            origin == (if dir is Vertical {
                inner.y
            } else {
                inner.x
            }),
            gtotal == ({
                let axis0 = if dir is Vertical {
                    inner.height
                } else {
                    inner.width
                };
                if axis0 <= u16::MAX - origin {
                    axis0 as int
                } else {
                    (u16::MAX - origin) as int
                }
            }),
            r@ =~= gresult.take(i as int),
        decreases gslices.len() - i,
    {
        proof {
            lemma_size_sum_take_step(fsizes, i as int);
            lemma_size_sum_take_le(fsizes, i + 1);
            assert(sizes_ints(sizes@)[i as int] == sizes@[i as int] as int);
            assert(fsizes[i as int] == sizes@[i as int] as int);
        }
        let sz: u16 = sizes[i];
        let piece = match dir {
            Dir::Vertical => Region { x: inner.x, y: pos, width: inner.width, height: sz },
            Dir::Horizontal => Region { x: pos, y: inner.y, width: sz, height: inner.height },
        };
        proof {
            assert(piece == gresult[i as int]);
            assert(gresult.take(i + 1) =~= gresult.take(i as int).push(gresult[i as int]));
        }
        r.push(piece);
        pos = pos + sz;
        i = i + 1;
    }
    proof {
        assert(r@ =~= gresult);
    }
    r
}

/// The slices of the whole screen: a three-row header for the tab bar,
/// the body taking the rest, and a three-row footer.
pub open spec fn root_slices() -> Seq<Slice> {
    seq![Slice::Length(3), Slice::Min(2), Slice::Length(3)]
}

/// The rows of the whole screen, inside a margin of two cells.
pub open spec fn root_regions_spec(area: Region) -> Seq<Region> {
    split_spec(Dir::Vertical, 2, area, root_slices())
}

/// A stats column beside a visualization column, 30% / 70%.
pub open spec fn columns_30_70_spec(area: Region) -> Seq<Region> {
    split_spec(Dir::Horizontal, 0, area, seq![Slice::Percentage(30), Slice::Percentage(70)])
}

/// A stats column beside a visualization column, 20% / 80%.
pub open spec fn columns_20_80_spec(area: Region) -> Seq<Region> {
    split_spec(Dir::Horizontal, 0, area, seq![Slice::Percentage(20), Slice::Percentage(80)])
}

/// An area cut into equal top and bottom halves.
pub open spec fn halves_vertical_spec(area: Region) -> Seq<Region> {
    split_spec(Dir::Vertical, 0, area, seq![Slice::Percentage(50), Slice::Percentage(50)])
}

/// Three vertical bands at 40% / 25% / 40%; the narrow middle band holds
/// a gauge.
pub open spec fn gauge_bands_spec(area: Region) -> Seq<Region> {
    split_spec(Dir::Vertical, 0, area, seq![
        Slice::Percentage(40),
        Slice::Percentage(25),
        Slice::Percentage(40),
    ])
}

/// The rows of the whole screen (see `root_regions_spec`).
pub fn root_regions(area: Region) -> (r: Vec<Region>)
    ensures
        r@ == root_regions_spec(area),
        r@.len() == 3,
{
    let slices = vec![Slice::Length(3), Slice::Min(2), Slice::Length(3)];
    proof {
        assert(slices@ =~= root_slices());
    }
    split_regions(Dir::Vertical, 2, area, &slices)
}

/// A stats column beside a visualization column, 30% / 70%.
pub fn columns_30_70(area: Region) -> (r: Vec<Region>)
    ensures
        r@ == columns_30_70_spec(area),
        r@.len() == 2,
{
    let slices = vec![Slice::Percentage(30), Slice::Percentage(70)];
    proof {
        assert(slices@ =~= seq![Slice::Percentage(30), Slice::Percentage(70)]);
    }
    split_regions(Dir::Horizontal, 0, area, &slices)
}

/// A stats column beside a visualization column, 20% / 80%.
pub fn columns_20_80(area: Region) -> (r: Vec<Region>)
    ensures
        r@ == columns_20_80_spec(area),
        r@.len() == 2,
{
    let slices = vec![Slice::Percentage(20), Slice::Percentage(80)];
    proof {
        assert(slices@ =~= seq![Slice::Percentage(20), Slice::Percentage(80)]);
    }
    split_regions(Dir::Horizontal, 0, area, &slices)
}

/// An area cut into equal top and bottom halves.
pub fn halves_vertical(area: Region) -> (r: Vec<Region>)
    ensures
        r@ == halves_vertical_spec(area),
        r@.len() == 2,
{
    let slices = vec![Slice::Percentage(50), Slice::Percentage(50)];
    proof {
        assert(slices@ =~= seq![Slice::Percentage(50), Slice::Percentage(50)]);
    }
    split_regions(Dir::Vertical, 0, area, &slices)
}

/// Three vertical bands at 40% / 25% / 40%; the narrow middle band holds
/// a gauge.
pub fn gauge_bands(area: Region) -> (r: Vec<Region>)
    ensures
        r@ == gauge_bands_spec(area),
        r@.len() == 3,
{
    let slices = vec![Slice::Percentage(40), Slice::Percentage(25), Slice::Percentage(40)];
    proof {
        assert(slices@ =~= seq![
            Slice::Percentage(40),
            Slice::Percentage(25),
            Slice::Percentage(40),
        ]);
    }
    split_regions(Dir::Vertical, 0, area, &slices)
}

} // verus!

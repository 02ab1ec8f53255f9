//! Stacking of page images into one image, top to bottom.

use crate::codec::overlay;
use crate::raster::{
    lemma_index_is_sample, lemma_sample_index, lemma_sample_index_injective, sample_count,
    Raster, RasterView,
};
use vstd::prelude::*;

verus! {

/// What each image of a list stands for, in the list's order.
pub open spec fn views_of(pages: Seq<Raster>) -> Seq<RasterView> {
    pages.map_values(|page: Raster| page@)
}

/// The heights of all pages together.
pub open spec fn total_height(pages: Seq<RasterView>) -> nat
    decreases pages.len(),
{
    if pages.len() == 0 {
        0
    } else {
        total_height(pages.drop_last()) + pages.last().height
    }
}

/// The width of the widest page; zero where there is no page.
pub open spec fn max_width(pages: Seq<RasterView>) -> nat
    decreases pages.len(),
{
    if pages.len() == 0 {
        0
    } else if max_width(pages.drop_last()) >= pages.last().width {
        max_width(pages.drop_last())
    } else {
        pages.last().width
    }
}

/// The row of the stack on which page `i` begins: the heights of the pages
/// before it.
pub open spec fn offset_of(pages: Seq<RasterView>, i: int) -> nat {
    total_height(pages.take(i))
}

/// Channel `c` of the pixel in column `x` of row `y` of the stack: the sample
/// of the page whose rows hold row `y`, or zero to the right of that page.
pub open spec fn stacked_sample(pages: Seq<RasterView>, x: int, y: int, c: int) -> u8
    decreases pages.len(),
{
    if pages.len() == 0 {
        0
    } else {
        let top = total_height(pages.drop_last());
        let page = pages.last();
        if y < top {
            stacked_sample(pages.drop_last(), x, y, c)
        } else if x < page.width && y - top < page.height {
            page.sample(x, y - top, c)
        } else {
            0
        }
    }
}

/// The stack of the pages: as wide as the widest, as high as all together,
/// each page below the one before it and flush with the left edge.
pub open spec fn stacked(pages: Seq<RasterView>) -> RasterView {
    let width = max_width(pages);
    let height = total_height(pages);
    let shape = RasterView { width, height, samples: Seq::empty() };
    RasterView {
        width,
        height,
        samples: Seq::new(
            3 * width * height,
            |i: int|
                stacked_sample(pages, shape.column_of(i), shape.row_of(i), shape.channel_of(i)),
        ),
    }
}

/// The stack can be held: its height is a `u32` and the number of its
/// samples a `usize`.
pub open spec fn stack_fits(pages: Seq<RasterView>) -> bool {
    total_height(pages) <= u32::MAX && 3 * max_width(pages) * total_height(pages) <= usize::MAX
}

/// The first pages of a list are no higher and no wider than all of them.
pub proof fn lemma_prefix_is_smaller(pages: Seq<RasterView>, i: int)
    requires
        0 <= i <= pages.len(),
    ensures
        total_height(pages.take(i)) <= total_height(pages),
        max_width(pages.take(i)) <= max_width(pages),
    decreases pages.len(),
{
    if i == pages.len() {
        assert(pages.take(i) =~= pages);
    } else {
        assert(pages.drop_last().take(i) =~= pages.take(i));
        lemma_prefix_is_smaller(pages.drop_last(), i);
    }
}

/// Page `i` begins where the pages before it end, and is no wider than the
/// stack.
pub proof fn lemma_offset_step(pages: Seq<RasterView>, i: int)
    requires
        0 <= i < pages.len(),
    ensures
        offset_of(pages, i + 1) == offset_of(pages, i) + pages[i].height,
        offset_of(pages, i + 1) <= total_height(pages),
        pages[i].width <= max_width(pages),
        offset_of(pages, 0) == 0,
        offset_of(pages, pages.len() as int) == total_height(pages),
{
    assert(pages.take(i + 1).drop_last() =~= pages.take(i));
    assert(pages.take(i + 1).last() == pages[i]);
    lemma_prefix_is_smaller(pages, i + 1);
    assert(pages.take(0) =~= Seq::<RasterView>::empty());
    assert(pages.take(pages.len() as int) =~= pages);
}

/// Below its last page the stack holds nothing.
pub proof fn lemma_below_stack_is_zero(pages: Seq<RasterView>, x: int, y: int, c: int)
    requires
        y >= total_height(pages),
    ensures
        stacked_sample(pages, x, y, c) == 0,
{
}

/// The rows of page `i` of the stack hold that page's samples, and zero to
/// its right.
pub proof fn lemma_stacked_band(pages: Seq<RasterView>, i: int, x: int, row: int, c: int)
    requires
        0 <= i < pages.len(),
        0 <= row < pages[i].height,
    ensures
        stacked_sample(pages, x, offset_of(pages, i) + row, c) == (if x < pages[i].width {
            pages[i].sample(x, row, c)
        } else {
            0
        }),
    decreases pages.len(),
{
    if i == pages.len() - 1 {
        assert(pages.take(i) =~= pages.drop_last());
    } else {
        let rest = pages.drop_last();
        assert(rest.take(i) =~= pages.take(i));
        assert(rest[i] == pages[i]);
        lemma_offset_step(rest, i);
        lemma_stacked_band(rest, i, x, row, c);
    }
}

/// Every row of the stack belongs to one page: the result is that page's
/// place in the list.
pub proof fn lemma_row_has_page(pages: Seq<RasterView>, y: int) -> (i: int)
    requires
        0 <= y < total_height(pages),
    ensures
        0 <= i < pages.len(),
        offset_of(pages, i) <= y < offset_of(pages, i) + pages[i].height,
    decreases pages.len(),
{
    let rest = pages.drop_last();
    if y >= total_height(rest) {
        let i = pages.len() - 1;
        assert(pages.take(i) =~= rest);
        i
    } else {
        let i = lemma_row_has_page(rest, y);
        assert(rest.take(i) =~= pages.take(i));
        i
    }
}

/// The stack holds three samples for every pixel, and each is the
/// [`stacked_sample`] of its place.
pub proof fn lemma_stacked_samples(pages: Seq<RasterView>)
    ensures
        stacked(pages).wf(),
        forall|x: int, y: int, c: int|
            stacked(pages).holds(x, y, c) ==> #[trigger] stacked(pages).sample(x, y, c)
                == stacked_sample(pages, x, y, c),
{
    let s = stacked(pages);
    assert forall|x: int, y: int, c: int| s.holds(x, y, c) implies #[trigger] s.sample(x, y, c)
        == stacked_sample(pages, x, y, c) by {
        lemma_sample_index(s, x, y, c);
        let i = s.index_of(x, y, c);
        lemma_index_is_sample(s, i);
        lemma_sample_index_injective(
            s,
            x,
            y,
            c,
            s.column_of(i),
            s.row_of(i),
            s.channel_of(i),
        );
    }
}

/// The size of the stack of the pages, where the stack can be held.
pub fn canvas_size(pages: &Vec<Raster>) -> (size: Option<(u32, u32)>)
    ensures
        size is Some <==> stack_fits(views_of(pages@)),
        size matches Some((w, h)) ==> w == max_width(views_of(pages@)) && h == total_height(
            views_of(pages@),
        ),
{
    let ghost views = views_of(pages@);
    let mut width: u32 = 0;
    let mut height: u32 = 0;
    let mut i: usize = 0;
    proof {
        lemma_offset_step_empty(views);
    }
    while i < pages.len()
        invariant
            0 <= i <= pages.len(),
            views == views_of(pages@),
            width == max_width(views.take(i as int)),
            height == total_height(views.take(i as int)),
        decreases pages.len() - i,
    {
        let page = &pages[i];
        proof {
            assert(views.take(i + 1).drop_last() =~= views.take(i as int));
            assert(views.take(i + 1).last() == page@);
            lemma_prefix_is_smaller(views, i + 1);
        }
        if page.width() > width {
            width = page.width();
        }
        height = match height.checked_add(page.height()) {
            Some(sum) => sum,
            None => {
                return None;
            },
        };
        i += 1;
    }
    proof {
        assert(views.take(i as int) =~= views);
    }
    match sample_count(width, height) {
        Some(_) => Some((width, height)),
        None => None,
    }
}

/// Of no pages, nothing comes first.
proof fn lemma_offset_step_empty(pages: Seq<RasterView>)
    ensures
        total_height(pages.take(0)) == 0,
        max_width(pages.take(0)) == 0,
{
    assert(pages.take(0) =~= Seq::<RasterView>::empty());
}

/// Stacks the pages into one image: the first on top, each next one below
/// the one before it, all flush with the left edge, on a ground of zero
/// samples as wide as the widest page.
pub fn stack_images(pages: &Vec<Raster>) -> (canvas: Raster)
    requires
        stack_fits(views_of(pages@)),
    ensures
        canvas@ == stacked(views_of(pages@)),
{
    let ghost views = views_of(pages@);
    let (width, height) = match canvas_size(pages) {
        Some(size) => size,
        None => (0, 0),
    };
    let mut canvas = Raster::blank(width, height);
    let mut offset: u32 = 0;
    let mut i: usize = 0;
    proof {
        lemma_offset_step_empty(views);
        assert forall|x: int, y: int, c: int|
            canvas@.holds(x, y, c) implies #[trigger] canvas@.sample(x, y, c) == stacked_sample(
            views.take(0),
            x,
            y,
            c,
        ) by {
            lemma_sample_index(canvas@, x, y, c);
        }
    }
    while i < pages.len()
        invariant
            0 <= i <= pages.len(),
            views == views_of(pages@),
            canvas@.wf(),
            canvas@.width == max_width(views),
            canvas@.height == total_height(views),
            total_height(views) <= u32::MAX,
            offset == offset_of(views, i as int),
            forall|x: int, y: int, c: int|
                canvas@.holds(x, y, c) ==> #[trigger] canvas@.sample(x, y, c) == stacked_sample(
                    views.take(i as int),
                    x,
                    y,
                    c,
                ),
        decreases pages.len() - i,
    {
        let page = &pages[i];
        let ghost before = canvas@;
        proof {
            lemma_offset_step(views, i as int);
            assert(views[i as int] == page@);
            use_type_invariant(page);
        }
        overlay(&mut canvas, page, offset);
        proof {
            let shorter = views.take(i as int);
            let longer = views.take(i + 1);
            assert(longer.drop_last() =~= shorter);
            assert(longer.last() == page@);
            assert forall|x: int, y: int, c: int|
                canvas@.holds(x, y, c) implies #[trigger] canvas@.sample(x, y, c)
                == stacked_sample(longer, x, y, c) by {
                assert(before.holds(x, y, c));
                assert(before.sample(x, y, c) == stacked_sample(shorter, x, y, c));
                if y >= offset {
                    lemma_below_stack_is_zero(shorter, x, y, c);
                }
            }
        }
        offset = offset + page.height();
        i += 1;
    }
    proof {
        assert(views.take(i as int) =~= views);
        lemma_stacked_samples(views);
        let goal = stacked(views);
        assert forall|k: int| 0 <= k < canvas@.samples.len() implies canvas@.samples[k]
            == goal.samples[k] by {
            lemma_index_is_sample(canvas@, k);
            let x = canvas@.column_of(k);
            let y = canvas@.row_of(k);
            let c = canvas@.channel_of(k);
            assert(canvas@.sample(x, y, c) == stacked_sample(views, x, y, c));
            assert(goal.holds(x, y, c));
            assert(goal.sample(x, y, c) == stacked_sample(views, x, y, c));
            assert(goal.index_of(x, y, c) == k);
        }
        assert(canvas@.samples =~= goal.samples);
    }
    canvas
}

/// The row of the stack that holds row `row` of page `i`.
pub open spec fn band_row(pages: Seq<RasterView>, i: int, row: int) -> int {
    offset_of(pages, i) + row
}

/// The stack of the pages is as wide as the widest page and as high as all
/// pages together; the pages lie in it from top to bottom in their order,
/// each flush with the left edge, and to the right of a page the stack holds
/// zero samples.
pub proof fn lemma_stack_layout(pages: Seq<RasterView>)
    ensures
        stacked(pages).wf(),
        stacked(pages).width == max_width(pages),
        stacked(pages).height == total_height(pages),
        forall|i: int, row: int|
            0 <= i < pages.len() && 0 <= row < pages[i].height ==> 0 <= #[trigger] band_row(
                pages,
                i,
                row,
            ) < total_height(pages),
        forall|i: int, x: int, row: int, c: int|
            0 <= i < pages.len() && 0 <= x < max_width(pages) && 0 <= row < pages[i].height
                && 0 <= c < 3 ==> #[trigger] stacked(pages).sample(
                x,
                band_row(pages, i, row),
                c,
            ) == (if x < pages[i].width {
                pages[i].sample(x, row, c)
            } else {
                0
            }),
{
    lemma_stacked_samples(pages);
    assert forall|i: int, row: int| 0 <= i < pages.len() && 0 <= row < pages[i].height implies 0
        <= #[trigger] band_row(pages, i, row) < total_height(pages) by {
        lemma_offset_step(pages, i);
    }
    assert forall|i: int, x: int, row: int, c: int|
        0 <= i < pages.len() && 0 <= x < max_width(pages) && 0 <= row < pages[i].height && 0 <= c
            < 3 implies #[trigger] stacked(pages).sample(x, band_row(pages, i, row), c) == (if x
        < pages[i].width {
        pages[i].sample(x, row, c)
    } else {
        0
    }) by {
        lemma_offset_step(pages, i);
        lemma_stacked_band(pages, i, x, row, c);
        assert(stacked(pages).holds(x, band_row(pages, i, row), c));
    }
}

} // verus!

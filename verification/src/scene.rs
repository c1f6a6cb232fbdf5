//! The scene: one stacking context over the whole layout, a grid of padded
//! cells in it, and on request a nested scroll-box demonstration.

use crate::display_list::{
    lemma_open_scopes_push, open_scopes, well_nested, Color, DisplayList, DisplayListBuilder,
    ItemModel, MixBlendMode, Scope, ScrollPolicy, ScrollSensitivity, TransformStyle,
};
use crate::geometry::{
    HandyDandyRectBuilder, LayoutPoint, LayoutRect, LayoutSize, Ratio, RectModel, Scalar,
};
use vstd::arithmetic::div_mod::lemma_fundamental_div_mod_converse;
use vstd::prelude::*;

verus! {

/// The width of one grid cell along an axis: `(total - padding) / count`.
pub open spec fn cell_extent(total: int, padding: int, count: int) -> Ratio {
    Ratio { num: total - padding, den: count }
}

/// The width of the rectangle drawn in a cell: the cell less the padding.
pub open spec fn rect_extent(total: int, padding: int, count: int) -> Ratio {
    Ratio { num: total - padding - padding * count, den: count }
}

/// Where cell `index` starts along an axis: `padding + index * cell`.
pub open spec fn cell_start(total: int, padding: int, count: int, index: int) -> Ratio {
    Ratio { num: padding * count + index * (total - padding), den: count }
}

/// The rectangle drawn in row `r`, column `c` of the grid.
pub open spec fn cell_rect(
    width: int,
    height: int,
    rows: int,
    cols: int,
    padding: int,
    r: int,
    c: int,
) -> RectModel {
    RectModel {
        x: cell_start(width, padding, cols, c),
        y: cell_start(height, padding, rows, r),
        width: rect_extent(width, padding, cols),
        height: rect_extent(height, padding, rows),
    }
}

/// The colour of the grid's cells.
pub open spec fn white() -> Color {
    Color { red: 100, green: 100, blue: 100, alpha: 100 }
}

/// The grid's commands, row by row.
pub open spec fn grid_items(width: int, height: int, rows: int, cols: int, padding: int) -> Seq<
    ItemModel,
> {
    Seq::new(
        (rows * cols) as nat,
        |k: int|
            ItemModel::Rect {
                rect: cell_rect(width, height, rows, cols, padding, k / cols, k % cols),
                clip: None,
                color: white(),
            },
    )
}

/// The rectangle from `(x, y)` to the far corner `(x2, y2)`.
pub open spec fn span(x: int, y: int, x2: int, y2: int) -> RectModel {
    RectModel::from_ints(x, y, x2 - x, y2 - y)
}

/// A fill of `rect` with an opaque colour, unclipped.
pub open spec fn fill(rect: RectModel, red: u8, green: u8, blue: u8) -> ItemModel {
    ItemModel::Rect { rect, clip: None, color: Color { red, green, blue, alpha: 100 } }
}

/// The scroll-box demonstration, as it stands in a list that holds `first`
/// commands before it: a scroll box with three squares, and a second scroll
/// box nested in the first with three more.
pub open spec fn scroll_demo_items(first: int) -> Seq<ItemModel> {
    seq![
        ItemModel::PushStackingContext {
            scroll_policy: ScrollPolicy::Scrollable,
            bounds: RectModel::from_ints(10, 10, 0, 0),
            transform_style: TransformStyle::Flat,
            mix_blend_mode: MixBlendMode::Normal,
        },
        ItemModel::ScrollFrame {
            id: first + 1,
            content_rect: RectModel::from_ints(0, 0, 1000, 1000),
            clip_rect: span(0, 0, 300, 400),
            sensitivity: ScrollSensitivity::ScriptAndInputEvents,
        },
        ItemModel::PushClip { id: first + 1 },
        fill(span(0, 0, 1000, 1000), 100, 100, 100),
        fill(span(0, 0, 50, 50), 0, 0, 100),
        ItemModel::Rect {
            rect: span(50, 0, 100, 50),
            clip: Some(span(60, 10, 110, 60)),
            color: Color { red: 0, green: 100, blue: 0, alpha: 100 },
        },
        ItemModel::ScrollFrame {
            id: first + 6,
            content_rect: span(0, 100, 300, 400),
            clip_rect: span(0, 100, 200, 300),
            sensitivity: ScrollSensitivity::ScriptAndInputEvents,
        },
        ItemModel::PushClip { id: first + 6 },
        fill(span(-1000, -1000, 5000, 5000), 50, 50, 50),
        fill(span(0, 100, 50, 150), 0, 100, 100),
        fill(span(250, 350, 300, 400), 0, 100, 100),
        ItemModel::PopClip,
        ItemModel::PopClip,
        ItemModel::PopStackingContext,
    ]
}

/// The command that opens the scene's one top-level stacking context.
pub open spec fn root_context(width: int, height: int) -> ItemModel {
    ItemModel::PushStackingContext {
        scroll_policy: ScrollPolicy::Scrollable,
        bounds: RectModel::from_ints(0, 0, width, height),
        transform_style: TransformStyle::Flat,
        mix_blend_mode: MixBlendMode::Normal,
    }
}

/// The whole scene for a layout of `width` by `height`.
pub open spec fn scene_items(
    width: int,
    height: int,
    rows: int,
    cols: int,
    padding: int,
    scroll_demo: bool,
) -> Seq<ItemModel> {
    seq![root_context(width, height)] + grid_items(width, height, rows, cols, padding) + (
    if scroll_demo {
        scroll_demo_items(1 + rows * cols)
    } else {
        Seq::empty()
    }) + seq![ItemModel::PopStackingContext]
}

/// A product of a bounded factor and a bounded count is bounded by the
/// product of the bounds.
proof fn lemma_product_bound(a: int, k: int, bound: int, limit: int)
    requires
        -bound <= a <= bound,
        0 <= k <= limit,
        0 <= bound,
    ensures
        -bound * limit <= a * k <= bound * limit,
{
    assert(-bound * limit <= a * k <= bound * limit) by (nonlinear_arith)
        requires
            -bound <= a <= bound,
            0 <= k <= limit,
            0 <= bound,
    ;
}

/// Where cell `index` of `count` starts along an axis of length `total`.
fn start_of_cell(total: i64, padding: i64, count: u32, index: u32) -> (s: Scalar)
    ensures
        s@ == cell_start(total as int, padding as int, count as int, index as int),
{
    let span: i128 = total as i128 - padding as i128;
    proof {
        lemma_product_bound(padding as int, count as int, 0x8000_0000_0000_0000, 0xffff_ffff);
        lemma_product_bound(span as int, index as int, 0x1_0000_0000_0000_0000, 0xffff_ffff);
        assert(index as int * span as int == span as int * index as int) by (nonlinear_arith);
    }
    Scalar { num: padding as i128 * count as i128 + index as i128 * span, den: count as i128 }
}

/// The extent of a cell's rectangle along an axis of length `total`.
fn extent_of_rect(total: i64, padding: i64, count: u32) -> (s: Scalar)
    ensures
        s@ == rect_extent(total as int, padding as int, count as int),
{
    proof {
        lemma_product_bound(padding as int, count as int, 0x8000_0000_0000_0000, 0xffff_ffff);
    }
    Scalar {
        num: total as i128 - padding as i128 - padding as i128 * count as i128,
        den: count as i128,
    }
}

/// Appends the grid: `rows` by `cols` white rectangles, row by row. A grid
/// with no rows or no columns appends nothing.
pub fn push_grid(
    builder: &mut DisplayListBuilder,
    width: i64,
    height: i64,
    rows: u32,
    cols: u32,
    padding: i64,
)
    ensures
        final(builder)@ == old(builder)@ + grid_items(
            width as int,
            height as int,
            rows as int,
            cols as int,
            padding as int,
        ),
        open_scopes(final(builder)@) == open_scopes(old(builder)@),
{
    let ghost before = builder@;
    let ghost grid = grid_items(
        width as int,
        height as int,
        rows as int,
        cols as int,
        padding as int,
    );
    let rect_size = LayoutSize {
        width: extent_of_rect(width, padding, cols),
        height: extent_of_rect(height, padding, rows),
    };
    let color = Color::new(100, 100, 100, 100);
    assert(0 <= rows * cols) by (nonlinear_arith);
    assert(builder@ =~= before + grid.subrange(0, 0));
    let mut r: u32 = 0;
    while r < rows
        invariant
            r <= rows,
            grid == grid_items(
                width as int,
                height as int,
                rows as int,
                cols as int,
                padding as int,
            ),
            0 <= r * cols <= rows * cols,
            builder@ == before + grid.subrange(0, r * cols),
            open_scopes(builder@) == open_scopes(before),
            rect_size.width@ == rect_extent(width as int, padding as int, cols as int),
            rect_size.height@ == rect_extent(height as int, padding as int, rows as int),
            color == white(),
        decreases rows - r,
    {
        let y = start_of_cell(height, padding, rows, r);
        let mut c: u32 = 0;
        while c < cols
            invariant
                r < rows,
                c <= cols,
                grid == grid_items(
                    width as int,
                    height as int,
                    rows as int,
                    cols as int,
                    padding as int,
                ),
                0 <= r * cols + c <= rows * cols,
                builder@ == before + grid.subrange(0, r * cols + c),
                open_scopes(builder@) == open_scopes(before),
                rect_size.width@ == rect_extent(width as int, padding as int, cols as int),
                rect_size.height@ == rect_extent(height as int, padding as int, rows as int),
                y@ == cell_start(height as int, padding as int, rows as int, r as int),
                color == white(),
            decreases cols - c,
        {
            let x = start_of_cell(width, padding, cols, c);
            let rect = LayoutRect::new(LayoutPoint { x, y }, rect_size);
            let ghost k: int = r * cols + c;
            proof {
                assert(k + 1 <= rows * cols) by (nonlinear_arith)
                    requires
                        k == r * cols + c,
                        r < rows,
                        c < cols,
                ;
                assert(k == cols * r + c) by (nonlinear_arith)
                    requires
                        k == r * cols + c,
                ;
                lemma_fundamental_div_mod_converse(k, cols as int, r as int, c as int);
                assert(rect@ == cell_rect(
                    width as int,
                    height as int,
                    rows as int,
                    cols as int,
                    padding as int,
                    k / (cols as int),
                    k % (cols as int),
                ));
            }
            builder.push_rect(rect, None, color);
            c = c + 1;
            proof {
                assert(grid.subrange(0, k + 1) =~= grid.subrange(0, k).push(grid[k]));
                assert(builder@ =~= before + grid.subrange(0, k + 1));
            }
        }
        r = r + 1;
        proof {
            assert((r - 1) * cols + cols == r * cols) by (nonlinear_arith);
        }
    }
    proof {
        assert(r * cols == rows * cols);
        assert(grid.subrange(0, rows * cols) =~= grid);
    }
}

/// Appends the scroll-box demonstration: a stacking context that holds a
/// scroll box with three squares and, nested in it, a second scroll box with
/// three more. Both clips and the context are closed again, innermost first.
pub fn push_scroll_demo(builder: &mut DisplayListBuilder)
    ensures
        final(builder)@ == old(builder)@ + scroll_demo_items(old(builder)@.len() as int),
        open_scopes(final(builder)@) == open_scopes(old(builder)@),
{
    let ghost before = builder@;
    let scrollbox = (0i32, 0i32).to(300, 400);
    builder.push_stacking_context(
        ScrollPolicy::Scrollable,
        LayoutRect::from_ints(10, 10, 0, 0),
        TransformStyle::Flat,
        MixBlendMode::Normal,
    );
    let clip_id = builder.define_scroll_frame(
        HandyDandyRectBuilder::by(&(0i32, 0i32), 1000, 1000),
        scrollbox,
        ScrollSensitivity::ScriptAndInputEvents,
    );
    builder.push_clip_id(clip_id);
    builder.push_rect((0i32, 0i32).to(1000, 1000), None, Color::new(100, 100, 100, 100));
    builder.push_rect((0i32, 0i32).to(50, 50), None, Color::new(0, 0, 100, 100));
    builder.push_rect(
        (50i32, 0i32).to(100, 50),
        Some((60i32, 10i32).to(110, 60)),
        Color::new(0, 100, 0, 100),
    );
    let nested_clip_id = builder.define_scroll_frame(
        (0i32, 100i32).to(300, 400),
        (0i32, 100i32).to(200, 300),
        ScrollSensitivity::ScriptAndInputEvents,
    );
    builder.push_clip_id(nested_clip_id);
    builder.push_rect((-1000i32, -1000i32).to(5000, 5000), None, Color::new(50, 50, 50, 100));
    builder.push_rect((0i32, 100i32).to(50, 150), None, Color::new(0, 100, 100, 100));
    builder.push_rect((250i32, 350i32).to(300, 400), None, Color::new(0, 100, 100, 100));
    builder.pop_clip_id();
    builder.pop_clip_id();
    builder.pop_stacking_context();
    proof {
        assert(builder@ =~= before + scroll_demo_items(before.len() as int));
        match open_scopes(before) {
            Some(stack) => {
                assert(stack.push(Scope::Context).push(Scope::Clip).push(Scope::Clip).drop_last()
                    =~= stack.push(Scope::Context).push(Scope::Clip));
                assert(stack.push(Scope::Context).push(Scope::Clip).drop_last() =~= stack.push(
                    Scope::Context,
                ));
                assert(stack.push(Scope::Context).drop_last() =~= stack);
            },
            None => {},
        }
    }
}

/// Builds the whole scene for a layout of `width` by `height`: the top-level
/// stacking context over the full layout, the grid, the scroll-box
/// demonstration where `scroll_demo` asks for it, and the closing pop. The
/// list depends on the arguments alone, and each push in it has its pop.
pub fn build_scene(
    width: i64,
    height: i64,
    rows: u32,
    cols: u32,
    padding: i64,
    scroll_demo: bool,
) -> (list: DisplayList)
    ensures
        list@ == scene_items(
            width as int,
            height as int,
            rows as int,
            cols as int,
            padding as int,
            scroll_demo,
        ),
        well_nested(list@),
{
    let mut builder = DisplayListBuilder::new();
    builder.push_stacking_context(
        ScrollPolicy::Scrollable,
        LayoutRect::from_ints(0, 0, width, height),
        TransformStyle::Flat,
        MixBlendMode::Normal,
    );
    assert(builder@ =~= seq![root_context(width as int, height as int)]);
    push_grid(&mut builder, width, height, rows, cols, padding);
    if scroll_demo {
        push_scroll_demo(&mut builder);
    }
    builder.pop_stacking_context();
    proof {
        assert(Seq::<Scope>::empty().push(Scope::Context).drop_last() =~= Seq::<Scope>::empty());
        assert(builder@ =~= scene_items(
            width as int,
            height as int,
            rows as int,
            cols as int,
            padding as int,
            scroll_demo,
        ));
    }
    builder.finalize()
}

/// The grid holds one rectangle for each cell, `rows * cols` in all, and the
/// plain scene holds these between its opening and its closing command. The
/// rectangle of row `r`, column `c` stands at place `r * cols + c` of the
/// grid, one place further in the scene. Its left edge is `padding + c *
/// cell_width` and its top edge `padding + r * cell_height`, its size is the
/// cell's less the padding on both axes, where a cell is `(width - padding) /
/// cols` wide and `(height - padding) / rows` high.
pub proof fn lemma_grid_geometry(
    width: int,
    height: int,
    rows: int,
    cols: int,
    padding: int,
    scroll_demo: bool,
    r: int,
    c: int,
)
    requires
        0 <= r < rows,
        0 <= c < cols,
    ensures
        grid_items(width, height, rows, cols, padding).len() == rows * cols,
        0 <= r * cols + c < rows * cols,
        scene_items(width, height, rows, cols, padding, false).len() == rows * cols + 2,
        scene_items(width, height, rows, cols, padding, scroll_demo)[1 + r * cols + c]
            == grid_items(width, height, rows, cols, padding)[r * cols + c],
        grid_items(width, height, rows, cols, padding)[r * cols + c] == (ItemModel::Rect {
            rect: cell_rect(width, height, rows, cols, padding, r, c),
            clip: None,
            color: white(),
        }),
        cell_extent(width, padding, cols) == Ratio::from_int(width - padding).over_int(cols),
        cell_extent(height, padding, rows) == Ratio::from_int(height - padding).over_int(rows),
        cell_rect(width, height, rows, cols, padding, r, c) == (RectModel {
            x: Ratio::from_int(padding).plus(cell_extent(width, padding, cols).times_int(c)),
            y: Ratio::from_int(padding).plus(cell_extent(height, padding, rows).times_int(r)),
            width: cell_extent(width, padding, cols).minus(Ratio::from_int(padding)),
            height: cell_extent(height, padding, rows).minus(Ratio::from_int(padding)),
        }),
{
    let k = r * cols + c;
    assert(0 <= k < rows * cols) by (nonlinear_arith)
        requires
            k == r * cols + c,
            0 <= r < rows,
            0 <= c < cols,
    ;
    assert(k == cols * r + c) by (nonlinear_arith)
        requires
            k == r * cols + c,
    ;
    lemma_fundamental_div_mod_converse(k, cols, r, c);
    lemma_cell_formula(width, padding, cols, c);
    lemma_cell_formula(height, padding, rows, r);
}

/// The closed forms of a cell's extent, start and rectangle agree with the
/// same quantities worked out step by step in rational arithmetic.
proof fn lemma_cell_formula(total: int, padding: int, count: int, index: int)
    ensures
        cell_extent(total, padding, count) == Ratio::from_int(total - padding).over_int(count),
        cell_start(total, padding, count, index) == Ratio::from_int(padding).plus(
            cell_extent(total, padding, count).times_int(index),
        ),
        rect_extent(total, padding, count) == cell_extent(total, padding, count).minus(
            Ratio::from_int(padding),
        ),
{
    assert(1 * count == count);
    assert(count * 1 == count);
    assert((total - padding) * 1 == total - padding);
    assert((total - padding) * index * 1 == index * (total - padding)) by (nonlinear_arith);
}

/// Two scenes built for the same layout and grid are the same list, command
/// for command: a build keeps nothing from the one before.
pub proof fn lemma_scene_repeatable(
    first: DisplayList,
    second: DisplayList,
    width: int,
    height: int,
    rows: int,
    cols: int,
    padding: int,
    scroll_demo: bool,
)
    requires
        first@ == scene_items(width, height, rows, cols, padding, scroll_demo),
        second@ == scene_items(width, height, rows, cols, padding, scroll_demo),
    ensures
        first@ == second@,
        first@.len() == second@.len(),
        forall|k: int| 0 <= k < first@.len() ==> first@[k] == second@[k],
{
}


/// Fills open and close nothing: after any run of them the same scopes are
/// open as before.
proof fn lemma_fills_keep_scopes(prefix: Seq<ItemModel>, fills: Seq<ItemModel>)
    requires
        forall|k: int| 0 <= k < fills.len() ==> fills[k] is Rect,
    ensures
        open_scopes(prefix + fills) == open_scopes(prefix),
    decreases fills.len(),
{
    if fills.len() == 0 {
        assert(prefix + fills =~= prefix);
    } else {
        lemma_fills_keep_scopes(prefix, fills.drop_last());
        assert((prefix + fills).drop_last() =~= prefix + fills.drop_last());
    }
}

/// The scroll-box demonstration closes all that it opens.
proof fn lemma_scroll_demo_keeps_scopes(prefix: Seq<ItemModel>, first: int)
    ensures
        open_scopes(prefix + scroll_demo_items(first)) == open_scopes(prefix),
{
    let d = scroll_demo_items(first);
    let s1 = prefix.push(d[0]);
    let s2 = s1.push(d[1]);
    let s3 = s2.push(d[2]);
    let s4 = s3.push(d[3]);
    let s5 = s4.push(d[4]);
    let s6 = s5.push(d[5]);
    let s7 = s6.push(d[6]);
    let s8 = s7.push(d[7]);
    let s9 = s8.push(d[8]);
    let s10 = s9.push(d[9]);
    let s11 = s10.push(d[10]);
    let s12 = s11.push(d[11]);
    let s13 = s12.push(d[12]);
    let s14 = s13.push(d[13]);
    lemma_open_scopes_push(prefix, d[0]);
    lemma_open_scopes_push(s1, d[1]);
    lemma_open_scopes_push(s2, d[2]);
    lemma_open_scopes_push(s3, d[3]);
    lemma_open_scopes_push(s4, d[4]);
    lemma_open_scopes_push(s5, d[5]);
    lemma_open_scopes_push(s6, d[6]);
    lemma_open_scopes_push(s7, d[7]);
    lemma_open_scopes_push(s8, d[8]);
    lemma_open_scopes_push(s9, d[9]);
    lemma_open_scopes_push(s10, d[10]);
    lemma_open_scopes_push(s11, d[11]);
    lemma_open_scopes_push(s12, d[12]);
    lemma_open_scopes_push(s13, d[13]);
    assert(s14 =~= prefix + d);
    match open_scopes(prefix) {
        Some(stack) => {
            let a = stack.push(Scope::Context);
            let b = a.push(Scope::Clip);
            let c = b.push(Scope::Clip);
            assert(c.drop_last() =~= b);
            assert(b.drop_last() =~= a);
            assert(a.drop_last() =~= stack);
        },
        None => {},
    }
}

/// Every scene pairs its pushes and pops, with the scroll-box demonstration
/// and without it: each clip that is opened is closed before the stacking
/// context around it, and the top-level context is closed last.
pub proof fn lemma_scene_well_nested(
    width: int,
    height: int,
    rows: int,
    cols: int,
    padding: int,
    scroll_demo: bool,
)
    ensures
        well_nested(scene_items(width, height, rows, cols, padding, scroll_demo)),
{
    let opened = seq![root_context(width, height)];
    let grid = grid_items(width, height, rows, cols, padding);
    let demo = if scroll_demo {
        scroll_demo_items(1 + rows * cols)
    } else {
        Seq::empty()
    };
    lemma_open_scopes_push(Seq::empty(), root_context(width, height));
    assert(Seq::<ItemModel>::empty().push(root_context(width, height)) =~= opened);
    lemma_fills_keep_scopes(opened, grid);
    if scroll_demo {
        lemma_scroll_demo_keeps_scopes(opened + grid, 1 + rows * cols);
    } else {
        assert(opened + grid + demo =~= opened + grid);
    }
    lemma_open_scopes_push(opened + grid + demo, ItemModel::PopStackingContext);
    assert((opened + grid + demo).push(ItemModel::PopStackingContext) =~= scene_items(
        width,
        height,
        rows,
        cols,
        padding,
        scroll_demo,
    ));
    assert(Seq::<Scope>::empty().push(Scope::Context).drop_last() =~= Seq::<Scope>::empty());
}


} // verus!

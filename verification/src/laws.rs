//! The laws of the generator, proved over the same closed-form descriptions
//! that the generators' contracts are stated in.

use crate::covers::{cover_taps_upto, cover_views, covers_views};
use crate::layout::{
    spec_column_width, spec_top_width, spec_total_height, spec_total_width,
    spec_wing_region_height, spec_wing_stride, CLEARANCE_BETWEEN_PATHS, MIN_DEPTH,
};
use crate::panels::{panel_hole_offset, panel_rows_upto, panel_views, panels_upto};
use crate::drawing::{
    document_in_bounds, path_in_bounds, paths_in_bounds, DocumentView, PathView, Segment,
};
use crate::rack::{document_paths, spec_document, Dimensions};
use crate::wings::{wing_cmds, wing_inverted_cmds, wing_pair_views, wing_pairs_upto};
use vstd::arithmetic::mul::lemma_mul_inequality;
use vstd::prelude::*;

verus! {

/// Two path lists that each stay inside the canvas do so together.
proof fn lemma_paths_in_bounds_concat(a: Seq<PathView>, b: Seq<PathView>, width: int, height: int)
    requires
        paths_in_bounds(a, width, height),
        paths_in_bounds(b, width, height),
    ensures
        paths_in_bounds(a + b, width, height),
{
    assert forall|i: int| 0 <= i < (a + b).len() implies path_in_bounds(
        #[trigger] (a + b)[i],
        width,
        height,
    ) by {
        if i < a.len() {
            assert((a + b)[i] == a[i]);
        } else {
            assert((a + b)[i] == b[i - a.len()]);
        }
    }
}

/// One wing pair stays inside the canvas when its stride of vertical room
/// is available below its origin and the box depth fits the canvas width.
proof fn lemma_wing_pair_in_bounds(dimensions: Dimensions, y0: int, material_thickness: int, color: Seq<char>, width: int, height: int)
    requires
        dimensions.depth >= 75,
        dimensions.depth <= width,
        material_thickness >= 0,
        0 <= y0,
        y0 + 2 * dimensions.side_wing_width + CLEARANCE_BETWEEN_PATHS + material_thickness
            <= height,
    ensures
        paths_in_bounds(
            wing_pair_views(dimensions, 0, y0, material_thickness, color),
            width,
            height,
        ),
{
}

/// The whole wing stack stays inside the canvas when its total height of
/// one stride per box is available.
proof fn lemma_wing_pairs_upto_in_bounds(dimensions: Dimensions, material_thickness: int, color: Seq<char>, n: int, width: int, height: int)
    requires
        dimensions.depth >= 75,
        dimensions.depth <= width,
        material_thickness >= 0,
        n >= 0,
        n * spec_wing_stride(dimensions.side_wing_width as int, material_thickness) <= height,
    ensures
        paths_in_bounds(
            wing_pairs_upto(dimensions, material_thickness, color, n),
            width,
            height,
        ),
    decreases n,
{
    let s = spec_wing_stride(dimensions.side_wing_width as int, material_thickness);
    if n > 0 {
        lemma_mul_inequality(n - 1, n, s);
        lemma_mul_inequality(0, n - 1, s);
        assert(n * s == (n - 1) * s + s) by (nonlinear_arith);
        lemma_wing_pairs_upto_in_bounds(
            dimensions,
            material_thickness,
            color,
            n - 1,
            width,
            height,
        );
        lemma_wing_pair_in_bounds(
            dimensions,
            (n - 1) * s,
            material_thickness,
            color,
            width,
            height,
        );
        lemma_paths_in_bounds_concat(
            wing_pairs_upto(dimensions, material_thickness, color, n - 1),
            wing_pair_views(dimensions, 0, (n - 1) * s, material_thickness, color),
            width,
            height,
        );
    }
}

/// The tap holes of the first `n` internal column boundaries of a cover
/// stay inside the cover's own span.
proof fn lemma_cover_taps_in_bounds(x0: int, y0: int, box_depth: int, columns: int, column_width: int, material_thickness: int, color: Seq<char>, n: int, width: int, height: int)
    requires
        box_depth >= 90,
        0 <= x0,
        0 <= y0,
        y0 + box_depth <= height,
        x0 + spec_top_width(column_width, columns, material_thickness) <= width,
        material_thickness >= 0,
        column_width >= 0,
        0 <= n <= columns - 1,
    ensures
        paths_in_bounds(
            cover_taps_upto(x0, y0, box_depth, column_width, material_thickness, color, n),
            width,
            height,
        ),
    decreases n,
{
    if n > 0 {
        lemma_cover_taps_in_bounds(
            x0,
            y0,
            box_depth,
            columns,
            column_width,
            material_thickness,
            color,
            n - 1,
            width,
            height,
        );
        lemma_mul_inequality(n, columns, column_width);
        assert(n * column_width == column_width + (n - 1) * column_width) by (nonlinear_arith);
        assert(columns * column_width == column_width * columns) by (nonlinear_arith);
        assert((n - 1) * column_width >= 0) by (nonlinear_arith)
            requires
                n >= 1,
                column_width >= 0,
        ;
        lemma_paths_in_bounds_concat(
            cover_taps_upto(x0, y0, box_depth, column_width, material_thickness, color, n - 1),
            crate::covers::cover_tap_pair_views(
                x0,
                y0,
                box_depth,
                column_width,
                material_thickness,
                color,
                n - 1,
            ),
            width,
            height,
        );
    }
}

/// One cover and its tap holes stay inside the canvas.
proof fn lemma_cover_in_bounds(x0: int, y0: int, box_depth: int, columns: int, column_width: int, material_thickness: int, primary_color: Seq<char>, secondary_color: Seq<char>, width: int, height: int)
    requires
        box_depth >= 90,
        0 <= x0,
        0 <= y0,
        y0 + box_depth <= height,
        x0 + spec_top_width(column_width, columns, material_thickness) <= width,
        material_thickness >= 0,
        column_width >= 0,
        columns >= 1,
    ensures
        paths_in_bounds(
            cover_views(
                x0,
                y0,
                box_depth,
                columns,
                column_width,
                material_thickness,
                primary_color,
                secondary_color,
            ),
            width,
            height,
        ),
{
    assert(column_width * columns >= 0) by (nonlinear_arith)
        requires
            column_width >= 0,
            columns >= 0,
    ;
    lemma_cover_taps_in_bounds(
        x0,
        y0,
        box_depth,
        columns,
        column_width,
        material_thickness,
        primary_color,
        columns - 1,
        width,
        height,
    );
    let outline = seq![
        PathView {
            color: secondary_color,
            commands: crate::covers::top_path_cmds(
                x0,
                y0,
                box_depth,
                columns,
                column_width,
                material_thickness,
            ),
        },
    ];
    assert(paths_in_bounds(outline, width, height));
    lemma_paths_in_bounds_concat(
        outline,
        cover_taps_upto(
            x0,
            y0,
            box_depth,
            column_width,
            material_thickness,
            primary_color,
            columns - 1,
        ),
        width,
        height,
    );
}

/// The wing holes of the first `n` rows of one panel stay inside the
/// canvas.
proof fn lemma_panel_rows_in_bounds(x0: int, y: int, dimensions: Dimensions, material_thickness: int, color: Seq<char>, n: int, width: int, height: int)
    requires
        dimensions.depth >= 75,
        0 <= x0,
        0 <= y,
        y + dimensions.depth <= height,
        material_thickness >= 0,
        n >= 0,
        x0 + 2 * material_thickness + dimensions.side_wing_from_box_top + (n - 1)
            * dimensions.height <= width,
    ensures
        paths_in_bounds(
            panel_rows_upto(x0, y, dimensions, material_thickness, color, n),
            width,
            height,
        ),
    decreases n,
{
    if n > 0 {
        lemma_mul_inequality(n - 2, n - 1, dimensions.height as int);
        assert((n - 1) * dimensions.height as int >= 0) by (nonlinear_arith)
            requires
                n >= 1,
                dimensions.height as int >= 0,
        ;
        lemma_panel_rows_in_bounds(
            x0,
            y,
            dimensions,
            material_thickness,
            color,
            n - 1,
            width,
            height,
        );
        lemma_paths_in_bounds_concat(
            panel_rows_upto(x0, y, dimensions, material_thickness, color, n - 1),
            crate::panels::panel_row_hole_views(
                x0 + material_thickness + dimensions.side_wing_from_box_top + (n - 1)
                    * dimensions.height,
                y,
                dimensions.depth as int,
                material_thickness,
                color,
            ),
            width,
            height,
        );
    }
}

/// The first `n` side panels and their wing holes stay inside the canvas.
proof fn lemma_panels_upto_in_bounds(x0: int, dimensions: Dimensions, rows: int, material_thickness: int, primary_color: Seq<char>, secondary_color: Seq<char>, n: int, width: int, height: int)
    requires
        dimensions.depth >= 75,
        0 <= x0,
        material_thickness >= 0,
        rows >= 1,
        0 <= n,
        n * (dimensions.depth as int + CLEARANCE_BETWEEN_PATHS) <= height,
        x0 + rows * dimensions.height + 2 * material_thickness <= width,
        x0 + 2 * material_thickness + dimensions.side_wing_from_box_top + (rows - 1)
            * dimensions.height <= width,
    ensures
        paths_in_bounds(
            panels_upto(
                x0,
                dimensions,
                rows,
                material_thickness,
                primary_color,
                secondary_color,
                n,
            ),
            width,
            height,
        ),
    decreases n,
{
    let stride = dimensions.depth as int + CLEARANCE_BETWEEN_PATHS;
    if n > 0 {
        lemma_mul_inequality(n - 1, n, stride);
        lemma_mul_inequality(0, n - 1, stride);
        assert(n * stride == (n - 1) * stride + stride) by (nonlinear_arith);
        lemma_panels_upto_in_bounds(
            x0,
            dimensions,
            rows,
            material_thickness,
            primary_color,
            secondary_color,
            n - 1,
            width,
            height,
        );
        let y = (n - 1) * stride;
        assert(rows * dimensions.height as int >= 0) by (nonlinear_arith)
            requires
                rows >= 0,
                dimensions.height as int >= 0,
        ;
        let outline = seq![
            PathView {
                color: secondary_color,
                commands: crate::panels::panel_outline_cmds(
                    x0,
                    y,
                    dimensions.depth as int,
                    rows * dimensions.height,
                    material_thickness,
                ),
            },
        ];
        assert(paths_in_bounds(outline, width, height));
        lemma_panel_rows_in_bounds(
            x0,
            y,
            dimensions,
            material_thickness,
            primary_color,
            rows,
            width,
            height,
        );
        lemma_paths_in_bounds_concat(
            outline,
            panel_rows_upto(x0, y, dimensions, material_thickness, primary_color, rows),
            width,
            height,
        );
        lemma_paths_in_bounds_concat(
            panels_upto(
                x0,
                dimensions,
                rows,
                material_thickness,
                primary_color,
                secondary_color,
                n - 1,
            ),
            panel_views(
                x0,
                n - 1,
                dimensions,
                rows,
                material_thickness,
                primary_color,
                secondary_color,
            ),
            width,
            height,
        );
    }
}

/// Every coordinate of every emitted path lies within
/// `[0, total_width] x [0, total_height]`.  The one geometric condition
/// this needs is that the wing strip sit no lower than one block height
/// (plus one clearance) below the box top — lower, and the last row of
/// wing holes leaves the canvas on the right — which is why that
/// condition is part of `valid_arguments`.
pub proof fn lemma_document_in_bounds(rows: int, columns: int, material_thickness: int, dimensions: Dimensions, primary_color: Seq<char>, secondary_color: Seq<char>)
    requires
        rows >= 1,
        columns >= 1,
        material_thickness >= 1,
        dimensions.width >= 1,
        dimensions.depth >= MIN_DEPTH,
        dimensions.height >= 1,
        dimensions.side_wing_from_box_top >= 1,
        dimensions.side_wing_width >= 1,
        dimensions.side_wing_from_box_top <= dimensions.height + CLEARANCE_BETWEEN_PATHS,
    ensures
        document_in_bounds(
            spec_document(
                rows,
                columns,
                material_thickness,
                dimensions,
                primary_color,
                secondary_color,
            ),
        ),
{
    let t = material_thickness;
    let depth = dimensions.depth as int;
    let cw = spec_column_width(dimensions.width as int);
    let w = spec_total_width(
        rows,
        columns,
        t,
        dimensions.width as int,
        depth,
        dimensions.height as int,
    );
    let h = spec_total_height(rows, columns, t, depth, dimensions.side_wing_width as int);
    let cx = crate::layout::spec_cover_region_x(depth);
    let px = crate::layout::spec_panel_region_x(columns, t, dimensions.width as int, depth);
    let stride = spec_wing_stride(dimensions.side_wing_width as int, t);

    assert(cw * columns >= 0 && rows * dimensions.height as int >= 0 && dimensions.height as int
        * rows >= 0) by (nonlinear_arith)
        requires
            cw >= 0,
            columns >= 0,
            rows >= 0,
            dimensions.height as int >= 0,
    ;
    assert(rows * columns * stride == (rows * columns) * stride && rows * columns >= 1)
        by (nonlinear_arith)
        requires
            rows >= 1,
            columns >= 1,
    ;
    lemma_wing_pairs_upto_in_bounds(
        dimensions,
        t,
        secondary_color,
        rows * columns,
        w,
        h,
    );
    lemma_cover_in_bounds(cx, 0, depth, columns, cw, t, primary_color, secondary_color, w, h);
    lemma_cover_in_bounds(
        cx,
        depth + CLEARANCE_BETWEEN_PATHS,
        depth,
        columns,
        cw,
        t,
        primary_color,
        secondary_color,
        w,
        h,
    );
    assert((columns + 1) * (depth + CLEARANCE_BETWEEN_PATHS) <= h);
    assert(rows * dimensions.height as int == dimensions.height as int * rows)
        by (nonlinear_arith);
    assert((rows - 1) * dimensions.height as int + dimensions.height as int == rows
        * dimensions.height as int) by (nonlinear_arith);
    lemma_panels_upto_in_bounds(
        px,
        dimensions,
        rows,
        t,
        primary_color,
        secondary_color,
        columns + 1,
        w,
        h,
    );
    lemma_paths_in_bounds_concat(
        wing_pairs_upto(dimensions, t, secondary_color, rows * columns),
        covers_views(cx, depth, columns, cw, t, primary_color, secondary_color),
        w,
        h,
    );
    lemma_paths_in_bounds_concat(
        wing_pairs_upto(dimensions, t, secondary_color, rows * columns) + covers_views(
            cx,
            depth,
            columns,
            cw,
            t,
            primary_color,
            secondary_color,
        ),
        panels_upto(px, dimensions, rows, t, primary_color, secondary_color, columns + 1),
        w,
        h,
    );
}

/// Joint alignment: the four tooth leading edges drawn by the wing-pair
/// generator stand exactly on the four hole offsets the side-panel
/// generator cuts its wing holes at, for any box depth and any placement
/// of the wing pair.
pub proof fn lemma_joint_alignment(x0: int, y0: int, material_thickness: int, box_depth: int, side_wing_width: int)
    ensures
        wing_cmds(x0, y0, material_thickness, box_depth, side_wing_width)[2]
            == (Segment::Horizontal { x: panel_hole_offset(0, box_depth) }),
        wing_inverted_cmds(x0, y0, material_thickness, box_depth, side_wing_width)[1]
            == (Segment::Horizontal { x: panel_hole_offset(1, box_depth) }),
        wing_cmds(x0, y0, material_thickness, box_depth, side_wing_width)[6]
            == (Segment::Horizontal { x: panel_hole_offset(2, box_depth) }),
        wing_inverted_cmds(x0, y0, material_thickness, box_depth, side_wing_width)[5]
            == (Segment::Horizontal { x: panel_hole_offset(3, box_depth) }),
{
}

/// The canvas extent is strictly positive on every valid grid.
pub proof fn lemma_canvas_extent_positive(rows: int, columns: int, material_thickness: int, dimensions: Dimensions)
    requires
        rows >= 1,
        columns >= 1,
        material_thickness >= 1,
        dimensions.width >= 1,
        dimensions.depth >= 1,
        dimensions.height >= 1,
        dimensions.side_wing_width >= 1,
    ensures
        spec_total_width(
            rows,
            columns,
            material_thickness,
            dimensions.width as int,
            dimensions.depth as int,
            dimensions.height as int,
        ) > 0,
        spec_total_height(
            rows,
            columns,
            material_thickness,
            dimensions.depth as int,
            dimensions.side_wing_width as int,
        ) > 0,
{
    assert(spec_column_width(dimensions.width as int) * columns > 0) by (nonlinear_arith)
        requires
            columns >= 1,
            spec_column_width(dimensions.width as int) >= 1,
    ;
    assert(dimensions.height as int * rows > 0) by (nonlinear_arith)
        requires
            rows >= 1,
            dimensions.height as int >= 1,
    ;
    assert(rows * columns * spec_wing_stride(
        dimensions.side_wing_width as int,
        material_thickness,
    ) > 0) by (nonlinear_arith)
        requires
            rows >= 1,
            columns >= 1,
            spec_wing_stride(dimensions.side_wing_width as int, material_thickness) >= 1,
    ;
}

/// The canvas extent never shrinks when the grid or the material grows:
/// both `total_width` and `total_height` are monotone in `rows`, `columns`
/// and `material_thickness`, dimensions held fixed.
pub proof fn lemma_canvas_extent_monotone(rows1: int, columns1: int, thickness1: int, rows2: int, columns2: int, thickness2: int, dimensions: Dimensions)
    requires
        1 <= rows1 <= rows2,
        1 <= columns1 <= columns2,
        1 <= thickness1 <= thickness2,
        dimensions.width >= 1,
        dimensions.depth >= 1,
        dimensions.height >= 1,
        dimensions.side_wing_width >= 1,
    ensures
        spec_total_width(
            rows1,
            columns1,
            thickness1,
            dimensions.width as int,
            dimensions.depth as int,
            dimensions.height as int,
        ) <= spec_total_width(
            rows2,
            columns2,
            thickness2,
            dimensions.width as int,
            dimensions.depth as int,
            dimensions.height as int,
        ),
        spec_total_height(
            rows1,
            columns1,
            thickness1,
            dimensions.depth as int,
            dimensions.side_wing_width as int,
        ) <= spec_total_height(
            rows2,
            columns2,
            thickness2,
            dimensions.depth as int,
            dimensions.side_wing_width as int,
        ),
{
    let cw = spec_column_width(dimensions.width as int);
    let w = dimensions.side_wing_width as int;
    assert(cw * columns1 <= cw * columns2) by (nonlinear_arith)
        requires
            columns1 <= columns2,
            cw >= 0,
    ;
    assert(dimensions.height as int * rows1 <= dimensions.height as int * rows2)
        by (nonlinear_arith)
        requires
            rows1 <= rows2,
            dimensions.height as int >= 0,
    ;
    assert(rows1 * columns1 * spec_wing_stride(w, thickness1) <= rows2 * columns2
        * spec_wing_stride(w, thickness2)) by (nonlinear_arith)
        requires
            1 <= rows1 <= rows2,
            1 <= columns1 <= columns2,
            0 <= spec_wing_stride(w, thickness1) <= spec_wing_stride(w, thickness2),
    ;
    assert((columns1 + 1) * (dimensions.depth as int + CLEARANCE_BETWEEN_PATHS) <= (columns2 + 1)
        * (dimensions.depth as int + CLEARANCE_BETWEEN_PATHS)) by (nonlinear_arith)
        requires
            columns1 <= columns2,
            dimensions.depth as int + CLEARANCE_BETWEEN_PATHS >= 0,
    ;
}

/// One more grid row grows the wing-stack region by exactly one stride per
/// grid column; on a single-column grid, by exactly one stride.
pub proof fn lemma_wing_region_one_more_row(rows: int, columns: int, side_wing_width: int, material_thickness: int)
    requires
        rows >= 0,
        columns >= 1,
    ensures
        spec_wing_region_height(rows + 1, columns, side_wing_width, material_thickness)
            == spec_wing_region_height(rows, columns, side_wing_width, material_thickness)
            + columns * spec_wing_stride(side_wing_width, material_thickness),
        columns == 1 ==> spec_wing_region_height(
            rows + 1,
            columns,
            side_wing_width,
            material_thickness,
        ) == spec_wing_region_height(rows, columns, side_wing_width, material_thickness)
            + spec_wing_stride(side_wing_width, material_thickness),
{
    let s = spec_wing_stride(side_wing_width, material_thickness);
    assert((rows + 1) * columns * s == rows * columns * s + columns * s) by (nonlinear_arith);
}

/// The generator is a function of its arguments alone: two documents that
/// both match the description computed from identical arguments are equal,
/// path by path and coordinate by coordinate.
pub proof fn lemma_generation_deterministic(d1: DocumentView, d2: DocumentView, rows: int, columns: int, material_thickness: int, dimensions: Dimensions, primary_color: Seq<char>, secondary_color: Seq<char>)
    requires
        d1 == spec_document(rows, columns, material_thickness, dimensions, primary_color, secondary_color),
        d2 == spec_document(rows, columns, material_thickness, dimensions, primary_color, secondary_color),
    ensures
        d1 == d2,
{
}

/// The wing stack holds two paths per box.
pub proof fn lemma_wing_pairs_len(dimensions: Dimensions, material_thickness: int, color: Seq<char>, n: int)
    requires
        n >= 0,
    ensures
        wing_pairs_upto(dimensions, material_thickness, color, n).len() == 2 * n,
    decreases n,
{
    if n > 0 {
        lemma_wing_pairs_len(dimensions, material_thickness, color, n - 1);
    }
}

/// A cover carries two tap holes per internal column boundary.
pub proof fn lemma_cover_taps_len(x0: int, y0: int, box_depth: int, column_width: int, material_thickness: int, color: Seq<char>, n: int)
    requires
        n >= 0,
    ensures
        cover_taps_upto(x0, y0, box_depth, column_width, material_thickness, color, n).len()
            == 2 * n,
    decreases n,
{
    if n > 0 {
        lemma_cover_taps_len(x0, y0, box_depth, column_width, material_thickness, color, n - 1);
    }
}

/// A panel carries four wing holes per grid row.
pub proof fn lemma_panel_rows_len(x0: int, y: int, dimensions: Dimensions, material_thickness: int, color: Seq<char>, n: int)
    requires
        n >= 0,
    ensures
        panel_rows_upto(x0, y, dimensions, material_thickness, color, n).len() == 4 * n,
    decreases n,
{
    if n > 0 {
        lemma_panel_rows_len(x0, y, dimensions, material_thickness, color, n - 1);
    }
}

/// The side-panel row holds, per panel, one outline and four holes per row.
pub proof fn lemma_panels_len(x0: int, dimensions: Dimensions, rows: int, material_thickness: int, primary_color: Seq<char>, secondary_color: Seq<char>, n: int)
    requires
        rows >= 0,
        n >= 0,
    ensures
        panels_upto(x0, dimensions, rows, material_thickness, primary_color, secondary_color, n)
            .len() == n * (1 + 4 * rows),
    decreases n,
{
    if n > 0 {
        lemma_panels_len(
            x0,
            dimensions,
            rows,
            material_thickness,
            primary_color,
            secondary_color,
            n - 1,
        );
        lemma_panel_rows_len(
            x0,
            (n - 1) * (dimensions.depth as int + CLEARANCE_BETWEEN_PATHS),
            dimensions,
            material_thickness,
            primary_color,
            rows,
        );
        assert(n * (1 + 4 * rows) == (n - 1) * (1 + 4 * rows) + (1 + 4 * rows))
            by (nonlinear_arith);
    }
}

/// CutPath counts of the whole document: `2 * rows * columns` wing paths, two
/// cover outlines with `2 * (columns - 1)` tap holes each, and
/// `columns + 1` side panels, each an outline plus `4 * rows` wing holes.
pub proof fn lemma_document_path_count(rows: int, columns: int, material_thickness: int, dimensions: Dimensions, primary_color: Seq<char>, secondary_color: Seq<char>)
    requires
        rows >= 1,
        columns >= 1,
    ensures
        document_paths(
            rows,
            columns,
            material_thickness,
            dimensions,
            primary_color,
            secondary_color,
        ).len() == 2 * (rows * columns) + 2 * (1 + 2 * (columns - 1)) + (columns + 1) * (1 + 4
            * rows),
{
    let cx = crate::layout::spec_cover_region_x(dimensions.depth as int);
    let px = crate::layout::spec_panel_region_x(
        columns,
        material_thickness,
        dimensions.width as int,
        dimensions.depth as int,
    );
    let cw = spec_column_width(dimensions.width as int);
    lemma_wing_pairs_len(dimensions, material_thickness, secondary_color, rows * columns);
    assert(rows * columns >= 0) by (nonlinear_arith)
        requires
            rows >= 0,
            columns >= 0,
    ;
    lemma_cover_taps_len(
        cx,
        0,
        dimensions.depth as int,
        cw,
        material_thickness,
        primary_color,
        columns - 1,
    );
    lemma_cover_taps_len(
        cx,
        dimensions.depth as int + CLEARANCE_BETWEEN_PATHS,
        dimensions.depth as int,
        cw,
        material_thickness,
        primary_color,
        columns - 1,
    );
    lemma_panels_len(
        px,
        dimensions,
        rows,
        material_thickness,
        primary_color,
        secondary_color,
        columns + 1,
    );
}

} // verus!

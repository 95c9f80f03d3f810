//! The side-panel generator.
//!
//! One vertical panel per divider, including both outer edges: an outline
//! with a zig-zag tap profile at the front and the back edge that matches
//! the covers' notches, and, per grid row, four rectangular holes that the
//! wing teeth insert into.  The hole positions delegate to the same shared
//! tap-position functions the wing-pair generator draws its teeth from;
//! that sharing is the joint-alignment contract.

use crate::layout::{
    spec_first_tap_position, spec_fourth_tap_position, spec_second_tap_position,
    spec_third_tap_position, CLEARANCE_BETWEEN_PATHS, SIDE_TAP_FROM_FRONT, SIDE_TAP_WIDTH,
    SIDE_WING_SLOT_FROM_FRONT, SIDE_WING_SLOT_SPACING, SIDE_WING_SLOT_WIDTH,
};
use crate::drawing::{cmds_view, paths_view, CutPath, PathCommand, PathView, Segment};
use crate::rack::Dimensions;
use vstd::arithmetic::mul::lemma_mul_inequality;
use vstd::prelude::*;

verus! {

/// The X offset, from a panel's front edge, of wing hole `k` of a row.
/// These are exactly the four tooth positions of the wing-pair generator.
pub open spec fn panel_hole_offset(k: int, box_depth: int) -> int {
    if k == 0 {
        spec_first_tap_position()
    } else if k == 1 {
        spec_second_tap_position()
    } else if k == 2 {
        spec_third_tap_position(box_depth)
    } else {
        spec_fourth_tap_position(box_depth)
    }
}

/// One rectangular wing hole, `material_thickness` wide and one slot width
/// tall.
pub open spec fn wing_hole_cmds(x: int, y: int, material_thickness: int) -> Seq<Segment> {
    seq![
        Segment::Move { x: x, y: y },
        Segment::Vertical { y: y + SIDE_WING_SLOT_WIDTH },
        Segment::Horizontal { x: x + material_thickness },
        Segment::Vertical { y: y },
        Segment::Close,
    ]
}

/// The panel outline: `panel_inner_height` wide along X (the panel lies on
/// its side in the drawing), one box depth tall, with a tap tab protruding
/// one material thickness at the front and the back of both ends.
pub open spec fn panel_outline_cmds(x0: int, y0: int, box_depth: int, panel_inner_height: int, material_thickness: int) -> Seq<Segment> {
    let t = material_thickness;
    let h = panel_inner_height;
    seq![
        Segment::Move { x: x0 + t, y: y0 },
        Segment::Vertical { y: y0 + SIDE_TAP_FROM_FRONT },
        Segment::Horizontal { x: x0 },
        Segment::Vertical { y: y0 + SIDE_TAP_FROM_FRONT + SIDE_TAP_WIDTH },
        Segment::Horizontal { x: x0 + t },
        Segment::Vertical { y: y0 + box_depth - SIDE_TAP_FROM_FRONT - SIDE_TAP_WIDTH },
        Segment::Horizontal { x: x0 },
        Segment::Vertical { y: y0 + box_depth - SIDE_TAP_FROM_FRONT },
        Segment::Horizontal { x: x0 + t },
        Segment::Vertical { y: y0 + box_depth },
        Segment::Horizontal { x: x0 + h + t },
        Segment::Vertical { y: y0 + box_depth - SIDE_TAP_FROM_FRONT },
        Segment::Horizontal { x: x0 + h + 2 * t },
        Segment::Vertical { y: y0 + box_depth - SIDE_TAP_FROM_FRONT - SIDE_TAP_WIDTH },
        Segment::Horizontal { x: x0 + h + t },
        Segment::Vertical { y: y0 + SIDE_TAP_FROM_FRONT + SIDE_TAP_WIDTH },
        Segment::Horizontal { x: x0 + h + 2 * t },
        Segment::Vertical { y: y0 + SIDE_TAP_FROM_FRONT },
        Segment::Horizontal { x: x0 + h + t },
        Segment::Vertical { y: y0 },
        Segment::Close,
    ]
}

pub fn generate_side_panel_wing_holes(x: usize, y: usize, material_thickness: usize, color: &str) -> (path: CutPath)
    requires
        x + material_thickness <= usize::MAX,
        y + SIDE_WING_SLOT_WIDTH <= usize::MAX,
    ensures
        path@.color == color@,
        path@.commands == wing_hole_cmds(x as int, y as int, material_thickness as int),
{
    let mut data: Vec<PathCommand> = Vec::new();
    data.push(PathCommand::MoveTo { x: x, y: y });
    data.push(PathCommand::VerticalTo { y: y + SIDE_WING_SLOT_WIDTH });
    data.push(PathCommand::HorizontalTo { x: x + material_thickness });
    data.push(PathCommand::VerticalTo { y: y });
    data.push(PathCommand::Close);
    proof {
        assert(cmds_view(data@) =~= wing_hole_cmds(x as int, y as int, material_thickness as int));
    }
    CutPath { color: color.to_owned(), commands: data }
}

pub fn generate_side_panel_outline_path(starting_point_x: usize, starting_point_y: usize, dimensions: &Dimensions, rows: usize, material_thickness: usize, color: &str) -> (path: CutPath)
    requires
        dimensions.depth >= SIDE_TAP_FROM_FRONT + SIDE_TAP_WIDTH,
        starting_point_y + dimensions.depth <= usize::MAX,
        starting_point_x + rows * dimensions.height + 2 * material_thickness <= usize::MAX,
    ensures
        path@.color == color@,
        path@.commands == panel_outline_cmds(
            starting_point_x as int,
            starting_point_y as int,
            dimensions.depth as int,
            rows as int * dimensions.height as int,
            material_thickness as int,
        ),
{
    proof {
        assert(rows as int * dimensions.height as int >= 0) by (nonlinear_arith);
        assert(dimensions.height as int * rows as int == rows as int * dimensions.height as int)
            by (nonlinear_arith);
    }
    let panel_inner_height: usize = dimensions.height * rows;
    let mut data: Vec<PathCommand> = Vec::new();
    data.push(PathCommand::MoveTo {
        x: starting_point_x + material_thickness,
        y: starting_point_y,
    });
    data.push(PathCommand::VerticalTo { y: starting_point_y + SIDE_TAP_FROM_FRONT });
    data.push(PathCommand::HorizontalTo { x: starting_point_x });
    data.push(PathCommand::VerticalTo {
        y: starting_point_y + SIDE_TAP_FROM_FRONT + SIDE_TAP_WIDTH,
    });
    data.push(PathCommand::HorizontalTo { x: starting_point_x + material_thickness });
    data.push(PathCommand::VerticalTo {
        y: starting_point_y + dimensions.depth - SIDE_TAP_FROM_FRONT - SIDE_TAP_WIDTH,
    });
    data.push(PathCommand::HorizontalTo { x: starting_point_x });
    data.push(PathCommand::VerticalTo {
        y: starting_point_y + dimensions.depth - SIDE_TAP_FROM_FRONT,
    });
    data.push(PathCommand::HorizontalTo { x: starting_point_x + material_thickness });
    data.push(PathCommand::VerticalTo { y: starting_point_y + dimensions.depth });
    data.push(PathCommand::HorizontalTo {
        x: starting_point_x + panel_inner_height + material_thickness,
    });
    data.push(PathCommand::VerticalTo {
        y: starting_point_y + dimensions.depth - SIDE_TAP_FROM_FRONT,
    });
    data.push(PathCommand::HorizontalTo {
        x: starting_point_x + panel_inner_height + 2 * material_thickness,
    });
    data.push(PathCommand::VerticalTo {
        y: starting_point_y + dimensions.depth - SIDE_TAP_FROM_FRONT - SIDE_TAP_WIDTH,
    });
    data.push(PathCommand::HorizontalTo {
        x: starting_point_x + panel_inner_height + material_thickness,
    });
    data.push(PathCommand::VerticalTo {
        y: starting_point_y + SIDE_TAP_FROM_FRONT + SIDE_TAP_WIDTH,
    });
    data.push(PathCommand::HorizontalTo {
        x: starting_point_x + panel_inner_height + 2 * material_thickness,
    });
    data.push(PathCommand::VerticalTo { y: starting_point_y + SIDE_TAP_FROM_FRONT });
    data.push(PathCommand::HorizontalTo {
        x: starting_point_x + panel_inner_height + material_thickness,
    });
    data.push(PathCommand::VerticalTo { y: starting_point_y });
    data.push(PathCommand::Close);
    proof {
        assert(cmds_view(data@) =~= panel_outline_cmds(
            starting_point_x as int,
            starting_point_y as int,
            dimensions.depth as int,
            rows as int * dimensions.height as int,
            material_thickness as int,
        ));
    }
    CutPath { color: color.to_owned(), commands: data }
}

/// The four wing holes of one grid row of one panel, at X position `x` and
/// panel origin `y`.
pub open spec fn panel_row_hole_views(x: int, y: int, box_depth: int, material_thickness: int, color: Seq<char>) -> Seq<PathView> {
    seq![
        PathView {
            color: color,
            commands: wing_hole_cmds(x, y + panel_hole_offset(0, box_depth), material_thickness),
        },
        PathView {
            color: color,
            commands: wing_hole_cmds(x, y + panel_hole_offset(1, box_depth), material_thickness),
        },
        PathView {
            color: color,
            commands: wing_hole_cmds(x, y + panel_hole_offset(2, box_depth), material_thickness),
        },
        PathView {
            color: color,
            commands: wing_hole_cmds(x, y + panel_hole_offset(3, box_depth), material_thickness),
        },
    ]
}

/// The wing holes of the first `n` grid rows of the panel at origin
/// `(x0, y)`.
pub open spec fn panel_rows_upto(x0: int, y: int, dimensions: Dimensions, material_thickness: int, color: Seq<char>, n: int) -> Seq<PathView>
    decreases n,
{
    if n <= 0 {
        Seq::empty()
    } else {
        panel_rows_upto(x0, y, dimensions, material_thickness, color, n - 1)
            + panel_row_hole_views(
            x0 + material_thickness + dimensions.side_wing_from_box_top + (n - 1)
                * dimensions.height,
            y,
            dimensions.depth as int,
            material_thickness,
            color,
        )
    }
}

/// One full panel: its outline at Y offset `j * (depth + clearance)`,
/// followed by the wing holes of its `rows` grid rows.
pub open spec fn panel_views(x0: int, j: int, dimensions: Dimensions, rows: int, material_thickness: int, primary_color: Seq<char>, secondary_color: Seq<char>) -> Seq<PathView> {
    let y = j * (dimensions.depth + CLEARANCE_BETWEEN_PATHS);
    seq![
        PathView {
            color: secondary_color,
            commands: panel_outline_cmds(
                x0,
                y,
                dimensions.depth as int,
                rows * dimensions.height,
                material_thickness,
            ),
        },
    ] + panel_rows_upto(x0, y, dimensions, material_thickness, primary_color, rows)
}

/// The first `n` panels of the side-panel row.
pub open spec fn panels_upto(x0: int, dimensions: Dimensions, rows: int, material_thickness: int, primary_color: Seq<char>, secondary_color: Seq<char>, n: int) -> Seq<PathView>
    decreases n,
{
    if n <= 0 {
        Seq::empty()
    } else {
        panels_upto(x0, dimensions, rows, material_thickness, primary_color, secondary_color, n - 1)
            + panel_views(
            x0,
            n - 1,
            dimensions,
            rows,
            material_thickness,
            primary_color,
            secondary_color,
        )
    }
}

#[verifier::loop_isolation(false)]
pub fn generate_side_panels(document: &mut Vec<CutPath>, starting_point_x: usize, dimensions: &Dimensions, rows: usize, columns: usize, material_thickness: usize, primary_color: &str, secondary_color: &str)
    requires
        dimensions.depth >= SIDE_WING_SLOT_FROM_FRONT + 2 * SIDE_WING_SLOT_WIDTH
            + SIDE_WING_SLOT_SPACING,
        (columns + 1) * (dimensions.depth + CLEARANCE_BETWEEN_PATHS) <= usize::MAX,
        starting_point_x + rows * dimensions.height + 2 * material_thickness <= usize::MAX,
        starting_point_x + 2 * material_thickness + dimensions.side_wing_from_box_top + (
        rows as int - 1) * dimensions.height <= usize::MAX,
    ensures
        paths_view(final(document)@) == paths_view(old(document)@) + panels_upto(
            starting_point_x as int,
            *dimensions,
            rows as int,
            material_thickness as int,
            primary_color@,
            secondary_color@,
            columns as int + 1,
        ),
{
    let ghost x0 = starting_point_x as int;
    let ghost t = material_thickness as int;
    let ghost dims = *dimensions;
    let ghost stride = dimensions.depth as int + CLEARANCE_BETWEEN_PATHS;

    proof {
        assert(rows as int * dimensions.height as int >= 0) by (nonlinear_arith);
        assert(columns as int + 1 <= (columns as int + 1) * stride) by (nonlinear_arith)
            requires
                stride >= 1,
        ;
        assert((columns + 1) * (dimensions.depth + CLEARANCE_BETWEEN_PATHS) == (columns as int
            + 1) * stride);
    }
    for i in 0..columns + 1
        invariant
            paths_view(document@) =~~= paths_view(old(document)@) + panels_upto(
                x0,
                dims,
                rows as int,
                t,
                primary_color@,
                secondary_color@,
                i as int,
            ),
    {
        proof {
            lemma_mul_inequality(i as int, columns as int, stride);
            lemma_mul_inequality(1, columns as int + 1, stride);
            assert(i as int * stride >= 0) by (nonlinear_arith)
                requires
                    i >= 0,
                    stride >= 0,
            ;
            assert((columns as int + 1) * stride == columns as int * stride + stride)
                by (nonlinear_arith);
            assert((columns + 1) * (dimensions.depth + CLEARANCE_BETWEEN_PATHS) == (
            columns as int + 1) * stride);
            assert(i as int * stride <= usize::MAX);
            assert(i as int * (dimensions.depth + CLEARANCE_BETWEEN_PATHS) == i as int * stride);
        }
        let y: usize = i * (dimensions.depth + CLEARANCE_BETWEEN_PATHS);
        let ghost yg = y as int;

        let outline: CutPath = generate_side_panel_outline_path(
            starting_point_x,
            y,
            dimensions,
            rows,
            material_thickness,
            secondary_color,
        );
        let ghost outline_view = outline@;
        document.push(outline);

        for r in 0..rows
            invariant
                paths_view(document@) =~~= paths_view(old(document)@) + panels_upto(
                    x0,
                    dims,
                    rows as int,
                    t,
                    primary_color@,
                    secondary_color@,
                    i as int,
                ) + seq![outline_view] + panel_rows_upto(
                    x0,
                    yg,
                    dims,
                    t,
                    primary_color@,
                    r as int,
                ),
        {
            proof {
                lemma_mul_inequality(r as int, rows as int - 1, dimensions.height as int);
                assert(r as int * dimensions.height as int >= 0) by (nonlinear_arith);
            }
            let ghost pre = document@;
            let row_x: usize = material_thickness + (dimensions.side_wing_from_box_top + r
                * dimensions.height);

            let hole: CutPath = generate_side_panel_wing_holes(
                starting_point_x + row_x,
                y + SIDE_WING_SLOT_FROM_FRONT,
                material_thickness,
                primary_color,
            );
            let ghost h0 = hole@;
            document.push(hole);

            let hole: CutPath = generate_side_panel_wing_holes(
                starting_point_x + row_x,
                y + (SIDE_WING_SLOT_FROM_FRONT + SIDE_WING_SLOT_WIDTH + SIDE_WING_SLOT_SPACING),
                material_thickness,
                primary_color,
            );
            let ghost h1 = hole@;
            document.push(hole);

            let hole: CutPath = generate_side_panel_wing_holes(
                starting_point_x + row_x,
                y + (dimensions.depth - SIDE_WING_SLOT_FROM_FRONT - (2 * SIDE_WING_SLOT_WIDTH)
                    - SIDE_WING_SLOT_SPACING),
                material_thickness,
                primary_color,
            );
            let ghost h2 = hole@;
            document.push(hole);

            let hole: CutPath = generate_side_panel_wing_holes(
                starting_point_x + row_x,
                y + (dimensions.depth - SIDE_WING_SLOT_FROM_FRONT - SIDE_WING_SLOT_WIDTH),
                material_thickness,
                primary_color,
            );
            let ghost h3 = hole@;
            document.push(hole);

            proof {
                let rx = x0 + t + dims.side_wing_from_box_top + r as int * dims.height;
                assert(panel_rows_upto(x0, yg, dims, t, primary_color@, r as int + 1)
                    == panel_rows_upto(x0, yg, dims, t, primary_color@, r as int)
                    + panel_row_hole_views(rx, yg, dims.depth as int, t, primary_color@));
                assert(paths_view(document@) =~~= paths_view(pre) + seq![h0, h1, h2, h3]);
                assert(seq![h0, h1, h2, h3] =~~= panel_row_hole_views(
                    rx,
                    yg,
                    dims.depth as int,
                    t,
                    primary_color@,
                ));
            }
        }
        proof {
            assert(panels_upto(
                x0,
                dims,
                rows as int,
                t,
                primary_color@,
                secondary_color@,
                i as int + 1,
            ) == panels_upto(
                x0,
                dims,
                rows as int,
                t,
                primary_color@,
                secondary_color@,
                i as int,
            ) + panel_views(
                x0,
                i as int,
                dims,
                rows as int,
                t,
                primary_color@,
                secondary_color@,
            ));
            assert(seq![outline_view] + panel_rows_upto(
                x0,
                yg,
                dims,
                t,
                primary_color@,
                rows as int,
            ) =~~= panel_views(
                x0,
                i as int,
                dims,
                rows as int,
                t,
                primary_color@,
                secondary_color@,
            ));
        }
    }
}

} // verus!

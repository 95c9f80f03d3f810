//! The cover generator.
//!
//! The top and the bottom cover are identical: a rectangle as wide as the
//! whole column grid with a tap notch carved into the front and the back
//! edge, so the covers register against the side panels.  For every internal
//! column boundary each cover also gets two small rectangular tap holes that
//! the internal side panels cross through.

use crate::layout::{
    spec_top_width, top_width, CLEARANCE_BETWEEN_PATHS, SIDE_TAP_FROM_FRONT, SIDE_TAP_WIDTH,
};
use crate::drawing::{cmds_view, paths_view, CutPath, PathCommand, PathView, Segment};
use crate::rack::Dimensions;
use vstd::arithmetic::mul::lemma_mul_inequality;
use vstd::prelude::*;

verus! {

/// The cover outline: a `top_width x depth` rectangle with a tap notch one
/// material thickness deep at the front and the back edge.
pub open spec fn top_path_cmds(x0: int, y0: int, box_depth: int, columns: int, column_width: int, material_thickness: int) -> Seq<Segment> {
    let t = material_thickness;
    let tw = spec_top_width(column_width, columns, t);
    seq![
        Segment::Move { x: x0, y: y0 },
        Segment::Vertical { y: y0 + SIDE_TAP_FROM_FRONT },
        Segment::Horizontal { x: x0 + t },
        Segment::Vertical { y: y0 + SIDE_TAP_FROM_FRONT + SIDE_TAP_WIDTH },
        Segment::Horizontal { x: x0 },
        Segment::Vertical { y: y0 + box_depth - (SIDE_TAP_FROM_FRONT + SIDE_TAP_WIDTH) },
        Segment::Horizontal { x: x0 + t },
        Segment::Vertical { y: y0 + box_depth - SIDE_TAP_FROM_FRONT },
        Segment::Horizontal { x: x0 },
        Segment::Vertical { y: y0 + box_depth },
        Segment::Horizontal { x: x0 + tw },
        Segment::Vertical { y: y0 + box_depth - SIDE_TAP_FROM_FRONT },
        Segment::Horizontal { x: x0 + tw - t },
        Segment::Vertical { y: y0 + box_depth - (SIDE_TAP_FROM_FRONT + SIDE_TAP_WIDTH) },
        Segment::Horizontal { x: x0 + tw },
        Segment::Vertical { y: y0 + SIDE_TAP_FROM_FRONT + SIDE_TAP_WIDTH },
        Segment::Horizontal { x: x0 + tw - t },
        Segment::Vertical { y: y0 + SIDE_TAP_FROM_FRONT },
        Segment::Horizontal { x: x0 + tw },
        Segment::Vertical { y: y0 },
        Segment::Close,
    ]
}

/// One rectangular cover tap hole, `material_thickness` wide and one tap
/// width tall.
pub open spec fn side_tap_cmds(x: int, y: int, material_thickness: int) -> Seq<Segment> {
    seq![
        Segment::Move { x: x, y: y },
        Segment::Vertical { y: y + SIDE_TAP_WIDTH },
        Segment::Horizontal { x: x + material_thickness },
        Segment::Vertical { y: y },
        Segment::Close,
    ]
}

pub fn generate_top_path(dimensions: &Dimensions, starting_point_x: usize, starting_point_y: usize, columns: usize, column_width: usize, material_thickness: usize) -> (data: Vec<PathCommand>)
    requires
        dimensions.depth >= SIDE_TAP_FROM_FRONT + SIDE_TAP_WIDTH,
        starting_point_x + spec_top_width(
            column_width as int,
            columns as int,
            material_thickness as int,
        ) <= usize::MAX,
        starting_point_y + dimensions.depth <= usize::MAX,
    ensures
        cmds_view(data@) == top_path_cmds(
            starting_point_x as int,
            starting_point_y as int,
            dimensions.depth as int,
            columns as int,
            column_width as int,
            material_thickness as int,
        ),
{
    proof {
        assert(column_width as int * columns as int >= 0) by (nonlinear_arith);
    }
    let top_width: usize = top_width(column_width, columns, material_thickness);
    let mut data: Vec<PathCommand> = Vec::new();
    data.push(PathCommand::MoveTo { x: starting_point_x, y: starting_point_y });
    data.push(PathCommand::VerticalTo { y: starting_point_y + SIDE_TAP_FROM_FRONT });
    data.push(PathCommand::HorizontalTo { x: starting_point_x + material_thickness });
    data.push(PathCommand::VerticalTo {
        y: starting_point_y + SIDE_TAP_FROM_FRONT + SIDE_TAP_WIDTH,
    });
    data.push(PathCommand::HorizontalTo { x: starting_point_x });
    data.push(PathCommand::VerticalTo {
        y: starting_point_y + dimensions.depth - (SIDE_TAP_FROM_FRONT + SIDE_TAP_WIDTH),
    });
    data.push(PathCommand::HorizontalTo { x: starting_point_x + material_thickness });
    data.push(PathCommand::VerticalTo {
        y: starting_point_y + dimensions.depth - SIDE_TAP_FROM_FRONT,
    });
    data.push(PathCommand::HorizontalTo { x: starting_point_x });
    data.push(PathCommand::VerticalTo { y: starting_point_y + dimensions.depth });
    data.push(PathCommand::HorizontalTo { x: starting_point_x + top_width });
    data.push(PathCommand::VerticalTo {
        y: starting_point_y + dimensions.depth - SIDE_TAP_FROM_FRONT,
    });
    data.push(PathCommand::HorizontalTo {
        x: starting_point_x + (top_width - material_thickness),
    });
    data.push(PathCommand::VerticalTo {
        y: starting_point_y + dimensions.depth - (SIDE_TAP_FROM_FRONT + SIDE_TAP_WIDTH),
    });
    data.push(PathCommand::HorizontalTo { x: starting_point_x + top_width });
    data.push(PathCommand::VerticalTo {
        y: starting_point_y + SIDE_TAP_FROM_FRONT + SIDE_TAP_WIDTH,
    });
    data.push(PathCommand::HorizontalTo {
        x: starting_point_x + (top_width - material_thickness),
    });
    data.push(PathCommand::VerticalTo { y: starting_point_y + SIDE_TAP_FROM_FRONT });
    data.push(PathCommand::HorizontalTo { x: starting_point_x + top_width });
    data.push(PathCommand::VerticalTo { y: starting_point_y });
    data.push(PathCommand::Close);
    proof {
        assert(cmds_view(data@) =~= top_path_cmds(
            starting_point_x as int,
            starting_point_y as int,
            dimensions.depth as int,
            columns as int,
            column_width as int,
            material_thickness as int,
        ));
    }
    data
}

pub fn generate_side_tap_path(x: usize, y: usize, material_thickness: usize, color: &str) -> (path: CutPath)
    requires
        x + material_thickness <= usize::MAX,
        y + SIDE_TAP_WIDTH <= usize::MAX,
    ensures
        path@.color == color@,
        path@.commands == side_tap_cmds(x as int, y as int, material_thickness as int),
{
    let mut data: Vec<PathCommand> = Vec::new();
    data.push(PathCommand::MoveTo { x: x, y: y });
    data.push(PathCommand::VerticalTo { y: y + SIDE_TAP_WIDTH });
    data.push(PathCommand::HorizontalTo { x: x + material_thickness });
    data.push(PathCommand::VerticalTo { y: y });
    data.push(PathCommand::Close);
    proof {
        assert(cmds_view(data@) =~= side_tap_cmds(x as int, y as int, material_thickness as int));
    }
    CutPath { color: color.to_owned(), commands: data }
}

/// The two tap holes that internal column boundary `i` cuts into a cover:
/// one behind the front edge, one before the back edge.
pub open spec fn cover_tap_pair_views(x0: int, y0: int, box_depth: int, column_width: int, material_thickness: int, color: Seq<char>, i: int) -> Seq<PathView> {
    let x = x0 + column_width + i * column_width;
    let y = y0 + SIDE_TAP_FROM_FRONT;
    seq![
        PathView { color: color, commands: side_tap_cmds(x, y, material_thickness) },
        PathView {
            color: color,
            commands: side_tap_cmds(
                x,
                y + box_depth - SIDE_TAP_FROM_FRONT - 2 * SIDE_TAP_WIDTH,
                material_thickness,
            ),
        },
    ]
}

/// The tap holes of the first `n` internal column boundaries of one cover.
pub open spec fn cover_taps_upto(x0: int, y0: int, box_depth: int, column_width: int, material_thickness: int, color: Seq<char>, n: int) -> Seq<PathView>
    decreases n,
{
    if n <= 0 {
        Seq::empty()
    } else {
        cover_taps_upto(x0, y0, box_depth, column_width, material_thickness, color, n - 1)
            + cover_tap_pair_views(x0, y0, box_depth, column_width, material_thickness, color, n - 1)
    }
}

/// One cover: its outline followed by the tap holes of its `columns - 1`
/// internal column boundaries.
pub open spec fn cover_views(x0: int, y0: int, box_depth: int, columns: int, column_width: int, material_thickness: int, primary_color: Seq<char>, secondary_color: Seq<char>) -> Seq<PathView> {
    seq![
        PathView {
            color: secondary_color,
            commands: top_path_cmds(x0, y0, box_depth, columns, column_width, material_thickness),
        },
    ] + cover_taps_upto(x0, y0, box_depth, column_width, material_thickness, primary_color, columns - 1)
}

#[verifier::loop_isolation(false)]
pub fn generate_cover_path(document: &mut Vec<CutPath>, dimensions: &Dimensions, starting_point_x: usize, starting_point_y: usize, columns: usize, column_width: usize, material_thickness: usize, primary_color: &str, secondary_color: &str)
    requires
        columns >= 1,
        dimensions.depth >= SIDE_TAP_FROM_FRONT + 2 * SIDE_TAP_WIDTH,
        starting_point_x + spec_top_width(
            column_width as int,
            columns as int,
            material_thickness as int,
        ) <= usize::MAX,
        starting_point_y + dimensions.depth <= usize::MAX,
    ensures
        paths_view(final(document)@) == paths_view(old(document)@) + cover_views(
            starting_point_x as int,
            starting_point_y as int,
            dimensions.depth as int,
            columns as int,
            column_width as int,
            material_thickness as int,
            primary_color@,
            secondary_color@,
        ),
{
    let ghost x0 = starting_point_x as int;
    let ghost y0 = starting_point_y as int;
    let ghost depth = dimensions.depth as int;
    let ghost cw = column_width as int;
    let ghost t = material_thickness as int;

    let top_data: Vec<PathCommand> = generate_top_path(
        dimensions,
        starting_point_x,
        starting_point_y,
        columns,
        column_width,
        material_thickness,
    );
    document.push(CutPath { color: secondary_color.to_owned(), commands: top_data });

    for i in 0..columns - 1
        invariant
            paths_view(document@) =~~= paths_view(old(document)@) + seq![
                PathView {
                    color: secondary_color@,
                    commands: top_path_cmds(x0, y0, depth, columns as int, cw, t),
                },
            ] + cover_taps_upto(x0, y0, depth, cw, t, primary_color@, i as int),
    {
        proof {
            lemma_mul_inequality(i as int + 1, columns as int, column_width as int);
            assert((i as int + 1) * (column_width as int) == column_width as int + i as int * (
            column_width as int)) by (nonlinear_arith);
            assert(i as int * (column_width as int) >= 0) by (nonlinear_arith);
            assert((column_width as int) * (columns as int) == (columns as int) * (
            column_width as int)) by (nonlinear_arith);
        }
        let ghost pre = document@;
        let x: usize = starting_point_x + column_width + (i * column_width);
        let y: usize = starting_point_y + SIDE_TAP_FROM_FRONT;
        let side_tap_hole_path: CutPath = generate_side_tap_path(
            x,
            y,
            material_thickness,
            primary_color,
        );
        let ghost p1 = side_tap_hole_path@;
        document.push(side_tap_hole_path);

        let side_tap_hole_path: CutPath = generate_side_tap_path(
            x,
            y + (dimensions.depth - SIDE_TAP_FROM_FRONT - (SIDE_TAP_WIDTH * 2)),
            material_thickness,
            primary_color,
        );
        let ghost p2 = side_tap_hole_path@;
        document.push(side_tap_hole_path);
        proof {
            assert(cover_taps_upto(x0, y0, depth, cw, t, primary_color@, i as int + 1)
                == cover_taps_upto(x0, y0, depth, cw, t, primary_color@, i as int)
                + cover_tap_pair_views(x0, y0, depth, cw, t, primary_color@, i as int));
            assert(paths_view(document@) =~~= paths_view(pre) + seq![p1, p2]);
            assert(seq![p1, p2] =~~= cover_tap_pair_views(
                x0,
                y0,
                depth,
                cw,
                t,
                primary_color@,
                i as int,
            ));
            assert(paths_view(document@) =~~= paths_view(old(document)@) + seq![
                PathView {
                    color: secondary_color@,
                    commands: top_path_cmds(x0, y0, depth, columns as int, cw, t),
                },
            ] + cover_taps_upto(x0, y0, depth, cw, t, primary_color@, i as int + 1));
        }
    }
    proof {
        assert(paths_view(document@) =~~= paths_view(old(document)@) + cover_views(
            x0,
            y0,
            depth,
            columns as int,
            cw,
            t,
            primary_color@,
            secondary_color@,
        ));
    }
}

/// The paths of both covers: the top cover at the region origin and the
/// bottom cover one box depth and one clearance below it.
pub open spec fn covers_views(x0: int, box_depth: int, columns: int, column_width: int, material_thickness: int, primary_color: Seq<char>, secondary_color: Seq<char>) -> Seq<PathView> {
    cover_views(x0, 0, box_depth, columns, column_width, material_thickness, primary_color, secondary_color)
        + cover_views(
        x0,
        box_depth + CLEARANCE_BETWEEN_PATHS,
        box_depth,
        columns,
        column_width,
        material_thickness,
        primary_color,
        secondary_color,
    )
}

pub fn generate_top_and_bottom_pieces(document: &mut Vec<CutPath>, dimensions: &Dimensions, starting_point_x: usize, columns: usize, column_width: usize, material_thickness: usize, primary_color: &str, secondary_color: &str)
    requires
        columns >= 1,
        dimensions.depth >= SIDE_TAP_FROM_FRONT + 2 * SIDE_TAP_WIDTH,
        starting_point_x + spec_top_width(
            column_width as int,
            columns as int,
            material_thickness as int,
        ) <= usize::MAX,
        2 * dimensions.depth + CLEARANCE_BETWEEN_PATHS <= usize::MAX,
    ensures
        paths_view(final(document)@) == paths_view(old(document)@) + covers_views(
            starting_point_x as int,
            dimensions.depth as int,
            columns as int,
            column_width as int,
            material_thickness as int,
            primary_color@,
            secondary_color@,
        ),
{
    generate_cover_path(
        document,
        dimensions,
        starting_point_x,
        0,
        columns,
        column_width,
        material_thickness,
        primary_color,
        secondary_color,
    );

    generate_cover_path(
        document,
        dimensions,
        starting_point_x,
        dimensions.depth + CLEARANCE_BETWEEN_PATHS,
        columns,
        column_width,
        material_thickness,
        primary_color,
        secondary_color,
    );
    proof {
        assert(paths_view(document@) =~~= paths_view(old(document)@) + covers_views(
            starting_point_x as int,
            dimensions.depth as int,
            columns as int,
            column_width as int,
            material_thickness as int,
            primary_color@,
            secondary_color@,
        ));
    }
}

} // verus!

//! The wing-pair generator.
//!
//! Each box gets two mating comb-shaped paths: a non-inverted comb with four
//! teeth along the box depth, and its complement, phase-shifted so its teeth
//! occupy the gaps of the first, stacked one wing width and one clearance
//! below it.

use crate::layout::{
    fourth_side_wing_tap_position_from_front, second_side_wing_tap_position_from_front,
    spec_first_tap_position, spec_fourth_tap_position, spec_second_tap_position,
    spec_third_tap_position, spec_wing_stride, third_side_wing_tap_position_from_front,
    CLEARANCE_BETWEEN_PATHS, SIDE_WING_SLOT_FROM_FRONT, SIDE_WING_SLOT_SPACING,
    SIDE_WING_SLOT_WIDTH,
};
use crate::drawing::{cmds_view, paths_view, CutPath, PathCommand, PathView, Segment};
use crate::rack::Dimensions;
use vstd::prelude::*;

verus! {

/// The non-inverted comb outline: teeth one and three rise by one material
/// thickness at the first and third tap positions.
pub open spec fn wing_cmds(x0: int, y0: int, material_thickness: int, box_depth: int, side_wing_width: int) -> Seq<Segment> {
    let t = material_thickness;
    let w = side_wing_width;
    seq![
        Segment::Move { x: x0, y: y0 },
        Segment::Vertical { y: y0 + w },
        Segment::Horizontal { x: spec_first_tap_position() },
        Segment::Vertical { y: y0 + t + w },
        Segment::Horizontal { x: spec_first_tap_position() + SIDE_WING_SLOT_WIDTH },
        Segment::Vertical { y: y0 + w },
        Segment::Horizontal { x: spec_third_tap_position(box_depth) },
        Segment::Vertical { y: y0 + w + t },
        Segment::Horizontal { x: spec_third_tap_position(box_depth) + SIDE_WING_SLOT_WIDTH },
        Segment::Vertical { y: y0 + w },
        Segment::Horizontal { x: box_depth },
        Segment::Vertical { y: y0 },
        Segment::Close,
    ]
}

/// The complementary comb: teeth two and four drop by one material
/// thickness at the second and fourth tap positions.
pub open spec fn wing_inverted_cmds(x0: int, y0: int, material_thickness: int, box_depth: int, side_wing_width: int) -> Seq<Segment> {
    let t = material_thickness;
    let w = side_wing_width;
    seq![
        Segment::Move { x: x0, y: y0 + t },
        Segment::Horizontal { x: spec_second_tap_position() },
        Segment::Vertical { y: y0 },
        Segment::Horizontal { x: spec_second_tap_position() + SIDE_WING_SLOT_WIDTH },
        Segment::Vertical { y: y0 + t },
        Segment::Horizontal { x: spec_fourth_tap_position(box_depth) },
        Segment::Vertical { y: y0 },
        Segment::Horizontal { x: box_depth - SIDE_WING_SLOT_FROM_FRONT },
        Segment::Vertical { y: y0 + t },
        Segment::Horizontal { x: box_depth },
        Segment::Vertical { y: y0 + t + w },
        Segment::Horizontal { x: x0 },
        Segment::Close,
    ]
}

pub fn generate_side_wing_path(starting_point_x: usize, starting_point_y: usize, material_thickness: usize, box_depth: usize, box_side_wing_width: usize) -> (data: Vec<PathCommand>)
    requires
        box_depth >= SIDE_WING_SLOT_FROM_FRONT + SIDE_WING_SLOT_WIDTH + SIDE_WING_SLOT_SPACING
            + SIDE_WING_SLOT_WIDTH,
        starting_point_y + material_thickness + box_side_wing_width <= usize::MAX,
    ensures
        cmds_view(data@) == wing_cmds(
            starting_point_x as int,
            starting_point_y as int,
            material_thickness as int,
            box_depth as int,
            box_side_wing_width as int,
        ),
{
    let mut data: Vec<PathCommand> = Vec::new();
    data.push(PathCommand::MoveTo { x: starting_point_x, y: starting_point_y });
    data.push(PathCommand::VerticalTo { y: starting_point_y + box_side_wing_width });
    data.push(PathCommand::HorizontalTo { x: SIDE_WING_SLOT_FROM_FRONT });
    data.push(PathCommand::VerticalTo {
        y: starting_point_y + material_thickness + box_side_wing_width,
    });
    data.push(PathCommand::HorizontalTo { x: SIDE_WING_SLOT_FROM_FRONT + SIDE_WING_SLOT_WIDTH });
    data.push(PathCommand::VerticalTo { y: starting_point_y + box_side_wing_width });
    let third: usize = third_side_wing_tap_position_from_front(box_depth);
    data.push(PathCommand::HorizontalTo { x: third });
    data.push(PathCommand::VerticalTo {
        y: starting_point_y + box_side_wing_width + material_thickness,
    });
    data.push(PathCommand::HorizontalTo { x: third + SIDE_WING_SLOT_WIDTH });
    data.push(PathCommand::VerticalTo { y: starting_point_y + box_side_wing_width });
    data.push(PathCommand::HorizontalTo { x: box_depth });
    data.push(PathCommand::VerticalTo { y: starting_point_y });
    data.push(PathCommand::Close);
    proof {
        assert(cmds_view(data@) =~= wing_cmds(
            starting_point_x as int,
            starting_point_y as int,
            material_thickness as int,
            box_depth as int,
            box_side_wing_width as int,
        ));
    }
    data
}

pub fn generate_side_wing_inverted_path(starting_point_x: usize, starting_point_y: usize, material_thickness: usize, box_depth: usize, box_side_wing_width: usize) -> (data: Vec<PathCommand>)
    requires
        box_depth >= SIDE_WING_SLOT_FROM_FRONT + SIDE_WING_SLOT_WIDTH + SIDE_WING_SLOT_SPACING
            + SIDE_WING_SLOT_WIDTH,
        starting_point_y + material_thickness + box_side_wing_width <= usize::MAX,
    ensures
        cmds_view(data@) == wing_inverted_cmds(
            starting_point_x as int,
            starting_point_y as int,
            material_thickness as int,
            box_depth as int,
            box_side_wing_width as int,
        ),
{
    let mut data: Vec<PathCommand> = Vec::new();
    data.push(PathCommand::MoveTo {
        x: starting_point_x,
        y: starting_point_y + material_thickness,
    });
    let second: usize = second_side_wing_tap_position_from_front();
    data.push(PathCommand::HorizontalTo { x: second });
    data.push(PathCommand::VerticalTo { y: starting_point_y });
    data.push(PathCommand::HorizontalTo { x: second + SIDE_WING_SLOT_WIDTH });
    data.push(PathCommand::VerticalTo { y: starting_point_y + material_thickness });
    let fourth: usize = fourth_side_wing_tap_position_from_front(box_depth);
    data.push(PathCommand::HorizontalTo { x: fourth });
    data.push(PathCommand::VerticalTo { y: starting_point_y });
    data.push(PathCommand::HorizontalTo { x: box_depth - SIDE_WING_SLOT_FROM_FRONT });
    data.push(PathCommand::VerticalTo { y: starting_point_y + material_thickness });
    data.push(PathCommand::HorizontalTo { x: box_depth });
    data.push(PathCommand::VerticalTo {
        y: starting_point_y + material_thickness + box_side_wing_width,
    });
    data.push(PathCommand::HorizontalTo { x: starting_point_x });
    data.push(PathCommand::Close);
    proof {
        assert(cmds_view(data@) =~= wing_inverted_cmds(
            starting_point_x as int,
            starting_point_y as int,
            material_thickness as int,
            box_depth as int,
            box_side_wing_width as int,
        ));
    }
    data
}

pub fn generate_side_wing(starting_point_x: usize, starting_point_y: usize, material_thickness: usize, box_depth: usize, box_side_wing_width: usize, inverted: bool, color: &str) -> (path: CutPath)
    requires
        box_depth >= SIDE_WING_SLOT_FROM_FRONT + SIDE_WING_SLOT_WIDTH + SIDE_WING_SLOT_SPACING
            + SIDE_WING_SLOT_WIDTH,
        starting_point_y + material_thickness + box_side_wing_width <= usize::MAX,
    ensures
        path@.color == color@,
        path@.commands == if inverted {
            wing_inverted_cmds(
                starting_point_x as int,
                starting_point_y as int,
                material_thickness as int,
                box_depth as int,
                box_side_wing_width as int,
            )
        } else {
            wing_cmds(
                starting_point_x as int,
                starting_point_y as int,
                material_thickness as int,
                box_depth as int,
                box_side_wing_width as int,
            )
        },
{
    let wing_data: Vec<PathCommand> = if inverted {
        generate_side_wing_inverted_path(
            starting_point_x,
            starting_point_y,
            material_thickness,
            box_depth,
            box_side_wing_width,
        )
    } else {
        generate_side_wing_path(
            starting_point_x,
            starting_point_y,
            material_thickness,
            box_depth,
            box_side_wing_width,
        )
    };
    CutPath { color: color.to_owned(), commands: wing_data }
}

/// The two paths of one mating wing pair: the non-inverted comb at the given
/// origin and the inverted comb one wing width and one clearance below it.
pub open spec fn wing_pair_views(dimensions: Dimensions, x0: int, y0: int, material_thickness: int, color: Seq<char>) -> Seq<PathView> {
    seq![
        PathView {
            color: color,
            commands: wing_cmds(
                x0,
                y0,
                material_thickness,
                dimensions.depth as int,
                dimensions.side_wing_width as int,
            ),
        },
        PathView {
            color: color,
            commands: wing_inverted_cmds(
                x0,
                y0 + dimensions.side_wing_width + CLEARANCE_BETWEEN_PATHS,
                material_thickness,
                dimensions.depth as int,
                dimensions.side_wing_width as int,
            ),
        },
    ]
}

/// The wing pairs of the first `n` boxes, stacked one stride apart.
pub open spec fn wing_pairs_upto(dimensions: Dimensions, material_thickness: int, color: Seq<char>, n: int) -> Seq<PathView>
    decreases n,
{
    if n <= 0 {
        Seq::empty()
    } else {
        wing_pairs_upto(dimensions, material_thickness, color, n - 1) + wing_pair_views(
            dimensions,
            0,
            (n - 1) * spec_wing_stride(dimensions.side_wing_width as int, material_thickness),
            material_thickness,
            color,
        )
    }
}

pub fn generate_side_wing_pair(document: &mut Vec<CutPath>, dimensions: &Dimensions, starting_point_x: usize, starting_point_y: usize, material_thickness: usize, color: &str)
    requires
        dimensions.depth >= SIDE_WING_SLOT_FROM_FRONT + SIDE_WING_SLOT_WIDTH
            + SIDE_WING_SLOT_SPACING + SIDE_WING_SLOT_WIDTH,
        starting_point_y + 2 * dimensions.side_wing_width + CLEARANCE_BETWEEN_PATHS
            + material_thickness <= usize::MAX,
    ensures
        paths_view(final(document)@) == paths_view(old(document)@) + wing_pair_views(
            *dimensions,
            starting_point_x as int,
            starting_point_y as int,
            material_thickness as int,
            color@,
        ),
{
    let path: CutPath = generate_side_wing(
        starting_point_x,
        starting_point_y,
        material_thickness,
        dimensions.depth,
        dimensions.side_wing_width,
        false,
        color,
    );
    document.push(path);
    let path: CutPath = generate_side_wing(
        starting_point_x,
        starting_point_y + (dimensions.side_wing_width + CLEARANCE_BETWEEN_PATHS),
        material_thickness,
        dimensions.depth,
        dimensions.side_wing_width,
        true,
        color,
    );
    document.push(path);
    proof {
        assert(paths_view(document@) =~~= paths_view(old(document)@) + wing_pair_views(
            *dimensions,
            starting_point_x as int,
            starting_point_y as int,
            material_thickness as int,
            color@,
        ));
    }
}

} // verus!

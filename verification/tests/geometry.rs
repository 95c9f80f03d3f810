use container_rack_lib::drawing::{Document, PathCommand};
use container_rack_lib::rack::{Container, Dimensions};

fn classic() -> Container {
    Container {
        vendor: String::from("SmartStore"),
        model: String::from("Classic 1"),
        description: String::from("A rectangular storage container."),
        links: Vec::new(),
        dimensions: Dimensions {
            width: 170,
            depth: 210,
            height: 56,
            side_wing_from_box_top: 15,
            side_wing_width: 8,
        },
    }
}

fn generate(rows: usize, columns: usize, thickness: usize) -> Document {
    container_rack_lib::rack::generate_document(
        rows,
        columns,
        thickness,
        &classic(),
        "black",
        "blue",
    )
}

fn command_count(document: &Document, commands: usize) -> usize {
    document
        .paths
        .iter()
        .filter(|p| p.commands.len() == commands)
        .count()
}

#[test]
fn counts_for_single_box_grid() {
    let document = generate(1, 1, 4);
    // 1 wing pair (2 paths), 2 cover paths with no internal tap holes, and
    // 2 side panels of one outline and 4 wing holes each.
    assert_eq!(document.paths.len(), 14);
    assert_eq!(command_count(&document, 13), 2); // wing combs
    assert_eq!(command_count(&document, 21), 4); // cover and panel outlines
    assert_eq!(command_count(&document, 5), 8); // wing holes
}

#[test]
fn counts_for_two_by_three_grid() {
    let document = generate(2, 3, 4);
    // 6 wing pairs (12 paths); 2 covers, each with 2 * (3 - 1) = 4 internal
    // tap holes; 4 side panels, each with 2 * 4 = 8 wing holes.
    assert_eq!(document.paths.len(), 58);
    assert_eq!(command_count(&document, 13), 12); // wing combs
    assert_eq!(command_count(&document, 21), 6); // 2 cover + 4 panel outlines
    assert_eq!(command_count(&document, 5), 8 + 32); // tap holes + wing holes
    // The first cover outline comes right after the wing stack, followed by
    // its four tap holes.
    assert_eq!(document.paths[12].commands.len(), 21);
    for i in 13..17 {
        assert_eq!(document.paths[i].commands.len(), 5);
    }
    assert_eq!(document.paths[17].commands.len(), 21);
    for i in 18..22 {
        assert_eq!(document.paths[i].commands.len(), 5);
    }
}

#[test]
fn canvas_extent_exact_values() {
    let document = generate(2, 3, 4);
    // depth + 9 + (4 + 174 * 3 + 4) + 56 * 2 + 8
    assert_eq!(document.width, 869);
    // max(6 * 26, 2 * 210 + 3, 4 * (210 + 3)) = 852: the side-panel row.
    assert_eq!(document.height, 852);

    let document = generate(1, 1, 4);
    assert_eq!(document.width, 465);
    // max(26, 423, 426) = 426: the two stacked side panels.
    assert_eq!(document.height, 426);
}

#[test]
fn canvas_extent_monotone() {
    let base = generate(2, 3, 4);
    for (rows, columns, thickness) in [(3, 3, 4), (2, 4, 4), (2, 3, 5), (5, 7, 9)] {
        let grown = generate(rows, columns, thickness);
        assert!(grown.width >= base.width);
        assert!(grown.height >= base.height);
        assert!(grown.width > 0 && grown.height > 0);
    }
}

#[test]
fn joint_alignment_wing_teeth_meet_panel_holes() {
    let document = generate(1, 1, 4);
    // Leading tooth edges of the wing pair: commands 2 and 6 of the
    // non-inverted comb, commands 1 and 5 of the inverted comb.
    let tooth = |path: usize, command: usize| -> usize {
        match document.paths[path].commands[command] {
            PathCommand::HorizontalTo { x } => x,
            ref other => panic!("expected a horizontal segment, got {:?}", other),
        }
    };
    let teeth = [tooth(0, 2), tooth(1, 1), tooth(0, 6), tooth(1, 5)];
    assert_eq!(teeth, [20, 55, 135, 170]);

    // The four wing holes of the first panel's first row sit at the same
    // offsets; the first panel starts at Y = 0, so the hole Y positions are
    // the offsets themselves.
    let holes: Vec<usize> = (5..9)
        .map(|i| match document.paths[i].commands[0] {
            PathCommand::MoveTo { x: _, y } => y,
            ref other => panic!("expected a move, got {:?}", other),
        })
        .collect();
    assert_eq!(holes, teeth);
}

#[test]
fn identical_arguments_identical_documents() {
    let first = generate(3, 2, 6);
    let second = generate(3, 2, 6);
    assert_eq!(first, second);
}

#[test]
fn all_coordinates_inside_canvas() {
    for (rows, columns, thickness) in [(1, 1, 1), (2, 3, 4), (7, 5, 12)] {
        let document = generate(rows, columns, thickness);
        for path in &document.paths {
            for command in &path.commands {
                match *command {
                    PathCommand::MoveTo { x, y } => {
                        assert!(x <= document.width && y <= document.height);
                    }
                    PathCommand::VerticalTo { y } => assert!(y <= document.height),
                    PathCommand::HorizontalTo { x } => assert!(x <= document.width),
                    PathCommand::Close => {}
                }
            }
        }
    }
}

#[test]
fn one_more_row_adds_one_stride_per_column() {
    // With a single column and the wing stack as the tallest region, one
    // more row grows the canvas by exactly one stride:
    // 2 * side_wing_width + clearance + thickness + clearance = 26.
    let shorter = generate(17, 1, 4);
    let taller = generate(18, 1, 4);
    assert_eq!(shorter.height, 442);
    assert_eq!(taller.height - shorter.height, 26);
}

#[test]
fn wing_comb_exact_coordinates() {
    let document = generate(1, 1, 4);
    let wing = &document.paths[0];
    assert_eq!(wing.color, "blue");
    assert_eq!(
        wing.commands,
        vec![
            PathCommand::MoveTo { x: 0, y: 0 },
            PathCommand::VerticalTo { y: 8 },
            PathCommand::HorizontalTo { x: 20 },
            PathCommand::VerticalTo { y: 12 },
            PathCommand::HorizontalTo { x: 40 },
            PathCommand::VerticalTo { y: 8 },
            PathCommand::HorizontalTo { x: 135 },
            PathCommand::VerticalTo { y: 12 },
            PathCommand::HorizontalTo { x: 155 },
            PathCommand::VerticalTo { y: 8 },
            PathCommand::HorizontalTo { x: 210 },
            PathCommand::VerticalTo { y: 0 },
            PathCommand::Close,
        ]
    );
    let inverted = &document.paths[1];
    assert_eq!(
        inverted.commands,
        vec![
            // The inverted comb sits one wing width and one clearance lower.
            PathCommand::MoveTo { x: 0, y: 15 },
            PathCommand::HorizontalTo { x: 55 },
            PathCommand::VerticalTo { y: 11 },
            PathCommand::HorizontalTo { x: 75 },
            PathCommand::VerticalTo { y: 15 },
            PathCommand::HorizontalTo { x: 170 },
            PathCommand::VerticalTo { y: 11 },
            PathCommand::HorizontalTo { x: 190 },
            PathCommand::VerticalTo { y: 15 },
            PathCommand::HorizontalTo { x: 210 },
            PathCommand::VerticalTo { y: 23 },
            PathCommand::HorizontalTo { x: 0 },
            PathCommand::Close,
        ]
    );
}

#[test]
fn cover_tap_holes_at_column_boundaries() {
    let document = generate(1, 2, 4);
    // Wing stack: 2 pairs = 4 paths; first cover outline at index 4, its
    // two tap holes (one internal boundary) at 5 and 6.
    let cover_x = 210 + 3;
    match document.paths[5].commands[0] {
        PathCommand::MoveTo { x, y } => {
            assert_eq!(x, cover_x + 174);
            assert_eq!(y, 30);
        }
        ref other => panic!("expected a move, got {:?}", other),
    }
    match document.paths[6].commands[0] {
        PathCommand::MoveTo { x, y } => {
            assert_eq!(x, cover_x + 174);
            assert_eq!(y, 30 + 210 - 30 - 60);
        }
        ref other => panic!("expected a move, got {:?}", other),
    }
}

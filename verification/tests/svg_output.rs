use container_rack_lib::rack::{generate_svg, Container, Dimensions};
use container_rack_lib::render::{decimal_string, mm_label, view_box_value};

fn classic() -> Container {
    Container {
        vendor: String::from("SmartStore"),
        model: String::from("Classic 1"),
        description: String::from("A rectangular storage container."),
        links: vec![String::from("https://example.com/classic-1")],
        dimensions: Dimensions {
            width: 170,
            depth: 210,
            height: 56,
            side_wing_from_box_top: 15,
            side_wing_width: 8,
        },
    }
}

#[test]
fn container_key_is_lowercased_and_underscored() {
    let container = classic();
    assert_eq!(container.key(), "smartstore-classic_1");
}

#[test]
fn decimal_labels() {
    assert_eq!(decimal_string(0), "0");
    assert_eq!(decimal_string(7), "7");
    assert_eq!(decimal_string(465), "465");
    assert_eq!(decimal_string(10000), "10000");
    assert_eq!(mm_label(869), "869mm");
    assert_eq!(view_box_value(465, 426), "0 0 465 426");
}

#[test]
fn svg_document_declares_canvas_in_millimetres() {
    let rendered = generate_svg(1, 1, 4, &classic(), "black", "blue").to_string();
    assert!(rendered.contains("width=\"465mm\""));
    assert!(rendered.contains("height=\"426mm\""));
    assert!(rendered.contains("viewBox=\"0 0 465 426\""));
    assert!(rendered.contains("xmlns=\"http://www.w3.org/2000/svg\""));
}

#[test]
fn svg_document_holds_the_wing_comb_path() {
    let rendered = generate_svg(1, 1, 4, &classic(), "black", "blue").to_string();
    assert!(rendered.contains("d=\"M0,0 V8 H20 V12 H40 V8 H135 V12 H155 V8 H210 V0 z\""));
    assert!(rendered.contains("stroke=\"blue\""));
    assert!(rendered.contains("stroke=\"black\""));
    assert!(rendered.contains("fill=\"none\""));
}

#[test]
fn svg_output_is_byte_identical_across_calls() {
    let first = generate_svg(2, 3, 4, &classic(), "black", "blue").to_string();
    let second = generate_svg(2, 3, 4, &classic(), "black", "blue").to_string();
    assert_eq!(first, second);
}

#[test]
fn svg_document_has_one_path_element_per_path() {
    let rendered = generate_svg(2, 3, 4, &classic(), "black", "blue").to_string();
    assert_eq!(rendered.matches("<path").count(), 58);
}

//! Rendering the assembled document as an SVG element tree.
//!
//! The document's paths and extent are already fixed by the generators'
//! contracts; this module formats the metadata strings, models what the
//! `svg` crate's values hold — a data attribute as a command list, an
//! element as its string attributes and children — and states over those
//! models, wrapper by wrapper, what each `svg` call does.  The emitted
//! element tree is thereby pinned: its attributes carry the canvas extent
//! and one `path` child stands for each document path, in draw order.

use crate::drawing::{
    document_in_bounds, path_in_bounds, segment_in_bounds, Document, DocumentView, PathCommand,
    PathView, Segment,
};
use vstd::prelude::*;

verus! {

#[verifier::external_type_specification]
#[verifier::external_body]
pub struct ExCommand(svg::node::element::path::Command);

#[verifier::external_type_specification]
#[verifier::external_body]
pub struct ExData(svg::node::element::path::Data);

#[verifier::external_type_specification]
#[verifier::external_body]
pub struct ExElement(svg::node::element::Element);

#[verifier::external_type_specification]
#[verifier::external_body]
pub struct ExPath(svg::node::element::Path);

#[verifier::external_type_specification]
#[verifier::external_body]
pub struct ExSvg(svg::node::element::SVG);

/// The character of one decimal digit.
pub open spec fn digit_char(d: int) -> char {
    if d == 0 {
        '0'
    } else if d == 1 {
        '1'
    } else if d == 2 {
        '2'
    } else if d == 3 {
        '3'
    } else if d == 4 {
        '4'
    } else if d == 5 {
        '5'
    } else if d == 6 {
        '6'
    } else if d == 7 {
        '7'
    } else if d == 8 {
        '8'
    } else {
        '9'
    }
}

/// The decimal form of a non-negative number, most significant digit
/// first.
pub open spec fn spec_decimal(n: int) -> Seq<char>
    decreases n,
{
    if n < 10 {
        seq![digit_char(n)]
    } else {
        spec_decimal(n / 10) + seq![digit_char(n % 10)]
    }
}

fn digit_str(d: usize) -> (s: &'static str)
    requires
        d < 10,
    ensures
        s@ == seq![digit_char(d as int)],
{
    proof {
        reveal_strlit("0");
        reveal_strlit("1");
        reveal_strlit("2");
        reveal_strlit("3");
        reveal_strlit("4");
        reveal_strlit("5");
        reveal_strlit("6");
        reveal_strlit("7");
        reveal_strlit("8");
        reveal_strlit("9");
    }
    if d == 0 {
        "0"
    } else if d == 1 {
        "1"
    } else if d == 2 {
        "2"
    } else if d == 3 {
        "3"
    } else if d == 4 {
        "4"
    } else if d == 5 {
        "5"
    } else if d == 6 {
        "6"
    } else if d == 7 {
        "7"
    } else if d == 8 {
        "8"
    } else {
        "9"
    }
}

pub fn decimal_string(n: usize) -> (s: String)
    ensures
        s@ == spec_decimal(n as int),
    decreases n,
{
    if n < 10 {
        let mut s = String::new();
        s.append(digit_str(n));
        s
    } else {
        let mut s = decimal_string(n / 10);
        s.append(digit_str(n % 10));
        s
    }
}

/// The label the drawing declares its physical extent with.
pub open spec fn spec_mm_label(n: int) -> Seq<char> {
    spec_decimal(n) + "mm"@
}

pub fn mm_label(n: usize) -> (s: String)
    ensures
        s@ == spec_mm_label(n as int),
{
    let mut s = decimal_string(n);
    s.append("mm");
    s
}

/// The view box covering the whole canvas from the origin.
pub open spec fn spec_view_box(width: int, height: int) -> Seq<char> {
    "0 0 "@ + spec_decimal(width) + " "@ + spec_decimal(height)
}

pub fn view_box_value(width: usize, height: usize) -> (s: String)
    ensures
        s@ == spec_view_box(width as int, height as int),
{
    let mut s = String::new();
    s.append("0 0 ");
    let w = decimal_string(width);
    s.append(w.as_str());
    s.append(" ");
    let h = decimal_string(height);
    s.append(h.as_str());
    s
}

/// The largest coordinate the render layer accepts.  The `svg` crate
/// stores coordinates as 32-bit floating-point numbers, which hold every
/// integer up to two to the twenty-fourth exactly; beyond that the stored
/// value could differ from the computed one.
pub const MAX_EXACT_COORDINATE: usize = 16777216;

/// Whether one coordinate is held exactly by the `svg` crate's numbers.
pub open spec fn coordinate_exact(x: int) -> bool {
    0 <= x <= MAX_EXACT_COORDINATE
}

/// Whether every coordinate of one command is held exactly.
pub open spec fn segment_exact(s: Segment) -> bool {
    match s {
        Segment::Move { x, y } => coordinate_exact(x) && coordinate_exact(y),
        Segment::Vertical { y } => coordinate_exact(y),
        Segment::Horizontal { x } => coordinate_exact(x),
        Segment::Close => true,
    }
}

/// Whether every coordinate of a command list is held exactly.
pub open spec fn segments_exact(s: Seq<Segment>) -> bool {
    forall|i: int| 0 <= i < s.len() ==> segment_exact(#[trigger] s[i])
}

/// Whether every coordinate of every path of a document is held exactly.
pub open spec fn document_exact(d: DocumentView) -> bool {
    forall|i: int| 0 <= i < d.paths.len() ==> segments_exact(#[trigger] d.paths[i].commands)
}

/// A document whose coordinates all lie inside a canvas no larger than
/// `MAX_EXACT_COORDINATE` is held exactly.
pub proof fn lemma_in_bounds_document_exact(d: DocumentView)
    requires
        document_in_bounds(d),
        d.width <= MAX_EXACT_COORDINATE,
        d.height <= MAX_EXACT_COORDINATE,
    ensures
        document_exact(d),
{
    assert forall|i: int| 0 <= i < d.paths.len() implies segments_exact(
        #[trigger] d.paths[i].commands,
    ) by {
        assert(path_in_bounds(d.paths[i], d.width, d.height));
        assert forall|j: int| 0 <= j < d.paths[i].commands.len() implies segment_exact(
            #[trigger] d.paths[i].commands[j],
        ) by {
            assert(segment_in_bounds(d.paths[i].commands[j], d.width, d.height));
        }
    }
}

/// The commands a data attribute holds, in order, as the library's own
/// command model.
pub uninterp spec fn data_segments(data: svg::node::element::path::Data) -> Seq<Segment>;

/// The string attributes of a `path` element, except its `d` attribute.
pub uninterp spec fn path_attributes(path: svg::node::element::Path) -> Map<Seq<char>, Seq<char>>;

/// The commands of a `path` element's `d` attribute, as the library's own
/// command model.
pub uninterp spec fn path_segments(path: svg::node::element::Path) -> Seq<Segment>;

/// The string attributes of an `svg` element.
pub uninterp spec fn svg_attributes(element: svg::node::element::SVG) -> Map<Seq<char>, Seq<char>>;

/// The children of an `svg` element, in order, each as a path-element
/// model.
pub uninterp spec fn svg_children(element: svg::node::element::SVG) -> Seq<PathElementModel>;

/// What one `path` child of the drawing holds: its string attributes and
/// the commands of its `d` attribute.
#[verifier::ext_equal]
pub struct PathElementModel {
    pub attributes: Map<Seq<char>, Seq<char>>,
    pub segments: Seq<Segment>,
}

/// An element with no string attributes.
pub open spec fn no_attributes() -> Map<Seq<char>, Seq<char>> {
    Map::empty()
}

/// The model of a given `path` element.
pub open spec fn path_element_of(path: svg::node::element::Path) -> PathElementModel {
    PathElementModel { attributes: path_attributes(path), segments: path_segments(path) }
}

/// The attributes every emitted `path` element carries: no fill, and the
/// path's stroke colour.
pub open spec fn path_element_attributes(color: Seq<char>) -> Map<Seq<char>, Seq<char>> {
    no_attributes().insert("fill"@, "none"@).insert("stroke"@, color)
}

/// The `path` element one document path renders as.
pub open spec fn path_element_model(path: PathView) -> PathElementModel {
    PathElementModel {
        attributes: path_element_attributes(path.color),
        segments: path.commands,
    }
}

/// The attributes of the emitted `svg` element: the SVG namespace, the
/// view box over the whole canvas, and the physical extent in millimetres.
pub open spec fn document_attributes(width: int, height: int) -> Map<Seq<char>, Seq<char>> {
    no_attributes()
        .insert("xmlns"@, "http://www.w3.org/2000/svg"@)
        .insert("viewBox"@, spec_view_box(width, height))
        .insert("width"@, spec_mm_label(width))
        .insert("height"@, spec_mm_label(height))
}

/// Relies on svg's `Data::new`: an empty path data attribute.
#[verifier::external_body]
fn data_new() -> (data: svg::node::element::path::Data)
    ensures
        data_segments(data) == Seq::<Segment>::empty(),
{
    svg::node::element::path::Data::new()
}

/// Relies on svg's `Data::move_to`: appends one absolute move command
/// with the given coordinates, which the crate's numbers hold exactly up
/// to `MAX_EXACT_COORDINATE`.
#[verifier::external_body]
fn data_move_to(data: svg::node::element::path::Data, x: usize, y: usize) -> (appended: svg::node::element::path::Data)
    requires
        x <= MAX_EXACT_COORDINATE,
        y <= MAX_EXACT_COORDINATE,
    ensures
        data_segments(appended) == data_segments(data).push(
            Segment::Move { x: x as int, y: y as int },
        ),
{
    data.move_to((x, y))
}

/// Relies on svg's `Data::vertical_line_to`: appends one absolute
/// vertical line command with the given coordinate, held exactly up to
/// `MAX_EXACT_COORDINATE`.
#[verifier::external_body]
fn data_vertical_line_to(data: svg::node::element::path::Data, y: usize) -> (appended: svg::node::element::path::Data)
    requires
        y <= MAX_EXACT_COORDINATE,
    ensures
        data_segments(appended) == data_segments(data).push(Segment::Vertical { y: y as int }),
{
    data.vertical_line_to(y)
}

/// Relies on svg's `Data::horizontal_line_to`: appends one absolute
/// horizontal line command with the given coordinate, held exactly up to
/// `MAX_EXACT_COORDINATE`.
#[verifier::external_body]
fn data_horizontal_line_to(data: svg::node::element::path::Data, x: usize) -> (appended: svg::node::element::path::Data)
    requires
        x <= MAX_EXACT_COORDINATE,
    ensures
        data_segments(appended) == data_segments(data).push(Segment::Horizontal { x: x as int }),
{
    data.horizontal_line_to(x)
}

/// Relies on svg's `Data::close`: appends one close command.
#[verifier::external_body]
fn data_close(data: svg::node::element::path::Data) -> (appended: svg::node::element::path::Data)
    ensures
        data_segments(appended) == data_segments(data).push(Segment::Close),
{
    data.close()
}

/// Relies on svg's `Path::new`: an empty `path` element with no
/// attributes.
#[verifier::external_body]
fn path_new() -> (path: svg::node::element::Path)
    ensures
        path_attributes(path) == no_attributes(),
        path_segments(path) == Seq::<Segment>::empty(),
{
    svg::node::element::Path::new()
}

/// Relies on svg's `Path::set`: assigns a string-valued attribute,
/// replacing an earlier value of the same name.  The `d` attribute is
/// modelled separately, so it is out of this wrapper's reach.
#[verifier::external_body]
fn path_set(path: svg::node::element::Path, name: &str, value: &str) -> (assigned: svg::node::element::Path)
    requires
        name@ != "d"@,
    ensures
        path_attributes(assigned) == path_attributes(path).insert(name@, value@),
        path_segments(assigned) == path_segments(path),
{
    path.set(name, value)
}

/// Relies on svg's `Path::set`: assigns the `d` attribute from path data,
/// leaving the other attributes as they are.
#[verifier::external_body]
fn path_set_data(path: svg::node::element::Path, data: svg::node::element::path::Data) -> (assigned: svg::node::element::Path)
    ensures
        path_segments(assigned) == data_segments(data),
        path_attributes(assigned) == path_attributes(path),
{
    path.set("d", data)
}

/// Relies on svg's `SVG::new`: an empty `svg` element that carries the
/// SVG namespace as its only attribute.
#[verifier::external_body]
fn svg_new() -> (element: svg::node::element::SVG)
    ensures
        svg_attributes(element) == no_attributes().insert(
            "xmlns"@,
            "http://www.w3.org/2000/svg"@,
        ),
        svg_children(element) == Seq::<PathElementModel>::empty(),
{
    svg::node::element::SVG::new()
}

/// Relies on svg's `SVG::set`: assigns a string-valued attribute,
/// replacing an earlier value of the same name and leaving the children
/// alone.
#[verifier::external_body]
fn svg_set(element: svg::node::element::SVG, name: &str, value: &str) -> (assigned: svg::node::element::SVG)
    ensures
        svg_attributes(assigned) == svg_attributes(element).insert(name@, value@),
        svg_children(assigned) == svg_children(element),
{
    element.set(name, value)
}

/// Relies on svg's `SVG::add`: appends one child element, keeping the
/// children already present in order and the attributes as they are.
#[verifier::external_body]
fn svg_add(element: svg::node::element::SVG, path: svg::node::element::Path) -> (extended: svg::node::element::SVG)
    ensures
        svg_children(extended) == svg_children(element).push(path_element_of(path)),
        svg_attributes(extended) == svg_attributes(element),
{
    element.add(path)
}

/// One path of the document as a stroke-only `path` element.
#[verifier::loop_isolation(false)]
fn path_to_svg(path: &crate::drawing::CutPath) -> (element: svg::node::element::Path)
    requires
        segments_exact(path@.commands),
    ensures
        path_attributes(element) == path_element_attributes(path@.color),
        path_segments(element) == path@.commands,
{
    proof {
        reveal_strlit("d");
        reveal_strlit("fill");
        reveal_strlit("stroke");
        assert("fill"@.len() == 4 && "stroke"@.len() == 6 && "d"@.len() == 1);
        assert("fill"@ != "d"@ && "stroke"@ != "d"@);
    }
    let mut data = data_new();
    let n = path.commands.len();
    for i in 0..n
        invariant
            data_segments(data) =~= path@.commands.take(i as int),
    {
        let command = path.commands[i];
        proof {
            assert(path@.commands[i as int] == command@);
        }
        match command {
            PathCommand::MoveTo { x, y } => {
                data = data_move_to(data, x, y);
            },
            PathCommand::VerticalTo { y } => {
                data = data_vertical_line_to(data, y);
            },
            PathCommand::HorizontalTo { x } => {
                data = data_horizontal_line_to(data, x);
            },
            PathCommand::Close => {
                data = data_close(data);
            },
        }
        proof {
            assert(data_segments(data) =~= path@.commands.take(i as int + 1));
        }
    }
    proof {
        assert(path@.commands.take(n as int) =~= path@.commands);
    }
    let element = path_new();
    let element = path_set(element, "fill", "none");
    let element = path_set(element, "stroke", path.color.as_str());
    path_set_data(element, data)
}

/// The whole document as an `svg` element: canvas metadata first, then
/// one `path` child per document path, in draw order, each carrying that
/// path's commands, no fill, and the path's stroke colour.
#[verifier::loop_isolation(false)]
pub fn document_to_svg(document: &Document) -> (element: svg::node::element::SVG)
    requires
        document_exact(document@),
    ensures
        svg_attributes(element) == document_attributes(
            document.width as int,
            document.height as int,
        ),
        svg_children(element) == document@.paths.map_values(
            |p: PathView| path_element_model(p),
        ),
{
    let mut element = svg_new();
    let view_box = view_box_value(document.width, document.height);
    element = svg_set(element, "viewBox", view_box.as_str());
    let width_label = mm_label(document.width);
    element = svg_set(element, "width", width_label.as_str());
    let height_label = mm_label(document.height);
    element = svg_set(element, "height", height_label.as_str());
    proof {
        assert(svg_attributes(element) =~= document_attributes(
            document.width as int,
            document.height as int,
        ));
    }
    let n = document.paths.len();
    for i in 0..n
        invariant
            svg_attributes(element) == document_attributes(
                document.width as int,
                document.height as int,
            ),
            svg_children(element) =~= document@.paths.take(i as int).map_values(
                |p: PathView| path_element_model(p),
            ),
    {
        proof {
            assert(document@.paths[i as int] == document.paths[i as int]@);
            assert(segments_exact(document@.paths[i as int].commands));
        }
        let path_element = path_to_svg(&document.paths[i]);
        element = svg_add(element, path_element);
        proof {
            assert(path_element_of(path_element) =~~= path_element_model(
                document@.paths[i as int],
            ));
            assert(svg_children(element) =~= document@.paths.take(i as int + 1).map_values(
                |p: PathView| path_element_model(p),
            ));
        }
    }
    proof {
        assert(document@.paths.take(n as int) =~= document@.paths);
        assert(svg_children(element) =~= document@.paths.map_values(
            |p: PathView| path_element_model(p),
        ));
    }
    element
}

} // verus!

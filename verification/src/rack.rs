//! The container data model and the document assembler.

use crate::covers::{covers_views, generate_top_and_bottom_pieces};
use crate::layout::{
    height_of_two_side_wings, spec_column_width, spec_cover_region_x, spec_panel_region_x,
    spec_total_height, spec_total_width, spec_wing_stride, top_width, CLEARANCE_BETWEEN_PATHS,
    CLEARANCE_FOR_CONTAINER_WIDTH, MIN_DEPTH,
};
use crate::panels::{generate_side_panels, panels_upto};
use crate::drawing::{document_in_bounds, paths_view, CutPath, Document, PathView};
use crate::wings::{generate_side_wing_pair, wing_pairs_upto};
use vstd::arithmetic::mul::lemma_mul_inequality;
use vstd::prelude::*;

verus! {

/// Physical size of one container and of its wing geometry, in millimetres.
#[derive(Clone, Copy, PartialEq, Eq, Structural, Debug)]
pub struct Dimensions {
    /// Outer width of the container.
    pub width: usize,
    /// Outer depth of the container; the shared front-to-back axis of all
    /// three panel types.
    pub depth: usize,
    /// Vertical repeat unit per grid row.
    pub height: usize,
    /// Vertical offset of the wing strip from the top of a block.
    pub side_wing_from_box_top: usize,
    /// Thickness of the wing strip in the stacking direction.
    pub side_wing_width: usize,
}

/// One catalog entry: a container model and its dimensions.
#[derive(Clone, PartialEq, Eq, Debug)]
pub struct Container {
    pub vendor: String,
    pub model: String,
    pub description: String,
    pub links: Vec<String>,
    pub dimensions: Dimensions,
}

/// What `str::to_lowercase` returns: a function of the characters alone.
pub uninterp spec fn lower_of(s: Seq<char>) -> Seq<char>;

/// Relies on `str::to_lowercase`: the returned string is the lowercase
/// equivalent of the input, and it depends on the input characters alone.
#[verifier::external_body]
fn lowercase(s: &str) -> (lowered: String)
    ensures
        lowered@ == lower_of(s@),
        s@.len() == 0 ==> lowered@.len() == 0,
{
    s.to_lowercase()
}

/// The string with every occurrence of `from` replaced by `to`.
pub open spec fn spec_replace_char(s: Seq<char>, from: char, to: Seq<char>) -> Seq<char>
    decreases s.len(),
{
    if s.len() == 0 {
        Seq::empty()
    } else if s[0] == from {
        to + spec_replace_char(s.drop_first(), from, to)
    } else {
        seq![s[0]] + spec_replace_char(s.drop_first(), from, to)
    }
}

/// Relies on `str::replace`: with a one-character pattern, every
/// occurrence of that character is replaced by the replacement string.
#[verifier::external_body]
fn replace_char(s: &str, from: char, to: &str) -> (replaced: String)
    ensures
        replaced@ == spec_replace_char(s@, from, to@),
{
    s.replace(from, to)
}

/// The catalog key of a container: vendor and model joined by a dash,
/// lowercased, with spaces turned into underscores.
pub open spec fn spec_key(vendor: Seq<char>, model: Seq<char>) -> Seq<char> {
    spec_replace_char(lower_of(vendor + "-"@ + model), ' ', "_"@)
}

impl Container {
    pub fn key(&self) -> (key: String)
        ensures
            key@ == spec_key(self.vendor@, self.model@),
    {
        let mut joined: String = self.vendor.clone();
        joined.append("-");
        joined.append(self.model.as_str());
        let lowered: String = lowercase(joined.as_str());
        replace_char(lowered.as_str(), ' ', "_")
    }
}

/// The inputs on which a document can be generated: a non-empty grid,
/// positive dimensions, a container deep enough to carry every slot and
/// tap, a wing strip that sits no lower than one block height (plus one
/// clearance) below the box top — lower, and the last row of wing holes
/// would leave the canvas — and a canvas that fits the machine word.
/// The final clause bounds the wing holes' X positions, which stand
/// rightmost on the canvas.
pub open spec fn valid_arguments(rows: int, columns: int, material_thickness: int, dimensions: Dimensions) -> bool {
    &&& rows >= 1
    &&& columns >= 1
    &&& material_thickness >= 1
    &&& dimensions.width >= 1
    &&& dimensions.depth >= MIN_DEPTH
    &&& dimensions.height >= 1
    &&& dimensions.side_wing_from_box_top >= 1
    &&& dimensions.side_wing_width >= 1
    &&& dimensions.side_wing_from_box_top <= dimensions.height + CLEARANCE_BETWEEN_PATHS
    &&& spec_total_width(
        rows,
        columns,
        material_thickness,
        dimensions.width as int,
        dimensions.depth as int,
        dimensions.height as int,
    ) <= usize::MAX
    &&& spec_total_height(
        rows,
        columns,
        material_thickness,
        dimensions.depth as int,
        dimensions.side_wing_width as int,
    ) <= usize::MAX
    &&& spec_panel_region_x(columns, material_thickness, dimensions.width as int, dimensions.depth as int)
        + 2 * material_thickness + dimensions.side_wing_from_box_top + (rows - 1)
        * dimensions.height <= usize::MAX
}

/// Every path of one generated document, in draw order: the wing pairs by
/// box index, then both covers with their tap holes, then the side panels
/// with their wing holes.
pub open spec fn document_paths(rows: int, columns: int, material_thickness: int, dimensions: Dimensions, primary_color: Seq<char>, secondary_color: Seq<char>) -> Seq<PathView> {
    wing_pairs_upto(dimensions, material_thickness, secondary_color, rows * columns)
        + covers_views(
        spec_cover_region_x(dimensions.depth as int),
        dimensions.depth as int,
        columns,
        spec_column_width(dimensions.width as int),
        material_thickness,
        primary_color,
        secondary_color,
    ) + panels_upto(
        spec_panel_region_x(
            columns,
            material_thickness,
            dimensions.width as int,
            dimensions.depth as int,
        ),
        dimensions,
        rows,
        material_thickness,
        primary_color,
        secondary_color,
        columns + 1,
    )
}

/// The full mathematical description of the document generated from the
/// given arguments.
pub open spec fn spec_document(rows: int, columns: int, material_thickness: int, dimensions: Dimensions, primary_color: Seq<char>, secondary_color: Seq<char>) -> crate::drawing::DocumentView {
    crate::drawing::DocumentView {
        width: spec_total_width(
            rows,
            columns,
            material_thickness,
            dimensions.width as int,
            dimensions.depth as int,
            dimensions.height as int,
        ),
        height: spec_total_height(
            rows,
            columns,
            material_thickness,
            dimensions.depth as int,
            dimensions.side_wing_width as int,
        ),
        paths: document_paths(
            rows,
            columns,
            material_thickness,
            dimensions,
            primary_color,
            secondary_color,
        ),
    }
}

#[verifier::loop_isolation(false)]
pub fn generate_document(rows: usize, columns: usize, material_thickness: usize, container: &Container, primary_color: &str, secondary_color: &str) -> (document: Document)
    requires
        valid_arguments(
            rows as int,
            columns as int,
            material_thickness as int,
            container.dimensions,
        ),
    ensures
        document@ == spec_document(
            rows as int,
            columns as int,
            material_thickness as int,
            container.dimensions,
            primary_color@,
            secondary_color@,
        ),
        document_in_bounds(document@),
{
    let dimensions: Dimensions = container.dimensions;
    let ghost r = rows as int;
    let ghost c = columns as int;
    let ghost t = material_thickness as int;
    let ghost dims = dimensions;
    let ghost w = spec_total_width(r, c, t, dims.width as int, dims.depth as int, dims.height as int);
    let ghost h = spec_total_height(r, c, t, dims.depth as int, dims.side_wing_width as int);
    let ghost stride_g = spec_wing_stride(dims.side_wing_width as int, t);

    proof {
        assert(spec_column_width(dims.width as int) * c >= spec_column_width(dims.width as int))
            by (nonlinear_arith)
            requires
                c >= 1,
                spec_column_width(dims.width as int) >= 0,
        ;
        assert(dims.height as int * r >= 0) by (nonlinear_arith)
            requires
                r >= 0,
                dims.height as int >= 0,
        ;
        assert(r * c >= 1 && r * c <= r * c * stride_g && stride_g <= r * c * stride_g && (r * c)
            * stride_g == r * c * stride_g) by (nonlinear_arith)
            requires
                r >= 1,
                c >= 1,
                stride_g >= 1,
        ;
        assert(c + 1 <= (c + 1) * (dims.depth as int + CLEARANCE_BETWEEN_PATHS))
            by (nonlinear_arith)
            requires
                c >= 1,
                dims.depth as int + CLEARANCE_BETWEEN_PATHS >= 1,
        ;
    }

    let column_width: usize = dimensions.width + CLEARANCE_FOR_CONTAINER_WIDTH;
    let amount_of_boxes: usize = rows * columns;
    let height_of_two_side_wings: usize = height_of_two_side_wings(
        dimensions.side_wing_width,
        material_thickness,
    );
    let height_of_two_side_wings_with_clearance: usize = height_of_two_side_wings
        + CLEARANCE_BETWEEN_PATHS;

    let total_width: usize = dimensions.depth + (CLEARANCE_BETWEEN_PATHS * 3) + top_width(
        column_width,
        columns,
        material_thickness,
    ) + dimensions.height * rows + 2 * material_thickness;

    let wing_region_height: usize = amount_of_boxes * height_of_two_side_wings_with_clearance;
    let cover_region_height: usize = 2 * dimensions.depth + CLEARANCE_BETWEEN_PATHS;
    let panel_region_height: usize = (columns + 1) * (dimensions.depth
        + CLEARANCE_BETWEEN_PATHS);
    let mut total_height: usize = wing_region_height;
    if cover_region_height > total_height {
        total_height = cover_region_height;
    }
    if panel_region_height > total_height {
        total_height = panel_region_height;
    }
    assert(total_height == h);

    let mut paths: Vec<CutPath> = Vec::new();

    for i in 0..amount_of_boxes
        invariant
            paths_view(paths@) =~~= wing_pairs_upto(dims, t, secondary_color@, i as int),
    {
        proof {
            lemma_mul_inequality(i as int + 1, amount_of_boxes as int, stride_g);
            assert((i as int + 1) * stride_g == i as int * stride_g + stride_g)
                by (nonlinear_arith);
            assert(i as int * stride_g >= 0) by (nonlinear_arith)
                requires
                    i >= 0,
                    stride_g >= 0,
            ;
        }
        generate_side_wing_pair(
            &mut paths,
            &dimensions,
            0,
            i * height_of_two_side_wings_with_clearance,
            material_thickness,
            secondary_color,
        );
    }

    generate_top_and_bottom_pieces(
        &mut paths,
        &dimensions,
        dimensions.depth + CLEARANCE_BETWEEN_PATHS,
        columns,
        column_width,
        material_thickness,
        primary_color,
        secondary_color,
    );

    generate_side_panels(
        &mut paths,
        dimensions.depth + CLEARANCE_BETWEEN_PATHS + top_width(
            column_width,
            columns,
            material_thickness,
        ) + CLEARANCE_BETWEEN_PATHS,
        &dimensions,
        rows,
        columns,
        material_thickness,
        primary_color,
        secondary_color,
    );

    let document = Document { width: total_width, height: total_height, paths };
    proof {
        assert(document@.paths =~~= document_paths(r, c, t, dims, primary_color@, secondary_color@));
        assert(document@ =~~= spec_document(r, c, t, dims, primary_color@, secondary_color@));
        crate::laws::lemma_document_in_bounds(r, c, t, dims, primary_color@, secondary_color@);
    }
    document
}

/// The whole drawing as an `svg` element tree, ready to be written out:
/// its attributes declare the canvas extent in millimetres and a matching
/// view box, and its children are one `path` element per document path,
/// in draw order, each carrying that path's commands, no fill, and the
/// path's stroke colour.  The canvas may not exceed the largest
/// coordinate the `svg` crate's numbers hold exactly.
pub fn generate_svg(rows: usize, columns: usize, material_thickness: usize, container: &Container, primary_color: &str, secondary_color: &str) -> (svg_document: svg::node::element::SVG)
    requires
        valid_arguments(
            rows as int,
            columns as int,
            material_thickness as int,
            container.dimensions,
        ),
        spec_total_width(
            rows as int,
            columns as int,
            material_thickness as int,
            container.dimensions.width as int,
            container.dimensions.depth as int,
            container.dimensions.height as int,
        ) <= crate::render::MAX_EXACT_COORDINATE,
        spec_total_height(
            rows as int,
            columns as int,
            material_thickness as int,
            container.dimensions.depth as int,
            container.dimensions.side_wing_width as int,
        ) <= crate::render::MAX_EXACT_COORDINATE,
    ensures
        crate::render::svg_attributes(svg_document) == crate::render::document_attributes(
            spec_document(
                rows as int,
                columns as int,
                material_thickness as int,
                container.dimensions,
                primary_color@,
                secondary_color@,
            ).width,
            spec_document(
                rows as int,
                columns as int,
                material_thickness as int,
                container.dimensions,
                primary_color@,
                secondary_color@,
            ).height,
        ),
        crate::render::svg_children(svg_document) == spec_document(
            rows as int,
            columns as int,
            material_thickness as int,
            container.dimensions,
            primary_color@,
            secondary_color@,
        ).paths.map_values(|p: PathView| crate::render::path_element_model(p)),
{
    let document: Document = generate_document(
        rows,
        columns,
        material_thickness,
        container,
        primary_color,
        secondary_color,
    );
    proof {
        crate::render::lemma_in_bounds_document_exact(document@);
    }
    crate::render::document_to_svg(&document)
}

} // verus!

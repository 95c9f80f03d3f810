//! The path and document model.
//!
//! A path is an ordered run of axis-aligned, absolute line-segment commands
//! tagged with a stroke colour; a document is an ordered list of paths plus
//! the canvas extent.  Each executable type has a ghost view over
//! mathematical integers, and the generators' contracts are stated over
//! those views.

use vstd::prelude::*;

verus! {

/// One absolute line-segment command of a path.
#[derive(Clone, Copy, PartialEq, Eq, Structural, Debug)]
pub enum PathCommand {
    /// Lift the pen and move it to `(x, y)`.
    MoveTo { x: usize, y: usize },
    /// Draw a vertical segment from the current point to height `y`.
    VerticalTo { y: usize },
    /// Draw a horizontal segment from the current point to position `x`.
    HorizontalTo { x: usize },
    /// Draw a segment back to the path's starting point.
    Close,
}

/// The mathematical form of one path command.
pub enum Segment {
    Move { x: int, y: int },
    Vertical { y: int },
    Horizontal { x: int },
    Close,
}

impl View for PathCommand {
    type V = Segment;

    open spec fn view(&self) -> Segment {
        match *self {
            PathCommand::MoveTo { x, y } => Segment::Move { x: x as int, y: y as int },
            PathCommand::VerticalTo { y } => Segment::Vertical { y: y as int },
            PathCommand::HorizontalTo { x } => Segment::Horizontal { x: x as int },
            PathCommand::Close => Segment::Close,
        }
    }
}

/// A stroke-only polyline: commands in draw order, tagged with a colour.
#[derive(Clone, PartialEq, Eq, Debug)]
pub struct CutPath {
    pub color: String,
    pub commands: Vec<PathCommand>,
}

/// The mathematical form of a path.
#[verifier::ext_equal]
pub struct PathView {
    pub color: Seq<char>,
    pub commands: Seq<Segment>,
}

impl View for CutPath {
    type V = PathView;

    open spec fn view(&self) -> PathView {
        PathView { color: self.color@, commands: self.commands@.map_values(|c: PathCommand| c@) }
    }
}

/// An ordered list of paths plus the canvas extent, in millimetres.
#[derive(Clone, PartialEq, Eq, Debug)]
pub struct Document {
    pub width: usize,
    pub height: usize,
    pub paths: Vec<CutPath>,
}

/// The mathematical form of a document.
#[verifier::ext_equal]
pub struct DocumentView {
    pub width: int,
    pub height: int,
    pub paths: Seq<PathView>,
}

impl View for Document {
    type V = DocumentView;

    open spec fn view(&self) -> DocumentView {
        DocumentView {
            width: self.width as int,
            height: self.height as int,
            paths: self.paths@.map_values(|p: CutPath| p@),
        }
    }
}

/// The mathematical form of a command list.
pub open spec fn cmds_view(v: Seq<PathCommand>) -> Seq<Segment> {
    v.map_values(|c: PathCommand| c@)
}

/// The mathematical form of a path list.
pub open spec fn paths_view(v: Seq<CutPath>) -> Seq<PathView> {
    v.map_values(|p: CutPath| p@)
}

/// Whether one command keeps both of its coordinates inside the canvas
/// `[0, width] x [0, height]`.
pub open spec fn segment_in_bounds(s: Segment, width: int, height: int) -> bool {
    match s {
        Segment::Move { x, y } => 0 <= x <= width && 0 <= y <= height,
        Segment::Vertical { y } => 0 <= y <= height,
        Segment::Horizontal { x } => 0 <= x <= width,
        Segment::Close => true,
    }
}

/// Whether every coordinate of a path lies inside the canvas.
pub open spec fn path_in_bounds(p: PathView, width: int, height: int) -> bool {
    forall|i: int| 0 <= i < p.commands.len() ==> segment_in_bounds(#[trigger] p.commands[i], width, height)
}

/// Whether every coordinate of every path lies inside the canvas.
pub open spec fn paths_in_bounds(paths: Seq<PathView>, width: int, height: int) -> bool {
    forall|i: int| 0 <= i < paths.len() ==> path_in_bounds(#[trigger] paths[i], width, height)
}

/// Whether a document's own extent contains every coordinate it draws.
pub open spec fn document_in_bounds(d: DocumentView) -> bool {
    paths_in_bounds(d.paths, d.width, d.height)
}

} // verus!

//! The boundary with the external SVG parser (`usvg`).
//!
//! Parsing is the one piece of outside work the library leans on at load
//! time. Its outcome is a pure function of the input bytes, so each part
//! of it is given a name here (`svg_parse_ok`, `svg_nat_size`,
//! `svg_view_box`, `svg_parse_err`), and the one trusted wrapper
//! `parse_svg` ties the call's result to those names. Everything built
//! on top speaks of the names, never of the parser itself.

use vstd::prelude::*;

use crate::fit::ViewBox;

verus! {

#[verifier::external_type_specification]
#[verifier::external_body]
pub struct ExSvgTree(usvg::Tree);

/// Whether the external parser accepts these bytes as an SVG document.
pub uninterp spec fn svg_parse_ok(bytes: Seq<u8>) -> bool;

/// The parser's own message for bytes it rejects.
pub uninterp spec fn svg_parse_err(bytes: Seq<u8>) -> Seq<char>;

/// The parsed document's natural (width, height), in whole pixels.
pub uninterp spec fn svg_nat_size(bytes: Seq<u8>) -> (u32, u32);

/// The parsed document's view box as (origin x, origin y, width, height),
/// in whole source units.
pub uninterp spec fn svg_view_box(bytes: Seq<u8>) -> (i32, i32, u32, u32);

/// A successfully parsed SVG document: the opaque parse tree together
/// with the plain values the library's logic reads from it.
pub struct ParsedSvg {
    pub nat_width: u32,
    pub nat_height: u32,
    pub view_box: ViewBox,
    pub(crate) tree: usvg::Tree,
}

/// The view box tuple read back as the library's own type.
pub open spec fn view_box_of(t: (i32, i32, u32, u32)) -> ViewBox {
    ViewBox { origin_x: t.0, origin_y: t.1, width: t.2, height: t.3 }
}

/// Relies on `usvg::Tree::from_data`: whether parsing succeeds, the
/// parsed document's natural size and view box (read from its root
/// node), and the message on failure all depend on the bytes alone.
#[verifier::external_body]
pub(crate) fn parse_svg(data: &[u8]) -> (r: Result<ParsedSvg, String>)
    ensures
        r is Ok <==> svg_parse_ok(data@),
        r matches Ok(doc) ==> (doc.nat_width, doc.nat_height) == svg_nat_size(data@)
            && doc.view_box == view_box_of(svg_view_box(data@)),
        r matches Err(e) ==> e@ == svg_parse_err(data@),
{
    match usvg::Tree::from_data(data, &usvg::Options::default()) {
        Ok(tree) => {
            let svg = tree.svg_node();
            let (nat_width, nat_height) = (svg.size.width() as u32, svg.size.height() as u32);
            let r = svg.view_box.rect;
            let (origin_x, origin_y) = (r.x() as i32, r.y() as i32);
            let (width, height) = (r.width() as u32, r.height() as u32);
            let view_box = ViewBox { origin_x, origin_y, width, height };
            drop(svg);
            Ok(ParsedSvg { nat_width, nat_height, view_box, tree })
        },
        Err(e) => Err(e.to_string()),
    }
}

} // verus!

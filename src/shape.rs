use vstd::prelude::*;
use vstd::string::*;

verus! {

/// The cursor shapes that have an SVG replacement.
#[derive(Debug, Clone, Copy, PartialEq, Eq, Hash, Structural)]
pub enum CommonCursorType {
    Arrow,
    IBeam,
    Crosshair,
    PointingHand,
    /// Diagonal resize (northwest-southeast).
    ResizeNWSE,
    /// Horizontal resize (east-west).
    ResizeEW,
}

/// A caller's record of the shapes detected for cursors it has seen, by key.
pub type CursorTypeMap = std::collections::HashMap<String, CommonCursorType>;

/// The file name of the SVG document that replaces a shape.
pub open spec fn svg_filename_of(t: CommonCursorType) -> &'static str {
    match t {
        CommonCursorType::Arrow => "arrow.svg",
        CommonCursorType::IBeam => "ibeam.svg",
        CommonCursorType::Crosshair => "crosshair.svg",
        CommonCursorType::PointingHand => "pointing-hand.svg",
        CommonCursorType::ResizeNWSE => "resize-nwse.svg",
        CommonCursorType::ResizeEW => "resize-ew.svg",
    }
}

impl CommonCursorType {
    /// The SVG file name for this cursor type.
    pub fn svg_filename(&self) -> (r: &'static str)
        ensures
            r@ == svg_filename_of(*self)@,
    {
        match self {
            CommonCursorType::Arrow => "arrow.svg",
            CommonCursorType::IBeam => "ibeam.svg",
            CommonCursorType::Crosshair => "crosshair.svg",
            CommonCursorType::PointingHand => "pointing-hand.svg",
            CommonCursorType::ResizeNWSE => "resize-nwse.svg",
            CommonCursorType::ResizeEW => "resize-ew.svg",
        }
    }
}

/// The closing tag that ends every bundled document; each constant below
/// holds a document up to it.
pub const SVG_CLOSE: &'static str = "</svg>\n";

pub const ARROW_SVG: &'static str =
    "<svg xmlns=\"http://www.w3.org/2000/svg\" width=\"32\" height=\"32\" viewBox=\"0 0 32 32\"><path d=\"M8 4v22l5.5-5.5 3.5 8 3-1.4-3.4-7.8H24z\" fill=\"#000\" stroke=\"#fff\" stroke-width=\"1.5\" stroke-linejoin=\"round\"/>";

pub const IBEAM_SVG: &'static str =
    "<svg xmlns=\"http://www.w3.org/2000/svg\" width=\"32\" height=\"32\" viewBox=\"0 0 32 32\"><path d=\"M12 6h8M12 26h8M16 6v20\" fill=\"none\" stroke=\"#fff\" stroke-width=\"4\" stroke-linecap=\"round\"/><path d=\"M12 6h8M12 26h8M16 6v20\" fill=\"none\" stroke=\"#000\" stroke-width=\"2\" stroke-linecap=\"round\"/>";

pub const CROSSHAIR_SVG: &'static str =
    "<svg xmlns=\"http://www.w3.org/2000/svg\" width=\"32\" height=\"32\" viewBox=\"0 0 32 32\"><path d=\"M16 4v24M4 16h24\" fill=\"none\" stroke=\"#fff\" stroke-width=\"4\"/><path d=\"M16 4v24M4 16h24\" fill=\"none\" stroke=\"#000\" stroke-width=\"2\"/>";

pub const POINTING_HAND_SVG: &'static str =
    "<svg xmlns=\"http://www.w3.org/2000/svg\" width=\"32\" height=\"32\" viewBox=\"0 0 32 32\"><path d=\"M12 4.5a2 2 0 0 1 4 0V14l1-.2a2 2 0 0 1 3.8.6l.9-.1a2 2 0 0 1 3.3 1.3V22c0 3.9-2.7 6.5-6.5 6.5h-2.4c-2.3 0-3.9-.9-5.2-2.7L7 20.4a2 2 0 0 1 3-2.6l2 1.8z\" fill=\"#fff\" stroke=\"#000\" stroke-width=\"1.5\" stroke-linejoin=\"round\"/>";

pub const RESIZE_NWSE_SVG: &'static str =
    "<svg xmlns=\"http://www.w3.org/2000/svg\" width=\"32\" height=\"32\" viewBox=\"0 0 32 32\"><path d=\"M6 6h9l-3.2 3.2 10.4 10.4L25.4 16.4V26h-9.4l3.2-3.2L8.8 12.4 6 15.2z\" fill=\"#000\" stroke=\"#fff\" stroke-width=\"1.5\" stroke-linejoin=\"round\"/>";

pub const RESIZE_EW_SVG: &'static str =
    "<svg xmlns=\"http://www.w3.org/2000/svg\" width=\"32\" height=\"32\" viewBox=\"0 0 32 32\"><path d=\"M3 16l6-6v4h14v-4l6 6-6 6v-4H9v4z\" fill=\"#000\" stroke=\"#fff\" stroke-width=\"1.5\" stroke-linejoin=\"round\"/>";

/// The SVG document that replaces a shape, up to its closing tag.
pub open spec fn svg_text_of(t: CommonCursorType) -> &'static str {
    match t {
        CommonCursorType::Arrow => ARROW_SVG,
        CommonCursorType::IBeam => IBEAM_SVG,
        CommonCursorType::Crosshair => CROSSHAIR_SVG,
        CommonCursorType::PointingHand => POINTING_HAND_SVG,
        CommonCursorType::ResizeNWSE => RESIZE_NWSE_SVG,
        CommonCursorType::ResizeEW => RESIZE_EW_SVG,
    }
}

/// The bytes of the SVG document that replaces a shape.
pub open spec fn svg_bytes_of(t: CommonCursorType) -> Seq<u8> {
    svg_text_of(t).spec_bytes() + SVG_CLOSE.spec_bytes()
}

/// Every shape's document is non-empty.
pub proof fn lemma_svg_nonempty(t: CommonCursorType)
    ensures
        svg_bytes_of(t).len() > 0,
{
    reveal_strlit("</svg>\n");
    assert(SVG_CLOSE@.len() > 0);
    assert(SVG_CLOSE.spec_bytes().len() > 0);
}

/// Returns the embedded SVG document of a cursor type. The lookup is total:
/// every shape has its document.
pub fn load_cursor_svg(cursor_type: &CommonCursorType) -> (r: Option<Vec<u8>>)
    ensures
        r is Some,
        r.unwrap()@ == svg_bytes_of(*cursor_type),
        r.unwrap()@.len() > 0,
{
    let text: &'static str = match cursor_type {
        CommonCursorType::Arrow => ARROW_SVG,
        CommonCursorType::IBeam => IBEAM_SVG,
        CommonCursorType::Crosshair => CROSSHAIR_SVG,
        CommonCursorType::PointingHand => POINTING_HAND_SVG,
        CommonCursorType::ResizeNWSE => RESIZE_NWSE_SVG,
        CommonCursorType::ResizeEW => RESIZE_EW_SVG,
    };
    let mut bytes = text.as_bytes_vec();
    let mut close = SVG_CLOSE.as_bytes_vec();
    bytes.append(&mut close);
    proof {
        lemma_svg_nonempty(*cursor_type);
    }
    Some(bytes)
}

} // verus!

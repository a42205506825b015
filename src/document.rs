use vstd::prelude::*;
use vstd::string::StringExecFns;
use crate::color::ColorPreset;
use crate::grid::GridSpec;
use crate::render::Segment;
use crate::text::{dec, push_decimal};

verus! {

/// Height in pixels of the caption strip under a captioned picture.
pub const CAPTION_HEIGHT: u64 = 15;

/// The `<path>` element of one segment, with its stroke colour and a stroke width of 2.
pub open spec fn path_text(s: Segment) -> Seq<char> {
    "<path d=\"M "@ + dec(s.x1 as nat) + " "@ + dec(s.y1 as nat) + " L "@ + dec(s.x2 as nat) + " "@
        + dec(s.y2 as nat) + "\" stroke=\""@ + s.stroke.spec_css() + "\" stroke-width=\"2\" />"@
}

/// The elements of the first `n` segments, in order.
pub open spec fn paths_text(segs: Seq<Segment>, n: nat) -> Seq<char>
    decreases n,
{
    if n == 0 {
        seq![]
    } else {
        paths_text(segs, (n - 1) as nat) + path_text(segs[n - 1])
    }
}

/// The opening root tag: pixel size alone, or a view box tall enough for the caption.
pub open spec fn open_text(g: GridSpec, captioned: bool) -> Seq<char> {
    if captioned {
        "<svg viewBox=\"0 0 "@ + dec(g.width as nat) + " "@ + dec(g.height as nat + CAPTION_HEIGHT as nat)
            + "\" xmlns=\"http://www.w3.org/2000/svg\">"@
    } else {
        "<svg width=\""@ + dec(g.width as nat) + "px\" height=\""@ + dec(g.height as nat)
            + "px\" xmlns=\"http://www.w3.org/2000/svg\">"@
    }
}

/// The caption: right-aligned at the picture's right edge, hanging below its bottom edge.
pub open spec fn caption_text(g: GridSpec, label: Seq<char>) -> Seq<char> {
    "<text x=\""@ + dec(g.width as nat) + "\" y=\""@ + dec(g.height as nat)
        + "\" dominant-baseline=\"hanging\" text-anchor=\"end\" font-family=\"sans-serif\" font-size=\""@
        + dec(CAPTION_HEIGHT as nat) + "\" font-weight=\"lighter\" fill=\"lightgrey\">"@ + label + "</text>"@
}

pub open spec fn close_text() -> Seq<char> {
    "</svg>"@
}

/// The whole document of a picture.
pub open spec fn document_text(g: GridSpec, segs: Seq<Segment>, caption: Option<Seq<char>>) -> Seq<char> {
    match caption {
        Some(label) => open_text(g, true) + paths_text(segs, segs.len()) + caption_text(g, label) + close_text(),
        None => open_text(g, false) + paths_text(segs, segs.len()) + close_text(),
    }
}

pub open spec fn label_view(caption: Option<&str>) -> Option<Seq<char>> {
    match caption {
        Some(c) => Some(c@),
        None => None,
    }
}

/// The caption label: the preset's name, a colon and the build identifier.
pub open spec fn label_text(preset: ColorPreset, build: Seq<char>) -> Seq<char> {
    preset.spec_name() + ":"@ + build
}

pub fn caption_label(preset: &ColorPreset, build: &str) -> (r: String)
    ensures
        r@ == label_text(*preset, build@),
{
    let mut s = preset.name();
    s.append(":");
    s.append(build);
    s
}

fn push_path(out: &mut String, s: &Segment)
    requires
        s.stroke.wf(),
    ensures
        final(out)@ == old(out)@ + path_text(*s),
{
    let ghost before = out@;
    out.append("<path d=\"M ");
    push_decimal(out, s.x1);
    out.append(" ");
    push_decimal(out, s.y1);
    out.append(" L ");
    push_decimal(out, s.x2);
    out.append(" ");
    push_decimal(out, s.y2);
    out.append("\" stroke=\"");
    let css = s.stroke.css();
    out.append(css.as_str());
    out.append("\" stroke-width=\"2\" />");
    assert(out@ =~= before + path_text(*s));
}

/// Writes the document of a picture, with a caption strip when a label is given.
pub fn document(g: &GridSpec, segs: &Vec<Segment>, caption: Option<&str>) -> (r: String)
    requires
        forall|i: int| 0 <= i < segs@.len() ==> (#[trigger] segs@[i]).stroke.wf(),
    ensures
        r@ == document_text(*g, segs@, label_view(caption)),
{
    let mut out = String::new();
    match caption {
        Some(_) => {
            out.append("<svg viewBox=\"0 0 ");
            push_decimal(&mut out, g.width as u64);
            out.append(" ");
            push_decimal(&mut out, g.height as u64 + CAPTION_HEIGHT);
            out.append("\" xmlns=\"http://www.w3.org/2000/svg\">");
        },
        None => {
            out.append("<svg width=\"");
            push_decimal(&mut out, g.width as u64);
            out.append("px\" height=\"");
            push_decimal(&mut out, g.height as u64);
            out.append("px\" xmlns=\"http://www.w3.org/2000/svg\">");
        },
    }
    let ghost head = out@;
    assert(head =~= open_text(*g, caption is Some));
    let mut i: usize = 0;
    while i < segs.len()
        invariant
            i <= segs@.len(),
            forall|j: int| 0 <= j < segs@.len() ==> (#[trigger] segs@[j]).stroke.wf(),
            out@ == head + paths_text(segs@, i as nat),
        decreases segs@.len() - i,
    {
        assert(segs@[i as int].stroke.wf());
        push_path(&mut out, &segs[i]);
        assert(out@ =~= head + paths_text(segs@, (i + 1) as nat));
        i = i + 1;
    }
    let ghost body = out@;
    match caption {
        Some(label) => {
            out.append("<text x=\"");
            push_decimal(&mut out, g.width as u64);
            out.append("\" y=\"");
            push_decimal(&mut out, g.height as u64);
            out.append("\" dominant-baseline=\"hanging\" text-anchor=\"end\" font-family=\"sans-serif\" font-size=\"");
            push_decimal(&mut out, CAPTION_HEIGHT);
            out.append("\" font-weight=\"lighter\" fill=\"lightgrey\">");
            out.append(label);
            out.append("</text>");
            assert(out@ =~= body + caption_text(*g, label@));
        },
        None => {},
    }
    let ghost tail = out@;
    out.append("</svg>");
    assert(out@ =~= tail + close_text());
    assert(out@ =~= document_text(*g, segs@, label_view(caption)));
    out
}

} // verus!

verus! {

/// A document opens with one `<svg` root tag and ends with its closing tag; in
/// between stand the path elements of its segments, in order, then the caption.
pub proof fn document_shape(g: GridSpec, segs: Seq<Segment>, caption: Option<Seq<char>>)
    ensures
        document_text(g, segs, caption).take(5) == "<svg "@,
        document_text(g, segs, caption).skip(document_text(g, segs, caption).len() - 6) == close_text(),
        document_text(g, segs, caption) == open_text(g, caption is Some) + paths_text(segs, segs.len())
            + match caption { Some(label) => caption_text(g, label), None => Seq::<char>::empty() } + close_text(),
{
    reveal_strlit("<svg ");
    reveal_strlit("<svg viewBox=\"0 0 ");
    reveal_strlit("<svg width=\"");
    reveal_strlit("</svg>");
    let d = document_text(g, segs, caption);
    let head = open_text(g, caption is Some);
    let rest = paths_text(segs, segs.len())
        + match caption { Some(label) => caption_text(g, label), None => Seq::<char>::empty() };
    assert(d =~= head + rest + close_text());
    assert(d.take(5) =~= head.take(5));
    assert(d.take(5) =~= "<svg "@);
    assert(d.skip(d.len() - 6) =~= close_text());
}

} // verus!

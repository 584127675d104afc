//! What the drawing commands do to the pixels of the panel.
//!
//! The panel is a function from pixel coordinates to RGB565 values. Filled
//! rectangles and the clearing of the screen are given exactly. Which pixels
//! an outline, a line or a glyph covers is the rasteriser's business, so the
//! laws below hold for every choice of it: `stroke` gives the pixels an
//! outline or a line covers, `glyph` the pixels the glyphs of a text cover, and
//! `cell` the pixels of its character cells. Every command overwrites the
//! pixels it covers with a colour of its own; none blends with what was there.

use vstd::prelude::*;

use crate::display::{color_components, label_chars, Color, DrawCommand, MonoFont, Point, Rect, Rgb565Value, TextStyle, ValueUpdate};

verus! {

/// The pixels of the panel.
pub type Pixels = spec_fn(int, int) -> Rgb565Value;

/// Whether the pixel (`x`, `y`) lies in `r`.
pub open spec fn in_rect(r: Rect, x: int, y: int) -> bool {
    &&& r.top_left.x <= x < r.top_left.x + r.size.width
    &&& r.top_left.y <= y < r.top_left.y + r.size.height
}

/// `p` with the rectangle `r` filled with `c`.
pub open spec fn fill_rect(p: Pixels, r: Rect, c: Color) -> Pixels {
    |x: int, y: int| if in_rect(r, x, y) { color_components(c) } else { p(x, y) }
}

/// `p` with the characters `chars` drawn at `position` in `style`: glyph
/// pixels take the text colour, the rest of the cells the background colour
/// where there is one, and every other pixel keeps its value.
pub open spec fn paint_text(
    p: Pixels,
    chars: Seq<char>,
    position: Point,
    style: TextStyle,
    glyph: spec_fn(Seq<char>, Point, MonoFont, int, int) -> bool,
    cell: spec_fn(Seq<char>, Point, MonoFont, int, int) -> bool,
) -> Pixels {
    |x: int, y: int|
        if glyph(chars, position, style.font, x, y) {
            color_components(style.text_color)
        } else if style.background is Some && cell(chars, position, style.font, x, y) {
            color_components(style.background->0)
        } else {
            p(x, y)
        }
}

/// `p` after the command `cmd`.
pub open spec fn draw(
    p: Pixels,
    cmd: DrawCommand,
    stroke: spec_fn(DrawCommand, int, int) -> bool,
    glyph: spec_fn(Seq<char>, Point, MonoFont, int, int) -> bool,
    cell: spec_fn(Seq<char>, Point, MonoFont, int, int) -> bool,
) -> Pixels {
    match cmd {
        DrawCommand::Clear(c) => |x: int, y: int| color_components(c),
        DrawCommand::StrokeRect { color, .. } =>
            |x: int, y: int| if stroke(cmd, x, y) { color_components(color) } else { p(x, y) },
        DrawCommand::StrokeLine { color, .. } =>
            |x: int, y: int| if stroke(cmd, x, y) { color_components(color) } else { p(x, y) },
        DrawCommand::Text { label, position, style } => paint_text(p, label_chars(label), position, style, glyph, cell),
    }
}

/// `p` after the commands `cmds`, in order.
pub open spec fn draw_all(
    p: Pixels,
    cmds: Seq<DrawCommand>,
    stroke: spec_fn(DrawCommand, int, int) -> bool,
    glyph: spec_fn(Seq<char>, Point, MonoFont, int, int) -> bool,
    cell: spec_fn(Seq<char>, Point, MonoFont, int, int) -> bool,
) -> Pixels
    decreases cmds.len(),
{
    if cmds.len() == 0 {
        p
    } else {
        draw(draw_all(p, cmds.drop_last(), stroke, glyph, cell), cmds.last(), stroke, glyph, cell)
    }
}

/// `p` after the value redraw `u`: the box filled, then the text drawn.
pub open spec fn apply_update(
    p: Pixels,
    u: ValueUpdate,
    glyph: spec_fn(Seq<char>, Point, MonoFont, int, int) -> bool,
    cell: spec_fn(Seq<char>, Point, MonoFont, int, int) -> bool,
) -> Pixels {
    paint_text(fill_rect(p, u.clear, u.fill), u.text@, u.position, u.style, glyph, cell)
}

/// Commands that begin by clearing the screen leave nothing of what was there before.
pub proof fn lemma_draw_after_clear(
    p1: Pixels,
    p2: Pixels,
    cmds: Seq<DrawCommand>,
    stroke: spec_fn(DrawCommand, int, int) -> bool,
    glyph: spec_fn(Seq<char>, Point, MonoFont, int, int) -> bool,
    cell: spec_fn(Seq<char>, Point, MonoFont, int, int) -> bool,
)
    requires
        cmds.len() >= 1,
        cmds[0] is Clear,
    ensures
        draw_all(p1, cmds, stroke, glyph, cell) == draw_all(p2, cmds, stroke, glyph, cell),
    decreases cmds.len(),
{
    if cmds.len() == 1 {
        assert(cmds.drop_last() =~= Seq::<DrawCommand>::empty());
        assert(draw_all(p1, cmds, stroke, glyph, cell) =~= draw_all(p2, cmds, stroke, glyph, cell));
    } else {
        lemma_draw_after_clear(p1, p2, cmds.drop_last(), stroke, glyph, cell);
    }
}

/// Two panels, whatever they showed, show the same pixels after the fixed
/// screen has been drawn on both.
pub proof fn lemma_initial_ui_forgets_prior(
    p1: Pixels,
    p2: Pixels,
    stroke: spec_fn(DrawCommand, int, int) -> bool,
    glyph: spec_fn(Seq<char>, Point, MonoFont, int, int) -> bool,
    cell: spec_fn(Seq<char>, Point, MonoFont, int, int) -> bool,
)
    ensures
        draw_all(p1, crate::display::initial_ui_spec(), stroke, glyph, cell)
            == draw_all(p2, crate::display::initial_ui_spec(), stroke, glyph, cell),
{
    lemma_draw_after_clear(p1, p2, crate::display::initial_ui_spec(), stroke, glyph, cell);
}

/// Drawing the fixed screen twice leaves the same pixels as drawing it once.
pub proof fn lemma_initial_ui_idempotent(
    p: Pixels,
    stroke: spec_fn(DrawCommand, int, int) -> bool,
    glyph: spec_fn(Seq<char>, Point, MonoFont, int, int) -> bool,
    cell: spec_fn(Seq<char>, Point, MonoFont, int, int) -> bool,
)
    ensures
        draw_all(
            draw_all(p, crate::display::initial_ui_spec(), stroke, glyph, cell),
            crate::display::initial_ui_spec(),
            stroke,
            glyph,
            cell,
        ) == draw_all(p, crate::display::initial_ui_spec(), stroke, glyph, cell),
{
    lemma_draw_after_clear(
        draw_all(p, crate::display::initial_ui_spec(), stroke, glyph, cell),
        p,
        crate::display::initial_ui_spec(),
        stroke,
        glyph,
        cell,
    );
}

/// Doing the same value redraw twice leaves the same pixels as doing it once.
pub proof fn lemma_update_idempotent(
    p: Pixels,
    u: ValueUpdate,
    glyph: spec_fn(Seq<char>, Point, MonoFont, int, int) -> bool,
    cell: spec_fn(Seq<char>, Point, MonoFont, int, int) -> bool,
)
    ensures
        apply_update(apply_update(p, u, glyph, cell), u, glyph, cell) == apply_update(p, u, glyph, cell),
{
    assert(apply_update(apply_update(p, u, glyph, cell), u, glyph, cell) =~= apply_update(p, u, glyph, cell));
}

/// A value redraw leaves no trace of what its box showed before: two panels
/// that differ only inside the box show the same pixels afterwards.
pub proof fn lemma_update_erases_box(
    p1: Pixels,
    p2: Pixels,
    u: ValueUpdate,
    glyph: spec_fn(Seq<char>, Point, MonoFont, int, int) -> bool,
    cell: spec_fn(Seq<char>, Point, MonoFont, int, int) -> bool,
)
    requires
        forall|x: int, y: int| !in_rect(u.clear, x, y) ==> p1(x, y) == p2(x, y),
    ensures
        apply_update(p1, u, glyph, cell) == apply_update(p2, u, glyph, cell),
{
    assert(apply_update(p1, u, glyph, cell) =~= apply_update(p2, u, glyph, cell));
}

} // verus!

use vstd::prelude::*;

use crate::buttons::{layout_spec, ButtonKind, ButtonLayout, ButtonRect, MAX_SCALE};
use crate::frame::{AdwaitaFrame, PointerState};
use crate::theme::{adwaita_spec, gray, gray_spec, ButtonColors, ColorSet, Rgba, SEPARATOR_GRAY, BORDER_SIZE, CORNER_RADIUS, HEADER_SIZE};
use crate::Location;

verus! {

/// The largest pixel buffer, in bytes, that a decoration part may have.
pub const MAX_BUFFER_BYTES: u64 = 2147483647;

/// An axis-aligned rectangle in device pixels of a buffer.
#[derive(Clone, Copy, Debug, PartialEq, Eq)]
pub struct PixelRect {
    pub x: i64,
    pub y: i64,
    pub width: i64,
    pub height: i64,
}

/// The symbol drawn on a button.
#[derive(Clone, Copy, Debug, PartialEq, Eq)]
pub enum Glyph {
    /// Two crossed diagonals (close).
    Cross,
    /// A square outline (maximize).
    Square,
    /// Two overlapping square outlines (restore a maximized window).
    DoubleSquare,
    /// A horizontal bar (minimize).
    Bar,
}

/// How one button is painted.
#[derive(Clone, Copy, Debug, PartialEq, Eq)]
pub struct ButtonPaint {
    pub kind: ButtonKind,
    pub rect: ButtonRect,
    pub glyph: Glyph,
    pub icon: Rgba,
    pub fill: Rgba,
}

/// How the title bar is painted: a buffer of `width` x `height` device
/// pixels holding a bar with rounded top corners, a separator line along its
/// bottom edge and the buttons that fit.
#[derive(Clone, Copy, Debug, PartialEq, Eq)]
pub struct HeaderPlan {
    pub width: u32,
    pub height: u32,
    pub scale: u32,
    pub bar: PixelRect,
    pub radius: i64,
    pub fill: Rgba,
    pub separator: PixelRect,
    pub separator_color: Rgba,
    pub close: Option<ButtonPaint>,
    pub maximize: Option<ButtonPaint>,
    pub minimize: Option<ButtonPaint>,
    /// Position of the buffer relative to the window content, in logical pixels.
    pub pos_x: i32,
    pub pos_y: i32,
}

/// The three border parts.
#[derive(Clone, Copy, Debug, PartialEq, Eq)]
pub enum BorderEdge {
    Bottom,
    Left,
    Right,
}

/// How one border is painted: a transparent buffer of `width` x `height`
/// device pixels with a line of `color` along the edge next to the window.
#[derive(Clone, Copy, Debug, PartialEq, Eq)]
pub struct BorderPlan {
    pub edge: BorderEdge,
    pub width: u32,
    pub height: u32,
    pub scale: u32,
    pub line: PixelRect,
    pub color: Rgba,
    /// Position of the buffer relative to the window content, in logical pixels.
    pub pos_x: i32,
    pub pos_y: i32,
}

/// The output scale factor of each decoration part.
#[derive(Clone, Copy, Debug, PartialEq, Eq)]
pub struct RegionScales {
    pub header: u32,
    pub left: u32,
    pub right: u32,
    pub bottom: u32,
}

/// What one redraw shows. When `visible` is false every part is hidden; when
/// `borders_visible` is false the borders are. A part that is shown but has
/// no plan is skipped: its buffer would be empty or too large.
#[derive(Clone, Copy, Debug, PartialEq, Eq)]
pub struct RedrawPlan {
    pub visible: bool,
    pub header: Option<HeaderPlan>,
    pub borders_visible: bool,
    pub bottom: Option<BorderPlan>,
    pub left: Option<BorderPlan>,
    pub right: Option<BorderPlan>,
}

pub open spec fn scales_ok(s: RegionScales) -> bool {
    &&& 1 <= s.header <= MAX_SCALE
    &&& 1 <= s.left <= MAX_SCALE
    &&& 1 <= s.right <= MAX_SCALE
    &&& 1 <= s.bottom <= MAX_SCALE
}

/// A buffer of `w` x `h` pixels, four bytes each, can be made.
pub open spec fn fits_buffer(w: int, h: int) -> bool {
    0 < w && 0 < h && 4 * (w * h) <= MAX_BUFFER_BYTES
}

/// Some pointer is over button `kind`.
pub open spec fn hovered(ps: Seq<PointerState>, kind: ButtonKind) -> bool {
    exists|i: int| 0 <= i < ps.len() && ps[i].location == Location::Button(kind)
}

/// Some pointer is over button `kind` with its left button held down.
pub open spec fn pressed(ps: Seq<PointerState>, kind: ButtonKind) -> bool {
    exists|i: int| 0 <= i < ps.len() && ps[i].location == Location::Button(kind) && ps[i].pressed
}

pub open spec fn palette(set: ColorSet, kind: ButtonKind) -> ButtonColors {
    match kind {
        ButtonKind::Close => set.close,
        ButtonKind::Maximize => set.maximize,
        ButtonKind::Minimize => set.minimize,
    }
}

pub open spec fn glyph_spec(kind: ButtonKind, maximized: bool) -> Glyph {
    match kind {
        ButtonKind::Close => Glyph::Cross,
        ButtonKind::Maximize => if maximized {
            Glyph::DoubleSquare
        } else {
            Glyph::Square
        },
        ButtonKind::Minimize => Glyph::Bar,
    }
}

/// A button that does nothing: maximize, when the window cannot be resized.
pub open spec fn disabled(kind: ButtonKind, resizable: bool) -> bool {
    kind == ButtonKind::Maximize && !resizable
}

pub open spec fn icon_spec(set: ColorSet, kind: ButtonKind, ps: Seq<PointerState>, resizable: bool) -> Rgba {
    if disabled(kind, resizable) {
        set.icon_disabled
    } else if pressed(ps, kind) {
        palette(set, kind).icon_pressed
    } else if hovered(ps, kind) {
        palette(set, kind).icon_hover
    } else {
        palette(set, kind).icon
    }
}

pub open spec fn fill_spec(set: ColorSet, kind: ButtonKind, ps: Seq<PointerState>, resizable: bool) -> Rgba {
    if disabled(kind, resizable) {
        palette(set, kind).fill
    } else if pressed(ps, kind) {
        palette(set, kind).fill_pressed
    } else if hovered(ps, kind) {
        palette(set, kind).fill_hover
    } else {
        palette(set, kind).fill
    }
}

/// A button is painted only when it starts right of the left border.
pub open spec fn paint_spec(f: AdwaitaFrame, l: ButtonLayout, kind: ButtonKind) -> Option<ButtonPaint> {
    let r = l.rect_of(kind);
    let set = f.colors.colors_spec(f.active);
    if r.x > BORDER_SIZE * l.scale {
        Some(
            ButtonPaint {
                kind,
                rect: r,
                glyph: glyph_spec(kind, f.inner.maximized),
                icon: icon_spec(set, kind, f.pointers@, f.inner.resizable),
                fill: fill_spec(set, kind, f.pointers@, f.inner.resizable),
            },
        )
    } else {
        None
    }
}

/// The title bar of `f`, with the buttons laid out by `l`.
pub open spec fn header_spec(f: AdwaitaFrame, l: ButtonLayout) -> Option<HeaderPlan> {
    let s = l.scale as int;
    let w = l.width * s;
    let h = (HEADER_SIZE + BORDER_SIZE) * s;
    let m = BORDER_SIZE * s - 1;
    let set = f.colors.colors_spec(f.active);
    if !fits_buffer(w, h) {
        None
    } else {
        Some(
            HeaderPlan {
                width: w as u32,
                height: h as u32,
                scale: l.scale,
                bar: PixelRect {
                    x: m as i64,
                    y: (BORDER_SIZE * s) as i64,
                    width: (w - 2 * m) as i64,
                    height: (HEADER_SIZE * s) as i64,
                },
                radius: (CORNER_RADIUS * s) as i64,
                fill: set.headerbar,
                separator: PixelRect { x: m as i64, y: (h - 1) as i64, width: (w - 2 * m) as i64, height: 1 },
                separator_color: gray_spec(SEPARATOR_GRAY),
                close: paint_spec(f, l, ButtonKind::Close),
                maximize: paint_spec(f, l, ButtonKind::Maximize),
                minimize: paint_spec(f, l, ButtonKind::Minimize),
                pos_x: -BORDER_SIZE as i32,
                pos_y: -(HEADER_SIZE + BORDER_SIZE) as i32,
            },
        )
    }
}

/// The border along `edge` of a window of content size `(cw, ch)`, at scale `s`.
pub open spec fn border_spec(edge: BorderEdge, cw: int, ch: int, s: int, color: Rgba) -> Option<BorderPlan> {
    let w = match edge {
        BorderEdge::Bottom => (cw + 2 * BORDER_SIZE) * s,
        _ => BORDER_SIZE * s,
    };
    let h = match edge {
        BorderEdge::Bottom => BORDER_SIZE * s,
        _ => ch * s,
    };
    let line = match edge {
        BorderEdge::Bottom => PixelRect {
            x: (BORDER_SIZE * s - 1) as i64,
            y: 0,
            width: (w - 2 * BORDER_SIZE * s + 2) as i64,
            height: 1,
        },
        BorderEdge::Left => PixelRect { x: (w - 1) as i64, y: 0, width: 1, height: h as i64 },
        BorderEdge::Right => PixelRect { x: 0, y: 0, width: 1, height: h as i64 },
    };
    let pos = match edge {
        BorderEdge::Bottom => (-BORDER_SIZE, ch),
        BorderEdge::Left => (-BORDER_SIZE, 0),
        BorderEdge::Right => (cw, 0),
    };
    if !fits_buffer(w, h) {
        None
    } else {
        Some(
            BorderPlan {
                edge,
                width: w as u32,
                height: h as u32,
                scale: s as u32,
                line,
                color,
                pos_x: pos.0 as i32,
                pos_y: pos.1 as i32,
            },
        )
    }
}

/// The layout used by a redraw of `f`: rescaled to the title bar's scale
/// when the decorations are shown.
pub open spec fn redraw_layout(f: AdwaitaFrame, scales: RegionScales) -> ButtonLayout {
    if f.shows_decorations() {
        layout_spec(f.buttons.width, scales.header)
    } else {
        f.buttons
    }
}

/// What a redraw of `f` shows, with the buttons laid out by `l`.
pub open spec fn plan_spec(f: AdwaitaFrame, l: ButtonLayout, scales: RegionScales) -> RedrawPlan {
    let (cw, ch) = (f.inner.size.0 as int, f.inner.size.1 as int);
    let color = f.colors.colors_spec(f.active).border;
    if !f.shows_decorations() {
        RedrawPlan { visible: false, header: None, borders_visible: false, bottom: None, left: None, right: None }
    } else if f.inner.maximized {
        RedrawPlan {
            visible: true,
            header: header_spec(f, l),
            borders_visible: false,
            bottom: None,
            left: None,
            right: None,
        }
    } else {
        RedrawPlan {
            visible: true,
            header: header_spec(f, l),
            borders_visible: true,
            bottom: border_spec(BorderEdge::Bottom, cw, ch, scales.bottom as int, color),
            left: border_spec(BorderEdge::Left, cw, ch, scales.left as int, color),
            right: border_spec(BorderEdge::Right, cw, ch, scales.right as int, color),
        }
    }
}

/// Whether a buffer of `w` x `h` pixels can be made.
fn fits(w: u64, h: u64) -> (b: bool)
    ensures
        b == fits_buffer(w as int, h as int),
{
    if w == 0 || h == 0 || w > MAX_BUFFER_BYTES || h > MAX_BUFFER_BYTES {
        proof {
            if w > MAX_BUFFER_BYTES && h > 0 {
                assert(4 * ((w as int) * (h as int)) >= w as int) by (nonlinear_arith)
                    requires w > 0, h > 0;
            }
            if h > MAX_BUFFER_BYTES && w > 0 {
                assert(4 * ((w as int) * (h as int)) >= h as int) by (nonlinear_arith)
                    requires w > 0, h > 0;
            }
        }
        return false;
    }
    proof {
        assert((w as int) * (h as int) <= 0x7fff_ffff * 0x7fff_ffff) by (nonlinear_arith)
            requires w <= 0x7fff_ffff, h <= 0x7fff_ffff;
    }
    4 * ((w as u128) * (h as u128)) <= MAX_BUFFER_BYTES as u128
}

/// The scale a surface should draw at: the largest scale factor of the
/// outputs that it is shown on, and at least 1 (so 1 when it is on none).
pub open spec fn preferred_scale_spec(scales: Seq<i32>) -> int
    decreases scales.len(),
{
    if scales.len() == 0 {
        1
    } else {
        let rest = preferred_scale_spec(scales.drop_last());
        if scales.last() > rest {
            scales.last() as int
        } else {
            rest
        }
    }
}

/// The scale a surface should draw at, from the scale factors of the
/// outputs that it is shown on.
pub fn preferred_scale(scales: &Vec<i32>) -> (r: u32)
    ensures
        r == preferred_scale_spec(scales@),
        1 <= r <= MAX_SCALE,
{
    let mut best: u32 = 1;
    let mut i: usize = 0;
    while i < scales.len()
        invariant
            i <= scales@.len(),
            best == preferred_scale_spec(scales@.take(i as int)),
            1 <= best <= MAX_SCALE,
        decreases scales@.len() - i,
    {
        assert(scales@.take(i as int + 1).drop_last() =~= scales@.take(i as int));
        let v = scales[i];
        if v > best as i32 {
            best = v as u32;
        }
        i = i + 1;
    }
    assert(scales@.take(scales@.len() as int) =~= scales@);
    best
}

proof fn lemma_scaled_bound(a: int, s: int)
    requires
        0 <= a <= 0x8000_0014,
        1 <= s <= MAX_SCALE,
    ensures
        a <= a * s <= 0x8000_0014 * 0x7fff_ffff,
{
    assert(a <= a * s <= 0x8000_0014 * 0x7fff_ffff) by (nonlinear_arith)
        requires 0 <= a <= 0x8000_0014, 1 <= s <= 0x7fff_ffff;
}

/// Whether some pointer is over button `kind`, and whether one is over it
/// with its left button held down.
fn button_state(ps: &Vec<PointerState>, kind: ButtonKind) -> (r: (bool, bool))
    ensures
        r.0 == hovered(ps@, kind),
        r.1 == pressed(ps@, kind),
{
    let mut over = false;
    let mut down = false;
    let mut i: usize = 0;
    while i < ps.len()
        invariant
            i <= ps@.len(),
            over == exists|j: int| 0 <= j < i && ps@[j].location == Location::Button(kind),
            down == exists|j: int| 0 <= j < i && ps@[j].location == Location::Button(kind) && ps@[j].pressed,
        decreases ps@.len() - i,
    {
        if ps[i].location == Location::Button(kind) {
            over = true;
            if ps[i].pressed {
                down = true;
            }
        }
        i = i + 1;
    }
    (over, down)
}

/// The border along `edge` of a window of content size `(cw, ch)`, at scale `s`.
pub fn border_plan(edge: BorderEdge, cw: u32, ch: u32, s: u32, color: Rgba) -> (r: Option<BorderPlan>)
    requires
        cw <= crate::frame::MAX_EXTENT,
        ch <= crate::frame::MAX_EXTENT,
        1 <= s <= MAX_SCALE,
    ensures
        r == border_spec(edge, cw as int, ch as int, s as int, color),
{
    proof {
        lemma_scaled_bound(cw as int + 20, s as int);
        lemma_scaled_bound(ch as int, s as int);
        lemma_scaled_bound(10, s as int);
    }
    let b = BORDER_SIZE as u64 * s as u64;
    let (w, h): (u64, u64) = match edge {
        BorderEdge::Bottom => ((cw as u64 + 2 * BORDER_SIZE as u64) * s as u64, b),
        _ => (b, ch as u64 * s as u64),
    };
    if !fits(w, h) {
        return None;
    }
    let line = match edge {
        BorderEdge::Bottom => PixelRect { x: b as i64 - 1, y: 0, width: w as i64 - 2 * b as i64 + 2, height: 1 },
        BorderEdge::Left => PixelRect { x: w as i64 - 1, y: 0, width: 1, height: h as i64 },
        BorderEdge::Right => PixelRect { x: 0, y: 0, width: 1, height: h as i64 },
    };
    let (pos_x, pos_y): (i32, i32) = match edge {
        BorderEdge::Bottom => (-(BORDER_SIZE as i32), ch as i32),
        BorderEdge::Left => (-(BORDER_SIZE as i32), 0),
        BorderEdge::Right => (cw as i32, 0),
    };
    Some(BorderPlan { edge, width: w as u32, height: h as u32, scale: s, line, color, pos_x, pos_y })
}

impl AdwaitaFrame {
    fn paint(&self, l: &ButtonLayout, kind: ButtonKind) -> (r: Option<ButtonPaint>)
        requires
            l.wf(),
        ensures
            r == paint_spec(*self, *l, kind),
    {
        let rect = l.rect(kind);
        proof {
            lemma_scaled_bound(10, l.scale as int);
        }
        if rect.x <= BORDER_SIZE as i64 * l.scale as i64 {
            return None;
        }
        let set = self.colors.colors(self.active);
        let pal = match kind {
            ButtonKind::Close => set.close,
            ButtonKind::Maximize => set.maximize,
            ButtonKind::Minimize => set.minimize,
        };
        let glyph = match kind {
            ButtonKind::Close => Glyph::Cross,
            ButtonKind::Maximize => if self.inner.maximized {
                Glyph::DoubleSquare
            } else {
                Glyph::Square
            },
            ButtonKind::Minimize => Glyph::Bar,
        };
        let (over, down) = button_state(&self.pointers, kind);
        let off = kind == ButtonKind::Maximize && !self.inner.resizable;
        let icon = if off {
            set.icon_disabled
        } else if down {
            pal.icon_pressed
        } else if over {
            pal.icon_hover
        } else {
            pal.icon
        };
        let fill = if off {
            pal.fill
        } else if down {
            pal.fill_pressed
        } else if over {
            pal.fill_hover
        } else {
            pal.fill
        };
        Some(ButtonPaint { kind, rect, glyph, icon, fill })
    }

    /// The title bar, with the buttons laid out by the frame's own layout.
    pub fn header_plan(&self) -> (r: Option<HeaderPlan>)
        requires
            self.wf(),
        ensures
            r == header_spec(*self, self.buttons),
    {
        let l = &self.buttons;
        let sc = l.scale;
        proof {
            lemma_scaled_bound(l.width as int, sc as int);
            lemma_scaled_bound(45, sc as int);
            lemma_scaled_bound(10, sc as int);
        }
        let w: u64 = l.width as u64 * sc as u64;
        let h: u64 = (HEADER_SIZE as u64 + BORDER_SIZE as u64) * sc as u64;
        if !fits(w, h) {
            return None;
        }
        let set = self.colors.colors(self.active);
        let b = BORDER_SIZE as i64 * sc as i64;
        let m = b - 1;
        let span = w as i64 - 2 * m;
        Some(HeaderPlan {
            width: w as u32,
            height: h as u32,
            scale: sc,
            bar: PixelRect { x: m, y: b, width: span, height: HEADER_SIZE as i64 * sc as i64 },
            radius: CORNER_RADIUS as i64 * sc as i64,
            fill: set.headerbar,
            separator: PixelRect { x: m, y: h as i64 - 1, width: span, height: 1 },
            separator_color: gray(SEPARATOR_GRAY),
            close: self.paint(l, ButtonKind::Close),
            maximize: self.paint(l, ButtonKind::Maximize),
            minimize: self.paint(l, ButtonKind::Minimize),
            pos_x: -(BORDER_SIZE as i32),
            pos_y: -((HEADER_SIZE + BORDER_SIZE) as i32),
        })
    }

    /// Plans a redraw of the decorations, each part at its own output scale.
    /// The buttons are laid out again at the title bar's scale first. Hidden
    /// or fullscreen windows show nothing; maximized ones show no borders.
    pub fn redraw(&mut self, scales: RegionScales) -> (r: RedrawPlan)
        requires
            old(self).wf(),
            scales_ok(scales),
        ensures
            final(self).wf(),
            final(self).buttons == redraw_layout(*old(self), scales),
            final(self).inner == old(self).inner,
            final(self).hidden == old(self).hidden,
            final(self).active == old(self).active,
            final(self).pointers@ == old(self).pointers@,
            final(self).colors == old(self).colors,
            r == plan_spec(*old(self), final(self).buttons, scales),
    {
        if self.hidden || self.inner.fullscreened {
            return RedrawPlan { visible: false, header: None, borders_visible: false, bottom: None, left: None, right: None };
        }
        self.buttons.update_scale(scales.header);
        let header = self.header_plan();
        if self.inner.maximized {
            return RedrawPlan { visible: true, header, borders_visible: false, bottom: None, left: None, right: None };
        }
        let (cw, ch) = self.inner.size;
        let color = self.colors.colors(self.active).border;
        RedrawPlan {
            visible: true,
            header,
            borders_visible: true,
            bottom: border_plan(BorderEdge::Bottom, cw, ch, scales.bottom, color),
            left: border_plan(BorderEdge::Left, cw, ch, scales.left, color),
            right: border_plan(BorderEdge::Right, cw, ch, scales.right, color),
        }
    }
}

/// `c` is painted in the title bar planned by `h` with a color of the
/// palette: the bar itself or one of its buttons.
pub open spec fn header_palette_uses(h: HeaderPlan, c: Rgba) -> bool {
    ||| c == h.fill
    ||| (h.close matches Some(p) && (c == p.icon || c == p.fill))
    ||| (h.maximize matches Some(p) && (c == p.icon || c == p.fill))
    ||| (h.minimize matches Some(p) && (c == p.icon || c == p.fill))
}

/// The title bar's background and buttons take their colors from the palette
/// of the window's activation state; its separator line is always opaque
/// gray 220.
pub proof fn lemma_header_palette(f: AdwaitaFrame, l: ButtonLayout, c: Rgba)
    requires
        header_spec(f, l) is Some,
    ensures
        header_palette_uses(header_spec(f, l).unwrap(), c) ==> f.colors.colors_spec(f.active).holds(c),
        header_spec(f, l).unwrap().separator_color == gray_spec(SEPARATOR_GRAY),
{
}

/// With the light theme, the palette colors of the title bar of a focused
/// window and those of an unfocused one are disjoint.
pub proof fn lemma_activation_colors_disjoint(f: AdwaitaFrame, l: ButtonLayout, g: AdwaitaFrame, m: ButtonLayout, c: Rgba)
    requires
        f.colors == adwaita_spec(),
        g.colors == adwaita_spec(),
        f.active,
        !g.active,
        header_spec(f, l) is Some,
        header_spec(g, m) is Some,
    ensures
        !(header_palette_uses(header_spec(f, l).unwrap(), c) && header_palette_uses(header_spec(g, m).unwrap(), c)),
{
    lemma_header_palette(f, l, c);
    lemma_header_palette(g, m, c);
    crate::theme::lemma_adwaita_palettes_disjoint();
}

/// A redraw can be repeated: on the state that a redraw leaves, a second one
/// with the same scales changes nothing and plans exactly the same output.
pub proof fn lemma_redraw_repeatable(f: AdwaitaFrame, g: AdwaitaFrame, scales: RegionScales)
    requires
        f.wf(),
        scales_ok(scales),
        g.inner == f.inner,
        g.hidden == f.hidden,
        g.active == f.active,
        g.pointers@ == f.pointers@,
        g.colors == f.colors,
        g.buttons == redraw_layout(f, scales),
    ensures
        redraw_layout(g, scales) == g.buttons,
        plan_spec(g, redraw_layout(g, scales), scales) == plan_spec(f, redraw_layout(f, scales), scales),
{
}

proof fn lemma_buffer_fits(a: int, b: int, max_a: int, max_b: int)
    requires
        1 <= a <= max_a,
        1 <= b <= max_b,
        4 * (max_a * max_b) <= MAX_BUFFER_BYTES,
    ensures
        fits_buffer(a, b),
{
    assert(a * b <= max_a * max_b) by (nonlinear_arith)
        requires 1 <= a <= max_a, 1 <= b <= max_b;
    assert(0 < a * b) by (nonlinear_arith)
        requires 1 <= a, 1 <= b;
}

proof fn lemma_scaled_at_most(a: int, max_a: int, s: int)
    requires
        1 <= a <= max_a,
        1 <= s <= 4,
    ensures
        1 <= a * s <= max_a * 4,
{
    assert(1 <= a * s <= max_a * 4) by (nonlinear_arith)
        requires 1 <= a <= max_a, 1 <= s <= 4;
}

/// A hidden or fullscreen window gets no part drawn, at any scale. A shown
/// window that is not maximized gets all four parts (the title bar and the
/// three borders) for sizes up to 8192 pixels and scales up to 4.
pub proof fn lemma_redraw_parts(f: AdwaitaFrame, scales: RegionScales)
    requires
        f.wf(),
        scales_ok(scales),
    ensures
        !f.shows_decorations() ==> plan_spec(f, redraw_layout(f, scales), scales) == (RedrawPlan {
            visible: false,
            header: None,
            borders_visible: false,
            bottom: None,
            left: None,
            right: None,
        }),
        f.shows_decorations() && !f.inner.maximized && f.inner.size.0 <= 8192 && f.inner.size.1 <= 8192
            && scales.header <= 4 && scales.left <= 4 && scales.right <= 4 && scales.bottom <= 4 ==> ({
            let p = plan_spec(f, redraw_layout(f, scales), scales);
            &&& p.visible && p.borders_visible
            &&& p.header is Some
            &&& p.bottom is Some
            &&& p.left is Some
            &&& p.right is Some
        }),
{
    let (cw, ch) = (f.inner.size.0 as int, f.inner.size.1 as int);
    if f.shows_decorations() && !f.inner.maximized && cw <= 8192 && ch <= 8192 && scales.header <= 4
        && scales.left <= 4 && scales.right <= 4 && scales.bottom <= 4 {
        let (sh, sl, sr, sb) = (scales.header as int, scales.left as int, scales.right as int, scales.bottom as int);
        lemma_scaled_at_most(cw + 20, 8212, sh);
        lemma_scaled_at_most(45, 45, sh);
        lemma_buffer_fits((cw + 20) * sh, 45 * sh, 32848, 180);
        lemma_scaled_at_most(cw + 20, 8212, sb);
        lemma_scaled_at_most(10, 10, sb);
        lemma_buffer_fits((cw + 20) * sb, 10 * sb, 32848, 40);
        lemma_scaled_at_most(10, 10, sl);
        lemma_scaled_at_most(ch, 8192, sl);
        lemma_buffer_fits(10 * sl, ch * sl, 40, 32768);
        lemma_scaled_at_most(10, 10, sr);
        lemma_scaled_at_most(ch, 8192, sr);
        lemma_buffer_fits(10 * sr, ch * sr, 40, 32768);
    }
}

} // verus!

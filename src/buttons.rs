use vstd::prelude::*;

use crate::theme::BORDER_SIZE;
use crate::Location;

verus! {

/// Side of a window button, in logical pixels.
pub const BUTTON_SIZE: u32 = 24;

/// Gap between two neighbouring buttons, in logical pixels.
pub const BUTTON_SPACING: u32 = 13;

/// Distance of the buttons from the inner top and right edges of the
/// title bar, in logical pixels.
pub const BUTTON_MARGIN: u32 = 5;

/// The largest output scale factor (the protocol carries it as an `i32`).
pub const MAX_SCALE: u32 = 2147483647;

/// Pointer coordinates are fixed-point numbers with this many units per
/// logical pixel, as the protocol delivers them.
pub const FIXED_ONE: i64 = 256;

/// The three window buttons.
#[derive(Clone, Copy, Debug, PartialEq, Eq, Structural)]
pub enum ButtonKind {
    Close,
    Maximize,
    Minimize,
}

/// A square button area, in device pixels of the title bar buffer.
#[derive(Clone, Copy, Debug, PartialEq, Eq, Structural)]
pub struct ButtonRect {
    pub x: i64,
    pub y: i64,
    pub size: i64,
}

/// Position of a button counted from the right: close, maximize, minimize.
pub open spec fn slot(kind: ButtonKind) -> int {
    match kind {
        ButtonKind::Close => 0,
        ButtonKind::Maximize => 1,
        ButtonKind::Minimize => 2,
    }
}

/// Left edge of a button in logical pixels, for a decorated width `width`.
pub open spec fn logical_x(kind: ButtonKind, width: int) -> int {
    width - BORDER_SIZE - BUTTON_MARGIN - BUTTON_SIZE - slot(kind) * (BUTTON_SIZE + BUTTON_SPACING)
}

/// The device-pixel rectangle of a button, for a decorated width and a scale.
pub open spec fn rect_spec(kind: ButtonKind, width: int, scale: int) -> ButtonRect {
    ButtonRect {
        x: (logical_x(kind, width) * scale) as i64,
        y: ((BORDER_SIZE + BUTTON_MARGIN) * scale) as i64,
        size: (BUTTON_SIZE * scale) as i64,
    }
}

/// The point `(x, y)`, given in fixed-point logical coordinates, falls in `r`
/// once scaled to device pixels by `scale`.
pub open spec fn rect_contains(r: ButtonRect, scale: int, x: int, y: int) -> bool {
    r.x * FIXED_ONE <= x * scale < (r.x + r.size) * FIXED_ONE
        && r.y * FIXED_ONE <= y * scale < (r.y + r.size) * FIXED_ONE
}

/// The rectangles of the three buttons of a title bar.
#[derive(Clone, Copy, Debug, PartialEq, Eq, Structural)]
pub struct ButtonLayout {
    pub close: ButtonRect,
    pub maximize: ButtonRect,
    pub minimize: ButtonRect,
    /// Decorated width (window width plus both borders), in logical pixels.
    pub width: u32,
    /// Output scale factor of the title bar.
    pub scale: u32,
}

/// The layout for a decorated width and a scale.
pub open spec fn layout_spec(width: u32, scale: u32) -> ButtonLayout {
    ButtonLayout {
        close: rect_spec(ButtonKind::Close, width as int, scale as int),
        maximize: rect_spec(ButtonKind::Maximize, width as int, scale as int),
        minimize: rect_spec(ButtonKind::Minimize, width as int, scale as int),
        width,
        scale,
    }
}

/// What the buttons' rectangles say of a point: the first button (close,
/// maximize, minimize) that holds it, else the title bar itself.
pub open spec fn hit_spec(l: ButtonLayout, x: int, y: int) -> Location {
    if rect_contains(l.close, l.scale as int, x, y) {
        Location::Button(ButtonKind::Close)
    } else if rect_contains(l.maximize, l.scale as int, x, y) {
        Location::Button(ButtonKind::Maximize)
    } else if rect_contains(l.minimize, l.scale as int, x, y) {
        Location::Button(ButtonKind::Minimize)
    } else {
        Location::Head
    }
}

proof fn lemma_rect_bounds(kind: ButtonKind, width: u32, scale: u32)
    requires
        1 <= scale <= MAX_SCALE,
    ensures
        i64::MIN <= logical_x(kind, width as int) * scale <= i64::MAX,
        0 < (BORDER_SIZE + BUTTON_MARGIN) * scale <= i64::MAX,
        0 < BUTTON_SIZE * scale <= i64::MAX,
{
    let w = width as int;
    let s = scale as int;
    let lx = logical_x(kind, w);
    assert(-113 <= lx <= w);
    assert(-113 * s <= lx * s <= w * s) by (nonlinear_arith)
        requires -113 <= lx <= w, 1 <= s;
    assert(w * s <= 4294967295 * 2147483647) by (nonlinear_arith)
        requires 0 <= w <= 4294967295, 1 <= s <= 2147483647;
}

fn scaled_rect(kind: ButtonKind, width: u32, scale: u32) -> (r: ButtonRect)
    requires
        1 <= scale <= MAX_SCALE,
    ensures
        r == rect_spec(kind, width as int, scale as int),
        r.x == logical_x(kind, width as int) * scale,
        r.y == (BORDER_SIZE + BUTTON_MARGIN) * scale,
        r.size == BUTTON_SIZE * scale,
{
    proof {
        lemma_rect_bounds(kind, width, scale);
    }
    let n: i64 = match kind {
        ButtonKind::Close => 0,
        ButtonKind::Maximize => 1,
        ButtonKind::Minimize => 2,
    };
    let lx: i64 = width as i64 - BORDER_SIZE as i64 - BUTTON_MARGIN as i64 - BUTTON_SIZE as i64
        - n * (BUTTON_SIZE as i64 + BUTTON_SPACING as i64);
    ButtonRect {
        x: lx * scale as i64,
        y: (BORDER_SIZE as i64 + BUTTON_MARGIN as i64) * scale as i64,
        size: BUTTON_SIZE as i64 * scale as i64,
    }
}

fn contains(r: &ButtonRect, scale: u32, x: i32, y: i32) -> (b: bool)
    ensures
        b == rect_contains(*r, scale as int, x as int, y as int),
{
    proof {
        let (xi, yi, si) = (x as int, y as int, scale as int);
        assert(-0x8000_0000 * 0xffff_ffff <= xi * si <= 0x8000_0000 * 0xffff_ffff) by (nonlinear_arith)
            requires -0x8000_0000 <= xi < 0x8000_0000, 0 <= si <= 0xffff_ffff;
        assert(-0x8000_0000 * 0xffff_ffff <= yi * si <= 0x8000_0000 * 0xffff_ffff) by (nonlinear_arith)
            requires -0x8000_0000 <= yi < 0x8000_0000, 0 <= si <= 0xffff_ffff;
    }
    let px = x as i128 * scale as i128;
    let py = y as i128 * scale as i128;
    let f = FIXED_ONE as i128;
    r.x as i128 * f <= px && px < (r.x as i128 + r.size as i128) * f && r.y as i128 * f <= py && py
        < (r.y as i128 + r.size as i128) * f
}

impl ButtonLayout {
    pub open spec fn wf(&self) -> bool {
        1 <= self.scale <= MAX_SCALE && *self == layout_spec(self.width, self.scale)
    }

    /// The layout of a zero-width title bar at scale 1.
    pub fn new() -> (l: ButtonLayout)
        ensures
            l.wf(),
            l == layout_spec(0, 1),
    {
        ButtonLayout {
            close: scaled_rect(ButtonKind::Close, 0, 1),
            maximize: scaled_rect(ButtonKind::Maximize, 0, 1),
            minimize: scaled_rect(ButtonKind::Minimize, 0, 1),
            width: 0,
            scale: 1,
        }
    }

    /// Lays the buttons out right-aligned in a title bar of `width` logical
    /// pixels (the window width plus both borders), at the current scale.
    pub fn arrange(&mut self, width: u32)
        requires
            old(self).wf(),
        ensures
            *final(self) == layout_spec(width, old(self).scale),
            final(self).wf(),
    {
        let scale = self.scale;
        self.close = scaled_rect(ButtonKind::Close, width, scale);
        self.maximize = scaled_rect(ButtonKind::Maximize, width, scale);
        self.minimize = scaled_rect(ButtonKind::Minimize, width, scale);
        self.width = width;
    }

    /// Sets the output scale factor and lays the buttons out again for it.
    pub fn update_scale(&mut self, scale: u32)
        requires
            old(self).wf(),
            1 <= scale <= MAX_SCALE,
        ensures
            *final(self) == layout_spec(old(self).width, scale),
            final(self).wf(),
    {
        if self.scale != scale {
            let width = self.width;
            self.close = scaled_rect(ButtonKind::Close, width, scale);
            self.maximize = scaled_rect(ButtonKind::Maximize, width, scale);
            self.minimize = scaled_rect(ButtonKind::Minimize, width, scale);
            self.scale = scale;
        }
    }

    /// The rectangle of one button.
    pub fn rect(&self, kind: ButtonKind) -> (r: ButtonRect)
        ensures
            r == self.rect_of(kind),
    {
        match kind {
            ButtonKind::Close => self.close,
            ButtonKind::Maximize => self.maximize,
            ButtonKind::Minimize => self.minimize,
        }
    }

    pub open spec fn rect_of(&self, kind: ButtonKind) -> ButtonRect {
        match kind {
            ButtonKind::Close => self.close,
            ButtonKind::Maximize => self.maximize,
            ButtonKind::Minimize => self.minimize,
        }
    }

    /// Which button holds the point `(x, y)`, given in fixed-point logical
    /// coordinates of the title bar; `Location::Head` when none does.
    pub fn find_button(&self, x: i32, y: i32) -> (loc: Location)
        ensures
            loc == hit_spec(*self, x as int, y as int),
    {
        if contains(&self.close, self.scale, x, y) {
            Location::Button(ButtonKind::Close)
        } else if contains(&self.maximize, self.scale, x, y) {
            Location::Button(ButtonKind::Maximize)
        } else if contains(&self.minimize, self.scale, x, y) {
            Location::Button(ButtonKind::Minimize)
        } else {
            Location::Head
        }
    }
}

/// Laying out twice for one width gives the same rectangles as laying out
/// once, whatever the layout held before.
pub proof fn lemma_arrange_idempotent(l: ButtonLayout, width: u32)
    requires
        l.wf(),
    ensures
        layout_spec(width, l.scale).wf(),
        layout_spec(width, layout_spec(width, l.scale).scale) == layout_spec(width, l.scale),
{
}

/// At every width and scale the buttons stand left to right as minimize,
/// maximize, close, each ending at least one spacing before the next begins,
/// so that no two of them overlap.
pub proof fn lemma_buttons_ordered(width: u32, scale: u32)
    requires
        1 <= scale <= MAX_SCALE,
    ensures
        ({
            let l = layout_spec(width, scale);
            &&& l.minimize.x + l.minimize.size + BUTTON_SPACING * scale == l.maximize.x
            &&& l.maximize.x + l.maximize.size + BUTTON_SPACING * scale == l.close.x
            &&& l.minimize.y == l.maximize.y && l.maximize.y == l.close.y
            &&& l.minimize.size == l.maximize.size && l.maximize.size == l.close.size
            &&& l.minimize.size > 0
        }),
        forall|x: int, y: int|
            !(#[trigger] rect_contains(layout_spec(width, scale).close, scale as int, x, y)
                && rect_contains(layout_spec(width, scale).maximize, scale as int, x, y)),
        forall|x: int, y: int|
            !(#[trigger] rect_contains(layout_spec(width, scale).maximize, scale as int, x, y)
                && rect_contains(layout_spec(width, scale).minimize, scale as int, x, y)),
        forall|x: int, y: int|
            !(#[trigger] rect_contains(layout_spec(width, scale).close, scale as int, x, y)
                && rect_contains(layout_spec(width, scale).minimize, scale as int, x, y)),
{
    lemma_rect_bounds(ButtonKind::Close, width, scale);
    lemma_rect_bounds(ButtonKind::Maximize, width, scale);
    lemma_rect_bounds(ButtonKind::Minimize, width, scale);
    let w = width as int;
    let s = scale as int;
    assert(logical_x(ButtonKind::Maximize, w) * s + 24 * s + 13 * s == logical_x(ButtonKind::Close, w) * s)
        by (nonlinear_arith);
    assert(logical_x(ButtonKind::Minimize, w) * s + 24 * s + 13 * s == logical_x(ButtonKind::Maximize, w) * s)
        by (nonlinear_arith);
}

} // verus!

use vstd::prelude::*;

use crate::buttons::{layout_spec, lemma_arrange_idempotent, lemma_buttons_ordered, ButtonKind, ButtonLayout, FIXED_ONE};
use crate::locate::{classify, precise_location};
use crate::theme::{adwaita_spec, ColorTheme, BORDER_SIZE, HEADER_SIZE};
use crate::Location;

verus! {

/// The largest window extent: the protocol carries sizes as `i32`.
pub const MAX_EXTENT: u32 = 2147483647;

/// Linux input code of the left mouse button.
pub const BTN_LEFT: u32 = 0x110;

/// Linux input code of the right mouse button.
pub const BTN_RIGHT: u32 = 0x111;

/// Window state shared by the drawing and the pointer handling.
#[derive(Clone, Copy, Debug)]
pub struct Inner {
    /// Size of the window content, in logical pixels.
    pub size: (u32, u32),
    pub resizable: bool,
    pub maximized: bool,
    pub fullscreened: bool,
}

/// The state flags that the compositor reports for the window.
#[derive(Clone, Copy, Debug, PartialEq, Eq, Structural)]
pub struct WindowStates {
    pub activated: bool,
    pub maximized: bool,
    pub fullscreen: bool,
}

/// The decoration surface that a pointer entered.
#[derive(Clone, Copy, Debug, PartialEq, Eq, Structural)]
pub enum DecorationPart {
    Header,
    Left,
    Right,
    Bottom,
}

/// An edge or corner that an interactive resize moves.
#[derive(Clone, Copy, Debug, PartialEq, Eq, Structural)]
pub enum ResizeEdge {
    Top,
    Bottom,
    Left,
    TopLeft,
    BottomLeft,
    Right,
    TopRight,
    BottomRight,
}

/// What the decorations ask of the window.
#[derive(Clone, Copy, Debug, PartialEq, Eq, Structural)]
pub enum FrameAction {
    /// The decorations must be drawn again.
    Refresh,
    /// Start an interactive move.
    Move,
    /// Start an interactive resize by the given edge.
    Resize(ResizeEdge),
    Minimize,
    Maximize,
    UnMaximize,
    Close,
    /// Show the window menu at this position, relative to the window content.
    ShowMenu(i32, i32),
}

/// What the decorations know of one pointer.
#[derive(Clone, Copy, Debug, PartialEq, Eq, Structural)]
pub struct PointerState {
    /// Identity of the pointer, chosen by the caller.
    pub id: u64,
    pub location: Location,
    /// The left button is held down.
    pub pressed: bool,
    /// Last position, fixed-point, relative to the part it is over.
    pub x: i32,
    pub y: i32,
}

/// The client-side decorations of one window.
pub struct AdwaitaFrame {
    pub inner: Inner,
    pub active: bool,
    pub hidden: bool,
    pub pointers: Vec<PointerState>,
    pub buttons: ButtonLayout,
    pub colors: ColorTheme,
}

/// Where a pointer counts as being when it enters a part.
pub open spec fn part_location(part: DecorationPart) -> Location {
    match part {
        DecorationPart::Header => Location::Head,
        DecorationPart::Left => Location::Left,
        DecorationPart::Right => Location::Right,
        DecorationPart::Bottom => Location::Bottom,
    }
}

/// No two entries of `ps` are for the same pointer.
pub open spec fn ids_unique(ps: Seq<PointerState>) -> bool {
    forall|i: int, j: int| 0 <= i < ps.len() && 0 <= j < ps.len() && i != j ==> ps[i].id != ps[j].id
}

/// `ps` has an entry for pointer `id`.
pub open spec fn has_pointer(ps: Seq<PointerState>, id: u64) -> bool {
    exists|i: int| 0 <= i < ps.len() && ps[i].id == id
}

/// Truncation toward zero of a fixed-point coordinate to whole pixels.
pub open spec fn whole_pixels(v: int) -> int {
    if v >= 0 {
        v / (FIXED_ONE as int)
    } else {
        -((-v) / (FIXED_ONE as int))
    }
}

/// The request made by a press of the left button at `loc`.
pub open spec fn left_press_action(loc: Location, resizable: bool, maximized: bool) -> Option<FrameAction> {
    match loc {
        Location::Head => Some(FrameAction::Move),
        Location::Button(ButtonKind::Close) => Some(FrameAction::Close),
        Location::Button(ButtonKind::Minimize) => Some(FrameAction::Minimize),
        Location::Button(ButtonKind::Maximize) => if !resizable {
            None
        } else if maximized {
            Some(FrameAction::UnMaximize)
        } else {
            Some(FrameAction::Maximize)
        },
        Location::Outside => None,
        _ => if !resizable {
            None
        } else {
            Some(FrameAction::Resize(resize_edge(loc)))
        },
    }
}

/// The edge that a border location resizes.
pub open spec fn resize_edge(loc: Location) -> ResizeEdge {
    match loc {
        Location::Top => ResizeEdge::Top,
        Location::TopLeft => ResizeEdge::TopLeft,
        Location::TopRight => ResizeEdge::TopRight,
        Location::Left => ResizeEdge::Left,
        Location::Right => ResizeEdge::Right,
        Location::BottomLeft => ResizeEdge::BottomLeft,
        Location::BottomRight => ResizeEdge::BottomRight,
        _ => ResizeEdge::Bottom,
    }
}

/// The request made by a press of the right button by pointer `p`.
pub open spec fn right_press_action(p: PointerState) -> Option<FrameAction> {
    if p.location == Location::Head {
        Some(
            FrameAction::ShowMenu(
                (whole_pixels(p.x as int) - BORDER_SIZE) as i32,
                (whole_pixels(p.y as int) - BORDER_SIZE - HEADER_SIZE) as i32,
            ),
        )
    } else {
        None
    }
}

/// A move between `a` and `b` changes how a button looks.
pub open spec fn involves_button(a: Location, b: Location) -> bool {
    a != b && (a is Button || b is Button)
}

/// Name of the cursor image for a pointer at `loc`: resize arrows over the
/// borders of a resizable window, the plain arrow elsewhere.
pub open spec fn cursor_spec(loc: Location, resizable: bool) -> Seq<char> {
    if !resizable {
        "left_ptr"@
    } else {
        match loc {
            Location::Top => "top_side"@,
            Location::TopRight => "top_right_corner"@,
            Location::Right => "right_side"@,
            Location::BottomRight => "bottom_right_corner"@,
            Location::Bottom => "bottom_side"@,
            Location::BottomLeft => "bottom_left_corner"@,
            Location::Left => "left_side"@,
            Location::TopLeft => "top_left_corner"@,
            _ => "left_ptr"@,
        }
    }
}

/// The cursor image for a pointer at `loc`; none when the pointer has left
/// the decorations and the cursor belongs to the window's own surface.
pub fn cursor_name(loc: Location, resizable: bool, theme_over_surface: bool) -> (r: Option<&'static str>)
    ensures
        r is None <==> (!theme_over_surface && loc == Location::Outside),
        r matches Some(n) ==> n@ == cursor_spec(loc, resizable),
{
    if !theme_over_surface && loc == Location::Outside {
        return None;
    }
    let name = if !resizable {
        "left_ptr"
    } else {
        match loc {
            Location::Top => "top_side",
            Location::TopRight => "top_right_corner",
            Location::Right => "right_side",
            Location::BottomRight => "bottom_right_corner",
            Location::Bottom => "bottom_side",
            Location::BottomLeft => "bottom_left_corner",
            Location::Left => "left_side",
            Location::TopLeft => "top_left_corner",
            _ => "left_ptr",
        }
    };
    Some(name)
}

fn whole_pixels_exec(v: i32) -> (r: i32)
    ensures
        r == whole_pixels(v as int),
{
    if v >= 0 {
        v / 256
    } else {
        let n: i64 = -(v as i64);
        -((n / 256) as i32)
    }
}

impl AdwaitaFrame {
    pub open spec fn wf(&self) -> bool {
        &&& 1 <= self.inner.size.0 <= MAX_EXTENT
        &&& 1 <= self.inner.size.1 <= MAX_EXTENT
        &&& self.buttons.wf()
        &&& self.buttons.width == self.inner.size.0 + 2 * BORDER_SIZE
        &&& ids_unique(self.pointers@)
    }

    /// The decorated width: the window width plus both borders.
    pub open spec fn decorated_width(&self) -> int {
        self.inner.size.0 + 2 * BORDER_SIZE
    }

    /// Hidden and fullscreen windows show no decorations.
    pub open spec fn shows_decorations(&self) -> bool {
        !self.hidden && !self.inner.fullscreened
    }

    /// Decorations for a window of size (1, 1), hidden, unfocused and
    /// resizable, with no pointer.
    pub fn new() -> (f: AdwaitaFrame)
        ensures
            f.wf(),
            f.inner == (Inner { size: (1, 1), resizable: true, maximized: false, fullscreened: false }),
            !f.active,
            f.hidden,
            f.pointers@ == Seq::<PointerState>::empty(),
            f.buttons == layout_spec(21, 1),
            f.colors == adwaita_spec(),
    {
        let mut buttons = ButtonLayout::new();
        buttons.arrange(1 + 2 * BORDER_SIZE);
        AdwaitaFrame {
            inner: Inner { size: (1, 1), resizable: true, maximized: false, fullscreened: false },
            active: false,
            hidden: true,
            pointers: Vec::new(),
            buttons,
            colors: ColorTheme::adwaita(),
        }
    }

    /// Takes the state flags that the compositor reports; tells whether any
    /// of focus, maximized or fullscreen changed, so that a redraw is needed.
    pub fn set_states(&mut self, states: WindowStates) -> (need_redraw: bool)
        requires
            old(self).wf(),
        ensures
            final(self).wf(),
            final(self).active == states.activated,
            final(self).inner == (Inner {
                maximized: states.maximized,
                fullscreened: states.fullscreen,
                ..old(self).inner
            }),
            final(self).hidden == old(self).hidden,
            final(self).pointers@ == old(self).pointers@,
            final(self).buttons == old(self).buttons,
            final(self).colors == old(self).colors,
            need_redraw == (states.activated != old(self).active || states.maximized
                != old(self).inner.maximized || states.fullscreen != old(self).inner.fullscreened),
    {
        let mut need_redraw = false;
        need_redraw = need_redraw || states.activated != self.active;
        self.active = states.activated;
        need_redraw = need_redraw || states.maximized != self.inner.maximized;
        self.inner.maximized = states.maximized;
        need_redraw = need_redraw || states.fullscreen != self.inner.fullscreened;
        self.inner.fullscreened = states.fullscreen;
        need_redraw
    }

    /// Shows or hides the decorations. Tells whether they were hidden and are
    /// now shown, so that a full redraw is owed.
    pub fn set_hidden(&mut self, hidden: bool) -> (need_redraw: bool)
        requires
            old(self).wf(),
        ensures
            final(self).wf(),
            final(self).hidden == hidden,
            need_redraw == (old(self).hidden && !hidden),
            final(self).inner == old(self).inner,
            final(self).active == old(self).active,
            final(self).pointers@ == old(self).pointers@,
            final(self).buttons == old(self).buttons,
            final(self).colors == old(self).colors,
    {
        let need_redraw = self.hidden && !hidden;
        self.hidden = hidden;
        need_redraw
    }

    /// Sets whether the window can be resized, which enables the maximize
    /// button and the resize borders.
    pub fn set_resizable(&mut self, resizable: bool)
        requires
            old(self).wf(),
        ensures
            final(self).wf(),
            final(self).inner == (Inner { resizable, ..old(self).inner }),
            final(self).hidden == old(self).hidden,
            final(self).active == old(self).active,
            final(self).pointers@ == old(self).pointers@,
            final(self).buttons == old(self).buttons,
            final(self).colors == old(self).colors,
    {
        self.inner.resizable = resizable;
    }

    /// Takes the new size of the window content and lays the buttons out for it.
    pub fn resize(&mut self, newsize: (u32, u32))
        requires
            old(self).wf(),
            1 <= newsize.0 <= MAX_EXTENT,
            1 <= newsize.1 <= MAX_EXTENT,
        ensures
            final(self).wf(),
            final(self).inner == (Inner { size: newsize, ..old(self).inner }),
            final(self).buttons == layout_spec((newsize.0 + 2 * BORDER_SIZE) as u32, old(self).buttons.scale),
            final(self).hidden == old(self).hidden,
            final(self).active == old(self).active,
            final(self).pointers@ == old(self).pointers@,
            final(self).colors == old(self).colors,
    {
        self.inner.size = newsize;
        self.buttons.arrange(newsize.0 + BORDER_SIZE * 2);
    }

    /// The content size for a window size: the title bar is taken off, unless
    /// no decorations are shown.
    pub fn subtract_borders(&self, width: i32, height: i32) -> (r: (i32, i32))
        requires
            self.shows_decorations() ==> height >= i32::MIN + HEADER_SIZE,
        ensures
            r == (if self.shows_decorations() {
                (width, (height - HEADER_SIZE) as i32)
            } else {
                (width, height)
            }),
    {
        if self.hidden || self.inner.fullscreened {
            (width, height)
        } else {
            (width, height - HEADER_SIZE as i32)
        }
    }

    /// The window size for a content size: the title bar is added, unless no
    /// decorations are shown.
    pub fn add_borders(&self, width: i32, height: i32) -> (r: (i32, i32))
        requires
            self.shows_decorations() ==> height <= i32::MAX - HEADER_SIZE,
        ensures
            r == (if self.shows_decorations() {
                (width, (height + HEADER_SIZE) as i32)
            } else {
                (width, height)
            }),
    {
        if self.hidden || self.inner.fullscreened {
            (width, height)
        } else {
            (width, height + HEADER_SIZE as i32)
        }
    }

    /// Offset of the decorations' origin from the content's.
    pub fn location(&self) -> (r: (i32, i32))
        ensures
            r == (if self.shows_decorations() {
                (0i32, -HEADER_SIZE as i32)
            } else {
                (0i32, 0i32)
            }),
    {
        if self.hidden || self.inner.fullscreened {
            (0, 0)
        } else {
            (0, -(HEADER_SIZE as i32))
        }
    }

    /// Index of the entry of pointer `id`, if it is tracked.
    fn find_pointer(&self, id: u64) -> (r: Option<usize>)
        requires
            ids_unique(self.pointers@),
        ensures
            match r {
                Some(i) => i < self.pointers@.len() && self.pointers@[i as int].id == id,
                None => !has_pointer(self.pointers@, id),
            },
    {
        let mut i: usize = 0;
        while i < self.pointers.len()
            invariant
                i <= self.pointers@.len(),
                forall|j: int| 0 <= j < i ==> self.pointers@[j].id != id,
            decreases self.pointers@.len() - i,
        {
            if self.pointers[i].id == id {
                return Some(i);
            }
            i = i + 1;
        }
        None
    }

    /// The tracked state of pointer `id`.
    pub fn pointer(&self, id: u64) -> (r: Option<PointerState>)
        requires
            self.wf(),
        ensures
            match r {
                Some(p) => p.id == id && self.pointers@.contains(p),
                None => !has_pointer(self.pointers@, id),
            },
    {
        match self.find_pointer(id) {
            Some(i) => Some(self.pointers[i]),
            None => None,
        }
    }

    /// Starts tracking pointer `id`, outside the decorations; a pointer
    /// already tracked is kept as it is.
    pub fn new_seat(&mut self, id: u64)
        requires
            old(self).wf(),
        ensures
            final(self).wf(),
            has_pointer(old(self).pointers@, id) ==> final(self).pointers@ == old(self).pointers@,
            !has_pointer(old(self).pointers@, id) ==> final(self).pointers@ == old(self).pointers@.push(
                PointerState { id, location: Location::Outside, pressed: false, x: 0, y: 0 },
            ),
            final(self).inner == old(self).inner,
            final(self).hidden == old(self).hidden,
            final(self).active == old(self).active,
            final(self).buttons == old(self).buttons,
            final(self).colors == old(self).colors,
    {
        if self.find_pointer(id).is_none() {
            self.pointers.push(PointerState { id, location: Location::Outside, pressed: false, x: 0, y: 0 });
        }
    }

    /// Stops tracking pointer `id`.
    pub fn remove_seat(&mut self, id: u64)
        requires
            old(self).wf(),
        ensures
            final(self).wf(),
            !has_pointer(final(self).pointers@, id),
            !has_pointer(old(self).pointers@, id) ==> final(self).pointers@ == old(self).pointers@,
            has_pointer(old(self).pointers@, id) ==> exists|i: int|
                0 <= i < old(self).pointers@.len() && old(self).pointers@[i].id == id
                    && final(self).pointers@ == old(self).pointers@.remove(i),
            final(self).inner == old(self).inner,
            final(self).hidden == old(self).hidden,
            final(self).active == old(self).active,
            final(self).buttons == old(self).buttons,
            final(self).colors == old(self).colors,
    {
        if let Some(i) = self.find_pointer(id) {
            self.pointers.remove(i);
        }
    }

    /// All but the pointer entries are as in `other`.
    pub open spec fn same_but_pointers(&self, other: &AdwaitaFrame) -> bool {
        &&& self.inner == other.inner
        &&& self.hidden == other.hidden
        &&& self.active == other.active
        &&& self.buttons == other.buttons
        &&& self.colors == other.colors
    }

    /// The entry of pointer `id` in `before` became `upd` of itself in
    /// `after`, all others staying; or `id` is not tracked and nothing changed.
    pub open spec fn pointer_updated(
        before: Seq<PointerState>,
        after: Seq<PointerState>,
        id: u64,
        upd: spec_fn(PointerState) -> PointerState,
    ) -> bool {
        if has_pointer(before, id) {
            exists|i: int|
                0 <= i < before.len() && before[i].id == id && after == before.update(i, upd(before[i]))
        } else {
            after == before
        }
    }

    fn set_pointer(&mut self, i: usize, p: PointerState)
        requires
            old(self).wf(),
            i < old(self).pointers@.len(),
            p.id == old(self).pointers@[i as int].id,
        ensures
            final(self).wf(),
            final(self).same_but_pointers(old(self)),
            final(self).pointers@ == old(self).pointers@.update(i as int, p),
    {
        self.pointers.set(i, p);
    }

    /// Pointer `id` entered decoration part `part` at `(x, y)` (fixed-point,
    /// relative to that part). Asks for a redraw when it lands on a button.
    pub fn pointer_enter(&mut self, id: u64, part: DecorationPart, x: i32, y: i32) -> (r: Option<FrameAction>)
        requires
            old(self).wf(),
        ensures
            final(self).wf(),
            final(self).same_but_pointers(old(self)),
            ({
                let upd = |p: PointerState| PointerState {
                    location: classify(old(self).buttons, part_location(part), old(self).decorated_width(), x as int, y as int),
                    pressed: false,
                    x,
                    y,
                    ..p
                };
                Self::pointer_updated(old(self).pointers@, final(self).pointers@, id, upd)
            }),
            !has_pointer(old(self).pointers@, id) ==> r is None,
            forall|i: int| 0 <= i < old(self).pointers@.len() && old(self).pointers@[i].id == id ==>
                r == (if involves_button(old(self).pointers@[i].location, final(self).pointers@[i].location) {
                    Some(FrameAction::Refresh)
                } else {
                    None
                }),
    {
        match self.find_pointer(id) {
            None => None,
            Some(i) => {
                let p = self.pointers[i];
                let base = match part {
                    DecorationPart::Header => Location::Head,
                    DecorationPart::Left => Location::Left,
                    DecorationPart::Right => Location::Right,
                    DecorationPart::Bottom => Location::Bottom,
                };
                let width = self.inner.size.0 + 2 * BORDER_SIZE;
                let loc = precise_location(&self.buttons, base, width, x, y);
                let q = PointerState { location: loc, pressed: false, x, y, ..p };
                self.set_pointer(i, q);
                if loc != p.location && (matches!(loc, Location::Button(_)) || matches!(p.location, Location::Button(_))) {
                    Some(FrameAction::Refresh)
                } else {
                    None
                }
            },
        }
    }

    /// Pointer `id` left the decorations; they are drawn again, since it may
    /// have been over a button.
    pub fn pointer_leave(&mut self, id: u64) -> (r: Option<FrameAction>)
        requires
            old(self).wf(),
        ensures
            final(self).wf(),
            final(self).same_but_pointers(old(self)),
            ({
                let upd = |p: PointerState| PointerState { location: Location::Outside, pressed: false, ..p };
                Self::pointer_updated(old(self).pointers@, final(self).pointers@, id, upd)
            }),
            r == (if has_pointer(old(self).pointers@, id) {
                Some(FrameAction::Refresh)
            } else {
                None
            }),
    {
        match self.find_pointer(id) {
            None => None,
            Some(i) => {
                let p = self.pointers[i];
                self.set_pointer(i, PointerState { location: Location::Outside, pressed: false, ..p });
                Some(FrameAction::Refresh)
            },
        }
    }

    /// Pointer `id` moved to `(x, y)` (fixed-point, relative to the part it is
    /// over). Asks for a redraw when a button's look changes.
    pub fn pointer_motion(&mut self, id: u64, x: i32, y: i32) -> (r: Option<FrameAction>)
        requires
            old(self).wf(),
        ensures
            final(self).wf(),
            final(self).same_but_pointers(old(self)),
            ({
                let upd = |p: PointerState| PointerState {
                    location: classify(old(self).buttons, p.location, old(self).decorated_width(), x as int, y as int),
                    x,
                    y,
                    ..p
                };
                Self::pointer_updated(old(self).pointers@, final(self).pointers@, id, upd)
            }),
            !has_pointer(old(self).pointers@, id) ==> r is None,
            forall|i: int| 0 <= i < old(self).pointers@.len() && old(self).pointers@[i].id == id ==>
                r == (if involves_button(old(self).pointers@[i].location, final(self).pointers@[i].location) {
                    Some(FrameAction::Refresh)
                } else {
                    None
                }),
    {
        match self.find_pointer(id) {
            None => None,
            Some(i) => {
                let p = self.pointers[i];
                let width = self.inner.size.0 + 2 * BORDER_SIZE;
                let loc = precise_location(&self.buttons, p.location, width, x, y);
                self.set_pointer(i, PointerState { location: loc, x, y, ..p });
                if loc != p.location && (matches!(loc, Location::Button(_)) || matches!(p.location, Location::Button(_))) {
                    Some(FrameAction::Refresh)
                } else {
                    None
                }
            },
        }
    }

    /// A mouse button of pointer `id` was pressed or released. The left
    /// button moves, resizes or works a window button; the right one opens
    /// the window menu over the title bar.
    pub fn pointer_button(&mut self, id: u64, button: u32, pressed: bool) -> (r: Option<FrameAction>)
        requires
            old(self).wf(),
        ensures
            final(self).wf(),
            final(self).same_but_pointers(old(self)),
            ({
                let upd = |p: PointerState| if button == BTN_LEFT {
                    PointerState { pressed, ..p }
                } else {
                    p
                };
                Self::pointer_updated(old(self).pointers@, final(self).pointers@, id, upd)
            }),
            !has_pointer(old(self).pointers@, id) ==> r is None,
            forall|i: int| 0 <= i < old(self).pointers@.len() && old(self).pointers@[i].id == id ==>
                r == ({
                    let p = #[trigger] old(self).pointers@[i];
                    if button == BTN_LEFT && pressed {
                        left_press_action(p.location, old(self).inner.resizable, old(self).inner.maximized)
                    } else if button == BTN_LEFT {
                        if p.location is Button {
                            Some(FrameAction::Refresh)
                        } else {
                            None
                        }
                    } else if button == BTN_RIGHT && pressed {
                        right_press_action(p)
                    } else {
                        None
                    }
                }),
    {
        match self.find_pointer(id) {
            None => None,
            Some(i) => {
                let p = self.pointers[i];
                assert(self.pointers@.update(i as int, p) =~= self.pointers@);
                if button == BTN_LEFT {
                    self.set_pointer(i, PointerState { pressed, ..p });
                    if pressed {
                        self.left_press(p.location)
                    } else if matches!(p.location, Location::Button(_)) {
                        Some(FrameAction::Refresh)
                    } else {
                        None
                    }
                } else if button == BTN_RIGHT && pressed {
                    if p.location == Location::Head {
                        let x = whole_pixels_exec(p.x);
                        let y = whole_pixels_exec(p.y);
                        Some(FrameAction::ShowMenu(x - BORDER_SIZE as i32, y - (BORDER_SIZE + HEADER_SIZE) as i32))
                    } else {
                        None
                    }
                } else {
                    None
                }
            },
        }
    }

    fn left_press(&self, loc: Location) -> (r: Option<FrameAction>)
        ensures
            r == left_press_action(loc, self.inner.resizable, self.inner.maximized),
    {
        let resizable = self.inner.resizable;
        match loc {
            Location::Head => Some(FrameAction::Move),
            Location::Button(ButtonKind::Close) => Some(FrameAction::Close),
            Location::Button(ButtonKind::Minimize) => Some(FrameAction::Minimize),
            Location::Button(ButtonKind::Maximize) => if !resizable {
                None
            } else if self.inner.maximized {
                Some(FrameAction::UnMaximize)
            } else {
                Some(FrameAction::Maximize)
            },
            Location::Outside => None,
            Location::Top => if resizable { Some(FrameAction::Resize(ResizeEdge::Top)) } else { None },
            Location::TopLeft => if resizable { Some(FrameAction::Resize(ResizeEdge::TopLeft)) } else { None },
            Location::TopRight => if resizable { Some(FrameAction::Resize(ResizeEdge::TopRight)) } else { None },
            Location::Left => if resizable { Some(FrameAction::Resize(ResizeEdge::Left)) } else { None },
            Location::Right => if resizable { Some(FrameAction::Resize(ResizeEdge::Right)) } else { None },
            Location::Bottom => if resizable { Some(FrameAction::Resize(ResizeEdge::Bottom)) } else { None },
            Location::BottomLeft => if resizable { Some(FrameAction::Resize(ResizeEdge::BottomLeft)) } else { None },
            Location::BottomRight => if resizable { Some(FrameAction::Resize(ResizeEdge::BottomRight)) } else { None },
        }
    }
}

/// The buttons that `resize` lays out depend on the new width and the
/// scale alone: resizing again to the same size keeps every rectangle, two
/// frames at one scale get the same rectangles, and these stand left to
/// right as minimize, maximize, close without overlapping.
pub proof fn lemma_resize_layout(f1: AdwaitaFrame, f2: AdwaitaFrame, newsize: (u32, u32))
    requires
        f1.wf(),
        f2.wf(),
        f1.buttons.scale == f2.buttons.scale,
        1 <= newsize.0 <= MAX_EXTENT,
        1 <= newsize.1 <= MAX_EXTENT,
    ensures
        ({
            let l = layout_spec((newsize.0 + 2 * BORDER_SIZE) as u32, f1.buttons.scale);
            &&& l.wf()
            &&& layout_spec((newsize.0 + 2 * BORDER_SIZE) as u32, l.scale) == l
            &&& layout_spec((newsize.0 + 2 * BORDER_SIZE) as u32, f2.buttons.scale) == l
            &&& l.minimize.x + l.minimize.size < l.maximize.x
            &&& l.maximize.x + l.maximize.size < l.close.x
        }),
{
    let w = (newsize.0 + 2 * BORDER_SIZE) as u32;
    lemma_arrange_idempotent(f1.buttons, w);
    lemma_buttons_ordered(w, f1.buttons.scale);
}

} // verus!

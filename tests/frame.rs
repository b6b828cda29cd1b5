use sctk_adwaita::buttons::{ButtonKind, ButtonLayout, ButtonRect};
use sctk_adwaita::frame::{
    AdwaitaFrame, DecorationPart, FrameAction, ResizeEdge, WindowStates, BTN_LEFT, BTN_RIGHT,
};
use sctk_adwaita::locate::precise_location;
use sctk_adwaita::render::{border_plan, BorderEdge, Glyph, PixelRect, RegionScales};
use sctk_adwaita::theme::{gray, ColorTheme};
use sctk_adwaita::Location;

fn scales(s: u32) -> RegionScales {
    RegionScales { header: s, left: s, right: s, bottom: s }
}

fn fixed(v: i32) -> i32 {
    v * 256
}

fn shown(w: u32, h: u32) -> AdwaitaFrame {
    let mut f = AdwaitaFrame::new();
    f.resize((w, h));
    assert!(f.set_hidden(false));
    f
}

#[test]
fn hidden_then_shown_then_fullscreen() {
    let mut f = AdwaitaFrame::new();
    f.resize((400, 300));
    assert!(f.hidden);
    f.set_hidden(false);
    let plan = f.redraw(scales(1));
    assert!(plan.visible && plan.borders_visible);
    assert!(plan.header.is_some());
    assert!(plan.bottom.is_some() && plan.left.is_some() && plan.right.is_some());
    let changed = f.set_states(WindowStates { activated: false, maximized: false, fullscreen: true });
    assert!(changed);
    let plan = f.redraw(scales(1));
    assert!(!plan.visible);
    assert!(plan.header.is_none() && plan.bottom.is_none() && plan.left.is_none() && plan.right.is_none());
    assert_eq!(f.subtract_borders(400, 340), (400, 340));
}

#[test]
fn narrow_window_omits_buttons() {
    let mut f = shown(400, 300);
    f.resize((60, 300));
    let plan = f.redraw(scales(1));
    let h = plan.header.unwrap();
    assert_eq!((h.width, h.height), (80, 45));
    assert_eq!(h.separator, PixelRect { x: 9, y: 44, width: 62, height: 1 });
    assert_eq!(h.bar, PixelRect { x: 9, y: 10, width: 62, height: 35 });
    let close = h.close.unwrap();
    assert_eq!(close.rect, ButtonRect { x: 41, y: 15, size: 24 });
    assert!(h.maximize.is_none());
    assert!(h.minimize.is_none());
}

#[test]
fn not_resizable_disables_maximize() {
    let mut f = shown(400, 300);
    f.set_resizable(false);
    let plan = f.redraw(scales(1));
    let max = plan.header.unwrap().maximize.unwrap();
    let theme = ColorTheme::adwaita();
    assert_eq!(max.icon, theme.inactive.icon_disabled);
    assert_ne!(max.icon, theme.inactive.maximize.icon);
    assert_eq!(max.fill, theme.inactive.maximize.fill);
}

#[test]
fn arrange_twice_is_arrange_once() {
    let mut a = ButtonLayout::new();
    a.arrange(420);
    let once = a;
    a.arrange(420);
    assert_eq!(a, once);
    let mut b = ButtonLayout::new();
    b.update_scale(3);
    b.arrange(0);
    b.arrange(0);
    let mut c = ButtonLayout::new();
    c.update_scale(3);
    c.arrange(0);
    assert_eq!(b, c);
}

#[test]
fn buttons_in_order_without_overlap() {
    let mut l = ButtonLayout::new();
    l.update_scale(2);
    l.arrange(420);
    assert_eq!(l.close, ButtonRect { x: 762, y: 30, size: 48 });
    assert_eq!(l.maximize, ButtonRect { x: 688, y: 30, size: 48 });
    assert_eq!(l.minimize, ButtonRect { x: 614, y: 30, size: 48 });
    assert!(l.minimize.x + l.minimize.size < l.maximize.x);
    assert!(l.maximize.x + l.maximize.size < l.close.x);
    assert!(l.close.x + l.close.size <= 2 * (420 - 10));
}

#[test]
fn find_button_hits_each_button() {
    let mut l = ButtonLayout::new();
    l.arrange(420);
    assert_eq!(l.find_button(fixed(381) + 128, fixed(20)), Location::Button(ButtonKind::Close));
    assert_eq!(l.find_button(fixed(344), fixed(20)), Location::Button(ButtonKind::Maximize));
    assert_eq!(l.find_button(fixed(307), fixed(38)), Location::Button(ButtonKind::Minimize));
    assert_eq!(l.find_button(fixed(300), fixed(20)), Location::Head);
    assert_eq!(l.find_button(fixed(381), fixed(39)), Location::Head);
}

#[test]
fn top_border_corners_and_edge() {
    let mut l = ButtonLayout::new();
    l.arrange(420);
    assert_eq!(precise_location(&l, Location::Head, 420, fixed(5), fixed(5)), Location::TopLeft);
    assert_eq!(precise_location(&l, Location::Head, 420, fixed(415), fixed(5)), Location::TopRight);
    assert_eq!(precise_location(&l, Location::Head, 420, fixed(200), fixed(5)), Location::Top);
    assert_eq!(precise_location(&l, Location::Top, 420, fixed(200), fixed(30)), Location::Head);
    assert_eq!(precise_location(&l, Location::TopLeft, 420, fixed(10), fixed(10)), Location::TopLeft);
    assert_eq!(precise_location(&l, Location::TopRight, 420, fixed(410), fixed(3)), Location::TopRight);
    assert_eq!(precise_location(&l, Location::Top, 420, fixed(390), fixed(20)), Location::Button(ButtonKind::Close));
}

#[test]
fn bottom_border_by_x_only() {
    let l = ButtonLayout::new();
    for y in [0, 3, 9, 10] {
        assert_eq!(precise_location(&l, Location::Bottom, 420, fixed(4), fixed(y)), Location::BottomLeft);
        assert_eq!(precise_location(&l, Location::BottomLeft, 420, fixed(412), fixed(y)), Location::BottomRight);
        assert_eq!(precise_location(&l, Location::BottomRight, 420, fixed(200), fixed(y)), Location::Bottom);
    }
}

#[test]
fn side_borders_unchanged() {
    let mut l = ButtonLayout::new();
    l.arrange(420);
    for (x, y) in [(0, 0), (5, 5), (390, 20), (-4, 1000)] {
        assert_eq!(precise_location(&l, Location::Left, 420, fixed(x), fixed(y)), Location::Left);
        assert_eq!(precise_location(&l, Location::Right, 420, fixed(x), fixed(y)), Location::Right);
        assert_eq!(precise_location(&l, Location::Outside, 420, fixed(x), fixed(y)), Location::Outside);
    }
}

#[test]
fn activation_selects_disjoint_colors() {
    let mut f = shown(400, 300);
    let inactive = f.redraw(scales(1)).header.unwrap();
    f.set_states(WindowStates { activated: true, maximized: false, fullscreen: false });
    let active = f.redraw(scales(1)).header.unwrap();
    let theme = ColorTheme::adwaita();
    assert_eq!(active.fill, theme.active.headerbar);
    assert_eq!(inactive.fill, theme.inactive.headerbar);
    let colors = |h: &sctk_adwaita::render::HeaderPlan| {
        let mut v = vec![h.fill];
        for p in [h.close, h.maximize, h.minimize].into_iter().flatten() {
            v.push(p.icon);
            v.push(p.fill);
        }
        v
    };
    for c in colors(&active) {
        assert!(!colors(&inactive).contains(&c));
    }
    assert_eq!(active.separator_color, gray(220));
    assert_eq!(inactive.separator_color, gray(220));
}

#[test]
fn redraw_is_repeatable() {
    let mut f = shown(640, 480);
    f.set_states(WindowStates { activated: true, maximized: false, fullscreen: false });
    f.new_seat(7);
    f.pointer_enter(7, DecorationPart::Header, fixed(601), fixed(20));
    let s = RegionScales { header: 2, left: 1, right: 3, bottom: 2 };
    let first = f.redraw(s);
    let second = f.redraw(s);
    assert_eq!(first, second);
}

#[test]
fn header_at_scale_two() {
    let mut f = shown(400, 300);
    let h = f.redraw(scales(2)).header.unwrap();
    assert_eq!((h.width, h.height, h.scale), (840, 90, 2));
    assert_eq!(h.radius, 20);
    assert_eq!(h.bar, PixelRect { x: 19, y: 20, width: 802, height: 70 });
    assert_eq!(h.separator, PixelRect { x: 19, y: 89, width: 802, height: 1 });
    assert_eq!((h.pos_x, h.pos_y), (-10, -45));
    assert_eq!(h.close.unwrap().glyph, Glyph::Cross);
    assert_eq!(h.maximize.unwrap().glyph, Glyph::Square);
    assert_eq!(h.minimize.unwrap().glyph, Glyph::Bar);
}

#[test]
fn borders_exact_geometry() {
    let mut f = shown(400, 300);
    let plan = f.redraw(RegionScales { header: 1, left: 2, right: 1, bottom: 3 });
    let bottom = plan.bottom.unwrap();
    assert_eq!((bottom.width, bottom.height, bottom.pos_x, bottom.pos_y), (1260, 30, -10, 300));
    assert_eq!(bottom.line, PixelRect { x: 29, y: 0, width: 1202, height: 1 });
    let left = plan.left.unwrap();
    assert_eq!((left.width, left.height, left.pos_x, left.pos_y), (20, 600, -10, 0));
    assert_eq!(left.line, PixelRect { x: 19, y: 0, width: 1, height: 600 });
    let right = plan.right.unwrap();
    assert_eq!((right.width, right.height, right.pos_x, right.pos_y), (10, 300, 400, 0));
    assert_eq!(right.line, PixelRect { x: 0, y: 0, width: 1, height: 300 });
    assert_eq!(bottom.color, ColorTheme::adwaita().inactive.border);
}

#[test]
fn oversized_border_is_skipped() {
    assert!(border_plan(BorderEdge::Left, 10, 2147483647, 1, gray(1)).is_none());
    assert!(border_plan(BorderEdge::Right, 10, 1000, 1, gray(1)).is_some());
}

#[test]
fn maximized_hides_borders_only() {
    let mut f = shown(400, 300);
    assert!(f.set_states(WindowStates { activated: false, maximized: true, fullscreen: false }));
    let plan = f.redraw(scales(1));
    assert!(plan.visible && !plan.borders_visible);
    assert!(plan.bottom.is_none() && plan.left.is_none() && plan.right.is_none());
    assert_eq!(plan.header.unwrap().maximize.unwrap().glyph, Glyph::DoubleSquare);
    assert!(!f.set_states(WindowStates { activated: false, maximized: true, fullscreen: false }));
}

#[test]
fn geometry_queries() {
    let mut f = AdwaitaFrame::new();
    assert_eq!(f.add_borders(400, 300), (400, 300));
    assert_eq!(f.location(), (0, 0));
    f.set_hidden(false);
    assert_eq!(f.subtract_borders(400, 340), (400, 305));
    assert_eq!(f.add_borders(400, 300), (400, 335));
    assert_eq!(f.location(), (0, -35));
}

#[test]
fn hover_and_press_colors() {
    let mut f = shown(400, 300);
    let theme = ColorTheme::adwaita();
    f.new_seat(1);
    assert_eq!(f.pointer_enter(1, DecorationPart::Header, fixed(390), fixed(25)), Some(FrameAction::Refresh));
    let h = f.redraw(scales(1)).header.unwrap();
    assert_eq!(h.close.unwrap().fill, theme.inactive.close.fill_hover);
    assert_eq!(h.close.unwrap().icon, theme.inactive.close.icon_hover);
    assert_eq!(f.pointer_button(1, BTN_LEFT, true), Some(FrameAction::Close));
    let h = f.redraw(scales(1)).header.unwrap();
    assert_eq!(h.close.unwrap().fill, theme.inactive.close.fill_pressed);
    assert_eq!(f.pointer_button(1, BTN_LEFT, false), Some(FrameAction::Refresh));
    assert_eq!(f.pointer_leave(1), Some(FrameAction::Refresh));
    let h = f.redraw(scales(1)).header.unwrap();
    assert_eq!(h.close.unwrap().fill, theme.inactive.close.fill);
}

#[test]
fn pointer_requests() {
    let mut f = shown(400, 300);
    f.new_seat(3);
    f.pointer_enter(3, DecorationPart::Header, fixed(200), fixed(30));
    assert_eq!(f.pointer(3).unwrap().location, Location::Head);
    assert_eq!(f.pointer_button(3, BTN_LEFT, true), Some(FrameAction::Move));
    assert_eq!(f.pointer_button(3, BTN_RIGHT, true), Some(FrameAction::ShowMenu(190, -15)));
    assert_eq!(f.pointer_motion(3, fixed(5), fixed(5)), None);
    assert_eq!(f.pointer(3).unwrap().location, Location::TopLeft);
    assert_eq!(f.pointer_button(3, BTN_LEFT, true), Some(FrameAction::Resize(ResizeEdge::TopLeft)));
    assert_eq!(f.pointer_motion(3, fixed(353), fixed(25)), Some(FrameAction::Refresh));
    assert_eq!(f.pointer_button(3, BTN_LEFT, true), Some(FrameAction::Maximize));
    f.set_resizable(false);
    assert_eq!(f.pointer_button(3, BTN_LEFT, true), None);
    f.pointer_enter(3, DecorationPart::Bottom, fixed(415), fixed(5));
    assert_eq!(f.pointer(3).unwrap().location, Location::BottomRight);
    assert_eq!(f.pointer_button(3, BTN_LEFT, true), None);
    f.set_resizable(true);
    assert_eq!(f.pointer_button(3, BTN_LEFT, true), Some(FrameAction::Resize(ResizeEdge::BottomRight)));
    f.pointer_enter(3, DecorationPart::Left, fixed(5), fixed(100));
    assert_eq!(f.pointer_button(3, BTN_LEFT, true), Some(FrameAction::Resize(ResizeEdge::Left)));
}

#[test]
fn untracked_pointer_is_ignored() {
    let mut f = shown(400, 300);
    assert_eq!(f.pointer_enter(9, DecorationPart::Header, fixed(390), fixed(25)), None);
    assert_eq!(f.pointer_button(9, BTN_LEFT, true), None);
    assert_eq!(f.pointer_leave(9), None);
    assert!(f.pointer(9).is_none());
    f.new_seat(9);
    f.new_seat(9);
    assert_eq!(f.pointers.len(), 1);
    f.remove_seat(9);
    assert!(f.pointer(9).is_none());
    assert!(f.pointers.is_empty());
}

#[test]
fn showing_asks_for_redraw_once() {
    let mut f = AdwaitaFrame::new();
    assert!(f.set_hidden(false));
    assert!(!f.set_hidden(false));
    assert!(!f.set_hidden(true));
    assert!(!f.set_hidden(true));
    assert!(f.set_hidden(false));
}

#[test]
fn extreme_heights_pass_through_when_hidden() {
    let f = AdwaitaFrame::new();
    assert_eq!(f.subtract_borders(400, i32::MIN), (400, i32::MIN));
    assert_eq!(f.add_borders(400, i32::MAX), (400, i32::MAX));
}

#[test]
fn resize_twice_keeps_buttons() {
    let mut f = shown(400, 300);
    f.resize((500, 200));
    let first = f.buttons;
    f.resize((500, 200));
    assert_eq!(f.buttons, first);
    let mut g = shown(10, 10);
    g.resize((500, 200));
    assert_eq!(g.buttons, first);
    assert!(first.minimize.x + first.minimize.size < first.maximize.x);
    assert!(first.maximize.x + first.maximize.size < first.close.x);
}

#[test]
fn shown_window_gets_all_parts_at_scale_four() {
    let mut f = shown(8192, 8192);
    let plan = f.redraw(scales(4));
    assert!(plan.visible && plan.borders_visible);
    assert!(plan.header.is_some() && plan.bottom.is_some() && plan.left.is_some() && plan.right.is_some());
}

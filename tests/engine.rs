use paintkit::color::{into_core_color, into_ffi_color, Color, FfiColor};
use paintkit::geometry::{Point, Rect};
use paintkit::session::{over_any, FrameInput, Session};
use paintkit::shape::{vertex_hit, Ent, Pixel, Shape, BRUSH_RADIUS};
use paintkit::toolbar::{toolbar_input, Button, ToolbarState};
use paintkit::tools::{
    draw_line_after_inputs, draw_polygon_after_inputs, draw_with_brush, erase, LineState,
    PolygonState,
};
use paintkit::world::{HitAt, World};

fn pt(x: i32, y: i32) -> Point {
    Point::new(x, y)
}

fn red() -> Color {
    Color::new(255, 0, 0, 255)
}

fn stamp(x: i32, y: i32) -> Shape {
    Shape::Stamp(Pixel::new(pt(x, y), BRUSH_RADIUS, red()))
}

fn toolbar() -> Vec<Button> {
    vec![
        Button::new(Rect::new(-99000, 2000, 8000, 8000), "Brush".to_string()),
        Button::new(Rect::new(-99000, 10000, 8000, 8000), "Line".to_string()),
        Button::new(Rect::new(-99000, 18000, 8000, 8000), "Poly".to_string()),
        Button::new(Rect::new(-99000, 26000, 8000, 8000), "Erase".to_string()),
    ]
}

fn click(x: i32, y: i32) -> FrameInput {
    FrameInput { pointer: pt(x, y), pressed: true, held: true, close: false }
}

fn idle(x: i32, y: i32) -> FrameInput {
    FrameInput { pointer: pt(x, y), pressed: false, held: false, close: false }
}

#[test]
fn collision_below_half_unit() {
    assert!(pt(0, 0).is_colliding(pt(30, 39)));
    assert!(pt(0, 0).is_colliding(pt(0, 0)));
    assert!(pt(100, 100).is_colliding(pt(149, 100)));
}

#[test]
fn collision_at_half_unit_is_a_miss() {
    assert!(!pt(0, 0).is_colliding(pt(50, 0)));
    assert!(!pt(0, 0).is_colliding(pt(30, 40)));
    assert!(!pt(0, 0).is_colliding(pt(30, 41)));
    assert!(!pt(0, 0).is_colliding(pt(1000, 1000)));
}

#[test]
fn collision_is_symmetric() {
    let pairs = [(pt(0, 0), pt(30, 40)), (pt(-7, 3), pt(40, 30)), (pt(5, 5), pt(60, 5))];
    for (p, q) in pairs {
        assert_eq!(p.is_colliding(q), q.is_colliding(p));
    }
}

#[test]
fn collision_far_apart_extreme_coordinates() {
    assert!(!pt(i32::MIN, i32::MIN).is_colliding(pt(i32::MAX, i32::MAX)));
    assert!(pt(i32::MAX, i32::MIN).is_colliding(pt(i32::MAX, i32::MIN)));
}

#[test]
fn shape_hit_tests() {
    let s = stamp(500, 500);
    assert!(s.is_colliding(pt(520, 500)));
    assert!(!s.is_colliding(pt(800, 500)));
    let seg = Shape::Segment(pt(0, 0), pt(5000, 0), red());
    assert!(seg.is_colliding(pt(5010, 0)));
    assert!(!seg.is_colliding(pt(2500, 0)));
    let poly = Shape::Polygon(vec![pt(0, 0), pt(1000, 0), pt(0, 1000)], red());
    assert!(poly.is_colliding(pt(1000, 10)));
    assert!(!poly.is_colliding(pt(500, 500)));
    assert!(vertex_hit(&vec![pt(9, 9)], &pt(10, 10)));
    assert!(!vertex_hit(&vec![], &pt(10, 10)));
}

#[test]
fn rect_contains_half_open() {
    let r = Rect::new(0, 0, 100, 50);
    assert!(r.contains(&pt(0, 0)));
    assert!(r.contains(&pt(99, 49)));
    assert!(!r.contains(&pt(100, 10)));
    assert!(!r.contains(&pt(10, 50)));
    assert!(over_any(&[Rect::new(500, 500, 10, 10), r], &pt(5, 5)));
    assert!(!over_any(&[], &pt(5, 5)));
}

#[test]
fn append_then_iterate_in_order() {
    let e1 = stamp(0, 0);
    let e2 = Shape::Segment(pt(1, 1), pt(2, 2), red());
    let e3 = stamp(9000, 9000);
    let mut w = World::new();
    w.append(e1.clone());
    w.append(e2.clone());
    w.append(e3.clone());
    assert_eq!(w.len(), 3);
    assert_eq!(w.iterate(), &[e1.clone(), e2.clone(), e3.clone()][..]);
    // Iterating again gives the same sequence.
    assert_eq!(w.iterate(), &[e1, e2, e3][..]);
}

#[test]
fn remove_where_keeps_order_of_survivors() {
    let e1 = stamp(0, 0);
    let e2 = stamp(5000, 5000);
    let e3 = stamp(10000, 10000);
    let mut w = World::new();
    w.append(e1.clone());
    w.append(e2.clone());
    w.append(e3.clone());
    w.remove_where(&HitAt { point: pt(5000, 5000) });
    assert_eq!(w.iterate(), &[e1, e3][..]);
}

#[test]
fn remove_where_on_empty_world() {
    let mut w = World::new();
    w.remove_where(&HitAt { point: pt(0, 0) });
    assert_eq!(w.len(), 0);
}

#[test]
fn brush_held_frames_append_one_stamp_each() {
    let mut w = World::new();
    let colors = [Color::new(1, 2, 3, 255), Color::new(4, 5, 6, 255), Color::new(7, 8, 9, 255)];
    for c in colors.iter() {
        draw_with_brush(&mut w, true, pt(4000, 3000), c);
    }
    let tiles = w.iterate();
    assert_eq!(tiles.len(), 3);
    for (k, s) in tiles.iter().enumerate() {
        match s {
            Shape::Stamp(p) => {
                assert_eq!(p.radius(), 1000);
                assert_eq!(p.center(), pt(4000, 3000));
                assert_eq!(p.color(), colors[k]);
            }
            _ => panic!("brush placed a non-stamp"),
        }
    }
}

#[test]
fn brush_not_held_places_nothing() {
    let mut w = World::new();
    draw_with_brush(&mut w, false, pt(4000, 3000), &red());
    assert_eq!(w.len(), 0);
}

#[test]
fn brush_session_skips_reserved_region() {
    let mut s = Session::new(ToolbarState::Brush, red());
    let reserved = [Rect::new(-100000, 0, 100000, 60000)];
    s.frame(&click(-50000, 100), &toolbar(), &reserved);
    assert_eq!(s.world.len(), 0);
    s.frame(&click(30000, 100), &toolbar(), &reserved);
    assert_eq!(s.world.len(), 1);
}

#[test]
fn line_two_clicks_commit_one_segment() {
    let mut s = Session::new(ToolbarState::Line, red());
    let buttons = toolbar();
    s.frame(&click(1000, 1000), &buttons, &[]);
    assert_eq!(s.line, LineState::Secondpos(pt(1000, 1000)));
    assert_eq!(s.world.len(), 0);
    s.frame(&idle(3000, 3000), &buttons, &[]);
    s.frame(&click(5000, 5000), &buttons, &[]);
    assert_eq!(s.line, LineState::Firstpos);
    assert_eq!(s.world.iterate(), &[Shape::Segment(pt(1000, 1000), pt(5000, 5000), red())][..]);
}

#[test]
fn line_cancelled_by_switching_to_erase() {
    let mut s = Session::new(ToolbarState::Line, red());
    let buttons = toolbar();
    let reserved = [Rect::new(-100000, 0, 10000, 60000)];
    s.frame(&click(20000, 20000), &buttons, &reserved);
    assert_eq!(s.line, LineState::Secondpos(pt(20000, 20000)));
    // Click on the eraser button (index three).
    s.frame(&click(-98000, 27000), &buttons, &reserved);
    assert_eq!(s.tool, ToolbarState::Erase);
    assert_eq!(s.line, LineState::Firstpos);
    s.frame(&click(50000, 50000), &buttons, &reserved);
    assert_eq!(s.world.len(), 0);
}

#[test]
fn line_tool_direct_calls() {
    let mut w = World::new();
    let mut ls = LineState::Firstpos;
    draw_line_after_inputs(&mut w, &mut ls, true, pt(10, 10), &red());
    assert_eq!(ls, LineState::Secondpos(pt(10, 10)));
    draw_line_after_inputs(&mut w, &mut ls, false, pt(30, 30), &red());
    assert_eq!(ls, LineState::Secondpos(pt(10, 10)));
    draw_line_after_inputs(&mut w, &mut ls, true, pt(50, 50), &red());
    assert_eq!(ls, LineState::Firstpos);
    assert_eq!(w.iterate(), &[Shape::Segment(pt(10, 10), pt(50, 50), red())][..]);
}

#[test]
fn polygon_commits_on_close() {
    let mut w = World::new();
    let mut poly = PolygonState::new();
    draw_polygon_after_inputs(&mut w, &mut poly, true, false, pt(0, 0), &red());
    draw_polygon_after_inputs(&mut w, &mut poly, true, false, pt(1000, 0), &red());
    assert_eq!(poly.vertices(), &[pt(0, 0), pt(1000, 0)][..]);
    draw_polygon_after_inputs(&mut w, &mut poly, true, true, pt(0, 1000), &red());
    assert_eq!(poly.vertices().len(), 0);
    assert_eq!(
        w.iterate(),
        &[Shape::Polygon(vec![pt(0, 0), pt(1000, 0), pt(0, 1000)], red())][..]
    );
}

#[test]
fn polygon_close_with_too_few_vertices_commits_nothing() {
    let mut w = World::new();
    let mut poly = PolygonState::new();
    draw_polygon_after_inputs(&mut w, &mut poly, true, false, pt(0, 0), &red());
    draw_polygon_after_inputs(&mut w, &mut poly, false, true, pt(0, 0), &red());
    assert_eq!(poly.vertices().len(), 0);
    assert_eq!(w.len(), 0);
}

#[test]
fn polygon_discarded_on_tool_switch() {
    let mut s = Session::new(ToolbarState::Poly, red());
    let buttons = toolbar();
    let reserved = [Rect::new(-100000, 0, 10000, 60000)];
    s.frame(&click(20000, 20000), &buttons, &reserved);
    s.frame(&click(30000, 20000), &buttons, &reserved);
    assert_eq!(s.polygon.vertices().len(), 2);
    s.frame(&click(-98000, 3000), &buttons, &reserved);
    assert_eq!(s.tool, ToolbarState::Brush);
    assert_eq!(s.polygon.vertices().len(), 0);
    assert_eq!(s.world.len(), 0);
}

#[test]
fn erase_removes_every_hit_shape() {
    let mut w = World::new();
    w.append(stamp(100, 100));
    w.append(stamp(5000, 5000));
    w.append(stamp(110, 100));
    w.append(Shape::Segment(pt(100, 90), pt(9000, 9000), red()));
    erase(&mut w, true, pt(100, 100));
    assert_eq!(w.iterate(), &[stamp(5000, 5000)][..]);
}

#[test]
fn erase_without_click_keeps_everything() {
    let mut w = World::new();
    w.append(stamp(100, 100));
    erase(&mut w, false, pt(100, 100));
    assert_eq!(w.len(), 1);
}

#[test]
fn color_round_trip() {
    for r in [0u8, 128, 255] {
        for g in [0u8, 128, 255] {
            for b in [0u8, 128, 255] {
                for a in [0u8, 128, 255] {
                    let c = Color::new(r, g, b, a);
                    assert_eq!(into_core_color(into_ffi_color(c)), c);
                    let f = FfiColor { r, g, b, a };
                    assert_eq!(into_ffi_color(into_core_color(f)), f);
                }
            }
        }
    }
}

#[test]
fn color_conversion_keeps_channels() {
    let f = into_ffi_color(Color::new(12, 34, 56, 78));
    assert_eq!((f.r, f.g, f.b, f.a), (12, 34, 56, 78));
}

#[test]
fn erase_button_selects_erase_from_any_state() {
    let buttons = toolbar();
    for prior in [ToolbarState::Brush, ToolbarState::Line, ToolbarState::Poly, ToolbarState::Erase] {
        let mut st = prior;
        toolbar_input(&mut st, &buttons, true, pt(-98000, 27000));
        assert_eq!(st, ToolbarState::Erase);
    }
}

#[test]
fn toolbar_ignores_hover_and_misses() {
    let buttons = toolbar();
    let mut st = ToolbarState::Line;
    toolbar_input(&mut st, &buttons, false, pt(-98000, 27000));
    assert_eq!(st, ToolbarState::Line);
    toolbar_input(&mut st, &buttons, true, pt(50000, 50000));
    assert_eq!(st, ToolbarState::Line);
}

#[test]
fn toolbar_out_of_range_index_is_noop_and_last_wins() {
    let r = Rect::new(0, 0, 100, 100);
    let elsewhere = Rect::new(500, 500, 100, 100);
    let mut buttons = Vec::new();
    for _ in 0..6 {
        buttons.push(Button::new(r, "b".to_string()));
    }
    let mut st = ToolbarState::Brush;
    toolbar_input(&mut st, &buttons, true, pt(10, 10));
    assert_eq!(st, ToolbarState::Erase);
    let mut only_extra = Vec::new();
    for i in 0..6 {
        only_extra.push(Button::new(if i < 4 { elsewhere } else { r }, "b".to_string()));
    }
    let mut st2 = ToolbarState::Poly;
    toolbar_input(&mut st2, &only_extra, true, pt(10, 10));
    assert_eq!(st2, ToolbarState::Poly);
    let mut st3 = ToolbarState::Brush;
    let two = [Button::new(r, "a".to_string()), Button::new(r, "b".to_string())];
    toolbar_input(&mut st3, &two, true, pt(10, 10));
    assert_eq!(st3, ToolbarState::Line);
}

#[test]
fn session_set_color_used_by_brush() {
    let mut s = Session::new(ToolbarState::Brush, red());
    s.set_color(Color::new(0, 0, 255, 255));
    s.frame(&click(30000, 100), &toolbar(), &[]);
    assert_eq!(s.world.iterate(), &[Shape::Stamp(Pixel::new(pt(30000, 100), 1000, Color::new(0, 0, 255, 255)))][..]);
}

use microui_core::command::Command;
use microui_core::container::Container;
use microui_core::geometry::{contains_point, intersect, rect, shrink, unclipped_rect, Vec2i};
use microui_core::ids::IdManager;
use microui_core::input::{Input, MouseButtons};
use microui_core::layout::LayoutStack;
use microui_core::options::WidgetOption;
use microui_core::style::{ControlColor, Style};

fn default_input() -> Input {
    Input::new()
}

#[test]
fn intersect_overlapping() {
    let a = rect(0, 0, 10, 10);
    let b = rect(5, 5, 10, 10);
    let i = intersect(&a, &b);
    assert_eq!(i, rect(5, 5, 5, 5));
}

#[test]
fn intersect_disjoint_is_empty() {
    let a = rect(0, 0, 10, 10);
    let b = rect(100, 100, 10, 10);
    let i = intersect(&a, &b);
    assert_eq!(i.width, 0);
    assert_eq!(i.height, 0);
}

#[test]
fn intersect_contained() {
    let a = rect(0, 0, 100, 100);
    let b = rect(10, 20, 30, 40);
    assert_eq!(intersect(&a, &b), b);
}

#[test]
fn contains_point_edges() {
    let r = rect(10, 10, 5, 5);
    assert!(contains_point(&r, Vec2i { x: 10, y: 10 }));
    assert!(contains_point(&r, Vec2i { x: 14, y: 14 }));
    assert!(!contains_point(&r, Vec2i { x: 15, y: 10 }));
    assert!(!contains_point(&r, Vec2i { x: 10, y: 15 }));
    assert!(!contains_point(&r, Vec2i { x: 9, y: 10 }));
}

#[test]
fn shrink_insets_every_side() {
    let r = rect(10, 10, 100, 50);
    assert_eq!(shrink(&r, 5), rect(15, 15, 90, 40));
}

#[test]
fn mouse_button_queries() {
    assert!(MouseButtons::none().is_none());
    assert!(!MouseButtons::none().is_left());
    assert!(MouseButtons::left_button().is_left());
    assert!(!MouseButtons::left_button().is_none());
}

#[test]
fn id_from_str_is_deterministic() {
    let m = IdManager::new();
    let a = m.get_id_from_str("button#1");
    let b = m.get_id_from_str("button#1");
    assert_eq!(a, b);
}

#[test]
fn id_of_empty_label_is_seed() {
    let m = IdManager::new();
    assert_eq!(m.get_id_from_str(""), 2166136261);
}

#[test]
fn id_of_single_char_exact_value() {
    // one fold of the hash: (seed * 1000003 + 'a') mod 2^32
    let m = IdManager::new();
    assert_eq!(m.get_id_from_str("a"), 1773475056);
}

#[test]
fn distinct_labels_distinct_ids() {
    let m = IdManager::new();
    assert_ne!(m.get_id_from_str("!title"), m.get_id_from_str("!close"));
    assert_ne!(m.get_id_from_str("!close"), m.get_id_from_str("!resize"));
}

#[test]
fn pushed_scope_changes_seed() {
    let mut m = IdManager::new();
    let outer = m.get_id_from_str("label");
    m.push_id("scope");
    let inner = m.get_id_from_str("label");
    assert_ne!(outer, inner);
    m.pop_id();
    assert_eq!(m.get_id_from_str("label"), outer);
}

#[test]
fn layout_row_hands_out_slots_and_recycles_last_width() {
    let mut l = LayoutStack::new();
    l.push_layout(rect(0, 0, 200, 100), Vec2i { x: 0, y: 0 });
    l.row(vec![50, 30], 20);
    let defaults = Vec2i { x: 64, y: 10 };
    let a = l.next(defaults, 4);
    let b = l.next(defaults, 4);
    let c = l.next(defaults, 4);
    assert_eq!(a, rect(0, 0, 50, 20));
    assert_eq!(b, rect(54, 0, 30, 20));
    // past the declared columns, the last width is recycled
    assert_eq!(c, rect(88, 0, 30, 20));
    // the accumulated extent covers everything handed out
    assert_eq!(l.top().max, Vec2i { x: 118, y: 20 });
}

#[test]
fn layout_second_row_starts_below_first() {
    let mut l = LayoutStack::new();
    l.push_layout(rect(0, 0, 200, 100), Vec2i { x: 0, y: 0 });
    let defaults = Vec2i { x: 64, y: 10 };
    l.row(vec![40], 20);
    let _ = l.next(defaults, 4);
    l.row(vec![40], 20);
    let second = l.next(defaults, 4);
    assert_eq!(second, rect(0, 24, 40, 20));
}

#[test]
fn layout_scroll_offset_shifts_body() {
    let mut l = LayoutStack::new();
    l.push_layout(rect(10, 10, 100, 100), Vec2i { x: 3, y: 7 });
    assert_eq!(l.top().body, rect(7, 3, 100, 100));
}

#[test]
fn style_default_metrics() {
    let s = Style::default();
    assert_eq!(s.title_height, 24);
    assert_eq!(s.padding, 5);
    assert_eq!(s.spacing, 4);
    assert_eq!(s.char_width, 8);
    assert_eq!(s.char_height, 16);
}

#[test]
fn draw_frame_clipped_away_appends_nothing() {
    let style = Style::default();
    let mut c = Container::new("c", &style, default_input());
    c.push_clip_rect(rect(0, 0, 50, 50));
    let before = c.commands.len();
    c.draw_frame(rect(100, 100, 10, 10), ControlColor::WindowBG);
    assert_eq!(c.commands.len(), before);
}

#[test]
fn draw_frame_visible_appends_clipped_rect() {
    let style = Style::default();
    let mut c = Container::new("c", &style, default_input());
    c.push_clip_rect(rect(0, 0, 50, 50));
    c.draw_frame(rect(40, 40, 20, 20), ControlColor::WindowBG);
    assert_eq!(c.commands.len(), 1);
    match &c.commands[0] {
        Command::Rect { rect: r, color } => {
            assert_eq!(*r, rect(40, 40, 10, 10));
            assert_eq!(*color, style.window_bg);
        }
        _ => panic!("expected a rect command"),
    }
}

#[test]
fn draw_icon_partially_clipped_brackets_with_scissors() {
    let style = Style::default();
    let mut c = Container::new("c", &style, default_input());
    c.push_clip_rect(rect(0, 0, 50, 50));
    c.draw_icon(
        microui_core::command::IconId::Close,
        rect(40, 40, 20, 20),
        style.title_text,
    );
    assert_eq!(c.commands.len(), 3);
    assert!(matches!(&c.commands[0], Command::Clip { rect: r } if *r == rect(0, 0, 50, 50)));
    assert!(matches!(&c.commands[1], Command::Icon { .. }));
    assert!(matches!(&c.commands[2], Command::Clip { rect: r } if *r == unclipped_rect()));
}

#[test]
fn draw_control_text_position_and_content() {
    let style = Style::default();
    let mut c = Container::new("c", &style, default_input());
    c.draw_control_text("ab", rect(0, 0, 100, 20), ControlColor::Text, WidgetOption::none());
    assert_eq!(c.commands.len(), 1);
    match &c.commands[0] {
        Command::Text { text, pos, color } => {
            assert_eq!(text, "ab");
            // left-aligned with padding, vertically centered: (20 - 16) / 2
            assert_eq!(*pos, Vec2i { x: 5, y: 2 });
            assert_eq!(*color, style.text);
        }
        _ => panic!("expected a text command"),
    }
}

#[test]
fn update_control_hover_then_press_focuses() {
    let style = Style::default();
    let mut input = default_input();
    input.mouse_pos = Vec2i { x: 10, y: 10 };
    let mut c = Container::new("c", &style, input);
    c.in_hover_root = true;
    let id = c.idmngr.get_id_from_str("widget");
    let r = rect(0, 0, 20, 20);
    c.update_control(id, r, WidgetOption::none());
    assert_eq!(c.hover, Some(id));
    assert_eq!(c.focus, None);
    c.input.mouse_down = MouseButtons::left_button();
    c.input.mouse_pressed = MouseButtons::left_button();
    c.update_control(id, r, WidgetOption::none());
    assert_eq!(c.focus, Some(id));
}

#[test]
fn update_control_not_hover_root_reports_nothing() {
    let style = Style::default();
    let mut input = default_input();
    input.mouse_pos = Vec2i { x: 10, y: 10 };
    let mut c = Container::new("c", &style, input);
    c.in_hover_root = false;
    let id = c.idmngr.get_id_from_str("widget");
    c.update_control(id, rect(0, 0, 20, 20), WidgetOption::none());
    assert_eq!(c.hover, None);
    assert_eq!(c.focus, None);
}

#[test]
fn prepare_clears_transient_keeps_persistent() {
    let style = Style::default();
    let mut c = Container::new("c", &style, default_input());
    c.rect = rect(1, 2, 3, 4);
    c.draw_frame(rect(0, 0, 10, 10), ControlColor::WindowBG);
    c.push_container_body(rect(0, 0, 50, 50), WidgetOption::none());
    c.prepare();
    assert_eq!(c.commands.len(), 0);
    assert_eq!(c.layout.frames.len(), 0);
    assert_eq!(c.rect, rect(1, 2, 3, 4));
}

#[test]
fn finish_records_content_size() {
    let style = Style::default();
    let mut c = Container::new("c", &style, default_input());
    c.push_container_body(rect(0, 0, 200, 100), WidgetOption::none());
    c.layout_row(vec![180], 90);
    let _ = c.layout_next();
    c.finish();
    assert_eq!(c.content_size, Vec2i { x: 180, y: 90 });
}

#[test]
fn render_replays_commands_in_order() {
    let style = Style::default();
    let mut c = Container::new("c", &style, default_input());
    c.draw_frame(rect(0, 0, 10, 10), ControlColor::WindowBG);
    c.draw_frame(rect(1, 1, 5, 5), ControlColor::TitleBG);
    let mut out: Vec<Command> = Vec::new();
    c.render(&mut out);
    assert_eq!(out.len(), 2);
    assert!(matches!(&out[0], Command::Rect { rect: r, .. } if *r == rect(0, 0, 10, 10)));
    assert!(matches!(&out[1], Command::Rect { rect: r, .. } if *r == rect(1, 1, 5, 5)));
}

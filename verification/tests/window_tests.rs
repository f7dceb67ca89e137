use microui_core::canvas::Canvas;
use microui_core::command::Command;
use microui_core::geometry::{rect, Vec2i};
use microui_core::input::{Input, MouseButtons};
use microui_core::options::WidgetOption;
use microui_core::style::Style;
use microui_core::window::{Activity, Type, Window, WindowHandle};

fn idle_input(pos: Vec2i) -> Input {
    let mut input = Input::new();
    input.mouse_pos = pos;
    input
}

fn press_input(pos: Vec2i, delta: Vec2i) -> Input {
    let mut input = Input::new();
    input.mouse_pos = pos;
    input.mouse_delta = delta;
    input.mouse_down = MouseButtons::left_button();
    input.mouse_pressed = MouseButtons::left_button();
    input
}

/// One full frame on a stand-alone window.
fn run_frame(w: &mut Window, input: Input, hover_root: bool, opt: WidgetOption) {
    w.main.set_input(input);
    w.main.set_in_hover_root(hover_root);
    w.main.prepare();
    w.begin_window(opt);
    w.end_window();
    w.main.finish();
}

#[test]
fn clip_stack_depth_balanced_around_begin_end() {
    let style = Style::default();
    let mut w = Window::window("w", &style, Input::new(), rect(10, 10, 200, 100));
    w.main.prepare();
    let before = w.main.clip_stack.len();
    w.begin_window(WidgetOption::none());
    assert_eq!(w.main.clip_stack.len(), before + 1);
    w.end_window();
    assert_eq!(w.main.clip_stack.len(), before);
    w.main.finish();
}

#[test]
fn nested_clip_pushes_balance_inside_a_frame() {
    let style = Style::default();
    let mut w = Window::window("w", &style, Input::new(), rect(10, 10, 200, 100));
    w.main.prepare();
    w.begin_window(WidgetOption::none());
    let depth = w.main.clip_stack.len();
    w.main.push_clip_rect(rect(20, 40, 50, 30));
    w.main.push_clip_rect(rect(25, 45, 10, 10));
    w.main.pop_clip_rect();
    w.main.pop_clip_rect();
    assert_eq!(w.main.clip_stack.len(), depth);
    w.end_window();
    assert_eq!(w.main.clip_stack.len(), 0);
    w.main.finish();
}

#[test]
fn window_constructors() {
    let style = Style::default();
    let w = Window::window("a", &style, Input::new(), rect(1, 2, 3, 4));
    assert!(matches!(w.ty, Type::Window));
    assert!(matches!(w.activity, Activity::Open));
    assert!(!w.is_popup());
    assert_eq!(w.main.rect, rect(1, 2, 3, 4));
    let p = Window::popup("b", &style, Input::new(), rect(0, 0, 0, 0));
    assert!(matches!(p.ty, Type::Popup));
    assert!(matches!(p.activity, Activity::Closed));
    assert!(p.is_popup());
}

#[test]
fn handle_is_open_tracks_activity() {
    let style = Style::default();
    let h = WindowHandle::window("a", &style, Input::new(), rect(0, 0, 100, 100));
    assert!(h.is_open());
    let mut p = WindowHandle::popup("b", &style, Input::new());
    assert!(!p.is_open());
    p.0.open();
    assert!(p.is_open());
}

#[test]
fn handle_runs_a_full_frame() {
    let style = Style::default();
    let mut h = WindowHandle::window("w", &style, Input::new(), rect(10, 10, 200, 100));
    assert_eq!(h.zindex(), 0);
    assert_eq!(h.inner().main.rect, rect(10, 10, 200, 100));
    h.prepare();
    h.begin_window(WidgetOption::none());
    h.end_window();
    h.finish();
    let mut out: Vec<Command> = Vec::new();
    h.render(&mut out);
    // background, title bar, title text, close icon
    assert_eq!(out.len(), 4);
    assert!(matches!(&out[0], Command::Rect { rect: r, .. } if *r == rect(10, 10, 200, 100)));
    assert!(matches!(&out[1], Command::Rect { rect: r, .. } if *r == rect(10, 10, 200, 24)));
    assert!(matches!(&out[2], Command::Text { text, .. } if text == "w"));
    assert!(matches!(&out[3], Command::Icon { rect: r, .. } if *r == rect(186, 10, 24, 24)));
}

#[test]
fn handle_inner_mut_writes_through() {
    let style = Style::default();
    let mut h = WindowHandle::window("w", &style, Input::new(), rect(0, 0, 100, 100));
    h.inner_mut().main.rect = rect(5, 6, 7, 8);
    assert_eq!(h.inner().main.rect, rect(5, 6, 7, 8));
}

#[test]
fn title_drag_moves_window_by_delta() {
    let style = Style::default();
    let mut w = Window::window("w", &style, Input::new(), rect(10, 10, 200, 100));
    // frame 1: pointer rests on the title bar, no buttons: the title gains hover
    run_frame(&mut w, idle_input(Vec2i { x: 50, y: 20 }), true, WidgetOption::none());
    assert_eq!(w.main.rect, rect(10, 10, 200, 100));
    // frame 2: primary press on the title with delta (5,5): focus lands on the
    // title and the rect translates by exactly the delta
    run_frame(
        &mut w,
        press_input(Vec2i { x: 55, y: 25 }, Vec2i { x: 5, y: 5 }),
        true,
        WidgetOption::none(),
    );
    assert_eq!(w.main.rect, rect(15, 15, 200, 100));
}

#[test]
fn resize_drag_clamps_at_floor() {
    let style = Style::default();
    let mut w = Window::window("w", &style, Input::new(), rect(10, 10, 200, 150));
    // resize handle: bottom-right square of the rect, title_height (24) a side
    let on_handle = Vec2i { x: 190, y: 140 };
    // frame 1: hover the handle
    run_frame(&mut w, idle_input(on_handle), true, WidgetOption::none());
    // frame 2: press and drag with a huge negative delta: the rect clamps at
    // exactly 96x64, never below
    run_frame(
        &mut w,
        press_input(on_handle, Vec2i { x: -10000, y: -10000 }),
        true,
        WidgetOption::none(),
    );
    assert_eq!(w.main.rect.width, 96);
    assert_eq!(w.main.rect.height, 64);
}

#[test]
fn resize_drag_grows_without_upper_bound() {
    let style = Style::default();
    let mut w = Window::window("w", &style, Input::new(), rect(10, 10, 200, 150));
    let on_handle = Vec2i { x: 190, y: 140 };
    run_frame(&mut w, idle_input(on_handle), true, WidgetOption::none());
    run_frame(
        &mut w,
        press_input(on_handle, Vec2i { x: 300, y: 400 }),
        true,
        WidgetOption::none(),
    );
    assert_eq!(w.main.rect.width, 500);
    assert_eq!(w.main.rect.height, 550);
}

#[test]
fn popup_closes_on_outside_press() {
    let style = Style::default();
    let mut p = Window::popup("p", &style, Input::new(), rect(10, 10, 100, 100));
    p.open();
    assert!(matches!(p.activity, Activity::Open));
    // a press far outside the popup: it is not the hover root
    let opt = WidgetOption::popup_options();
    run_frame(
        &mut p,
        press_input(Vec2i { x: 500, y: 500 }, Vec2i { x: 0, y: 0 }),
        false,
        opt,
    );
    assert!(matches!(p.activity, Activity::Closed));
}

#[test]
fn popup_stays_open_on_inside_press() {
    let style = Style::default();
    let mut p = Window::popup("p", &style, Input::new(), rect(10, 10, 100, 100));
    p.open();
    // a press inside its own rect: the popup is the hover root and stays open
    let opt = WidgetOption::popup_options();
    run_frame(
        &mut p,
        press_input(Vec2i { x: 50, y: 50 }, Vec2i { x: 0, y: 0 }),
        true,
        opt,
    );
    assert!(matches!(p.activity, Activity::Open));
}

#[test]
fn popup_does_not_reopen_by_itself() {
    let style = Style::default();
    let mut p = Window::popup("p", &style, Input::new(), rect(10, 10, 100, 100));
    run_frame(&mut p, idle_input(Vec2i { x: 50, y: 50 }), true, WidgetOption::popup_options());
    assert!(matches!(p.activity, Activity::Closed));
}

#[test]
fn close_button_press_closes_window() {
    let style = Style::default();
    let mut w = Window::window("w", &style, Input::new(), rect(10, 10, 200, 100));
    // close button: right end of the title bar, 24x24 at (186, 10)
    let on_close = Vec2i { x: 195, y: 20 };
    run_frame(&mut w, idle_input(on_close), true, WidgetOption::none());
    assert!(matches!(w.activity, Activity::Open));
    run_frame(
        &mut w,
        press_input(on_close, Vec2i { x: 0, y: 0 }),
        true,
        WidgetOption::none(),
    );
    assert!(matches!(w.activity, Activity::Closed));
}

#[test]
fn auto_size_converges_to_content_plus_chrome() {
    let style = Style::default();
    let opt = WidgetOption::none().with_auto_size();
    let mut w = Window::window("w", &style, Input::new(), rect(10, 10, 200, 100));
    let far = idle_input(Vec2i { x: -1000, y: -1000 });
    // frame 1: lay out a 180x90 content bounding box
    w.main.set_input(far);
    w.main.prepare();
    w.begin_window(opt);
    w.main.layout_row(vec![180], 90);
    let _ = w.main.layout_next();
    w.end_window();
    w.main.finish();
    assert_eq!(w.main.content_size, Vec2i { x: 180, y: 90 });
    // frame 2: the rect is overridden so the layout region matches the content:
    // width = 180 + 2*padding, height = 90 + title bar + 2*padding
    w.main.set_input(far);
    w.main.prepare();
    w.begin_window(opt);
    assert_eq!(w.main.rect.width, 180 + 2 * 5);
    assert_eq!(w.main.rect.height, 90 + 24 + 2 * 5);
    // the chrome offset from the prior frame is preserved
    assert_eq!(w.main.rect.x, 10);
    assert_eq!(w.main.rect.y, 10);
    // immediate mode: the content is redeclared every frame
    w.main.layout_row(vec![180], 90);
    let _ = w.main.layout_next();
    w.end_window();
    w.main.finish();
    // frame 3: the layout region handed to content is exactly the content size
    w.main.set_input(far);
    w.main.prepare();
    w.begin_window(opt);
    let top = w.main.layout.frames.last().unwrap();
    assert_eq!(top.body.width, 180);
    assert_eq!(top.body.height, 90);
    w.end_window();
    w.main.finish();
}

#[test]
fn canvas_hover_root_is_topmost_open_window() {
    let style = Style::default();
    let mut canvas = Canvas::new();
    let a = canvas.add_window("a", &style, rect(0, 0, 100, 100));
    let b = canvas.add_window("b", &style, rect(50, 50, 100, 100));
    canvas.begin_frame(idle_input(Vec2i { x: 60, y: 60 }));
    assert!(!canvas.windows[a].main.in_hover_root);
    assert!(canvas.windows[b].main.in_hover_root);
    // a point only over the lower window
    canvas.begin_frame(idle_input(Vec2i { x: 10, y: 10 }));
    assert!(canvas.windows[a].main.in_hover_root);
    assert!(!canvas.windows[b].main.in_hover_root);
}

#[test]
fn bring_to_front_reorders_and_raises() {
    let style = Style::default();
    let mut canvas = Canvas::new();
    let _ = canvas.add_window("a", &style, rect(0, 0, 100, 100));
    let _ = canvas.add_window("b", &style, rect(50, 50, 100, 100));
    canvas.bring_to_front(0);
    // "a" now sits at the end of the registry with the highest z-index
    assert_eq!(canvas.windows[1].main.name, "a");
    assert_eq!(canvas.windows[1].main.zindex, 3);
    canvas.begin_frame(idle_input(Vec2i { x: 60, y: 60 }));
    assert!(canvas.windows[1].main.in_hover_root);
    assert!(!canvas.windows[0].main.in_hover_root);
}

#[test]
fn open_popup_opens_and_raises() {
    let style = Style::default();
    let mut canvas = Canvas::new();
    let _ = canvas.add_window("a", &style, rect(0, 0, 100, 100));
    let p = canvas.add_popup("menu", &style);
    assert!(matches!(canvas.windows[p].activity, Activity::Closed));
    canvas.open_popup(p);
    let last = canvas.windows.len() - 1;
    assert!(matches!(canvas.windows[last].activity, Activity::Open));
    assert_eq!(canvas.windows[last].main.name, "menu");
    assert_eq!(canvas.windows[last].main.zindex, 3);
}

#[test]
fn canvas_renders_in_ascending_z_order() {
    let style = Style::default();
    let mut canvas = Canvas::new();
    let a = canvas.add_window("a", &style, rect(0, 0, 100, 100));
    let b = canvas.add_window("b", &style, rect(200, 0, 50, 50));
    canvas.begin_frame(idle_input(Vec2i { x: -10, y: -10 }));
    for i in [a, b] {
        let mut w = canvas.take_window(i);
        w.begin_window(WidgetOption::none().with_no_title());
        w.end_window();
        w.main.finish();
        canvas.put_window(i, w);
    }
    let mut out: Vec<Command> = Vec::new();
    canvas.render(&mut out);
    // each window drew exactly its background; lower z-order comes first
    assert_eq!(out.len(), 2);
    assert!(matches!(&out[0], Command::Rect { rect: r, .. } if *r == rect(0, 0, 100, 100)));
    assert!(matches!(&out[1], Command::Rect { rect: r, .. } if *r == rect(200, 0, 50, 50)));
}

#[test]
fn closed_windows_are_not_rendered() {
    let style = Style::default();
    let mut canvas = Canvas::new();
    let a = canvas.add_window("a", &style, rect(0, 0, 100, 100));
    canvas.begin_frame(idle_input(Vec2i { x: -10, y: -10 }));
    let mut w = canvas.take_window(a);
    w.begin_window(WidgetOption::none().with_no_title());
    w.end_window();
    w.main.finish();
    w.activity = Activity::Closed;
    canvas.put_window(a, w);
    let mut out: Vec<Command> = Vec::new();
    canvas.render(&mut out);
    assert_eq!(out.len(), 0);
}

#[test]
fn end_to_end_drag_through_canvas() {
    let style = Style::default();
    let mut canvas = Canvas::new();
    let i = canvas.add_window("main", &style, rect(10, 10, 200, 100));
    // frame 1: hover the title bar
    canvas.begin_frame(idle_input(Vec2i { x: 50, y: 20 }));
    let mut w = canvas.take_window(i);
    w.begin_window(WidgetOption::none());
    w.end_window();
    w.main.finish();
    canvas.put_window(i, w);
    // frame 2: press and drag by (5,5)
    canvas.begin_frame(press_input(Vec2i { x: 55, y: 25 }, Vec2i { x: 5, y: 5 }));
    let mut w = canvas.take_window(i);
    w.begin_window(WidgetOption::none());
    w.end_window();
    w.main.finish();
    canvas.put_window(i, w);
    assert_eq!(canvas.windows[i].main.rect, rect(15, 15, 200, 100));
}

use gnvim_window::geometry::Px;
use gnvim_window::window::{Mode, Op, Window};

fn px(num: i32, den: u32) -> Px {
    Px::new(num, den).unwrap()
}

#[test]
fn new_window_is_attached_at_origin() {
    let (w, ops) = Window::new(7, 42);
    assert_eq!(w.mode, Mode::Attached);
    assert_eq!(w.canvas, 7);
    assert_eq!(w.grid_id, 42);
    assert_eq!((w.x, w.y), (0, 0));
    assert_eq!(ops, vec![Op::CanvasPut { canvas: 7, x: 0, y: 0 }]);
}

#[test]
fn set_position_rounds_position_down_and_size_up() {
    let (mut w, _) = Window::new(7, 1);
    let ops = w.set_position(px(12, 10), px(39, 10), px(101, 10), px(55, 10));
    assert_eq!((w.x, w.y), (1, 3));
    assert_eq!(
        ops,
        vec![
            Op::CanvasMove { canvas: 7, x: 1, y: 3 },
            Op::SizeRequest { w: 11, h: 6 },
        ]
    );
}

#[test]
fn set_parent_twice_attaches_once() {
    let (mut w, _) = Window::new(1, 1);
    let first = w.set_parent(2);
    assert_eq!(
        first,
        vec![Op::CanvasRemove { canvas: 1 }, Op::CanvasPut { canvas: 2, x: 0, y: 0 }]
    );
    let second = w.set_parent(2);
    assert!(second.is_empty());
    assert_eq!(w.canvas, 2);
}

#[test]
fn set_external_twice_opens_one_surface() {
    let (mut w, _) = Window::new(1, 1);
    let first = w.set_external((300, 200));
    assert_eq!(
        first,
        vec![
            Op::SizeRequest { w: 300, h: 200 },
            Op::CanvasRemove { canvas: 1 },
            Op::OpenFloating,
        ]
    );
    assert_eq!(w.mode, Mode::Floating);
    let second = w.set_external((10, 10));
    assert!(second.is_empty());
    let opened = first.iter().chain(second.iter()).filter(|o| **o == Op::OpenFloating).count();
    assert_eq!(opened, 1);
}

#[test]
fn float_then_position_attaches_again() {
    let (mut w, _) = Window::new(4, 1);
    w.set_external((80, 24));
    let ops = w.set_position(Px::whole(10), Px::whole(20), Px::whole(30), Px::whole(40));
    assert_eq!(w.mode, Mode::Attached);
    assert_eq!(
        ops,
        vec![
            Op::CloseFloating,
            Op::CanvasPut { canvas: 4, x: 0, y: 0 },
            Op::CanvasMove { canvas: 4, x: 10, y: 20 },
            Op::SizeRequest { w: 30, h: 40 },
        ]
    );
}

#[test]
fn floating_window_records_new_canvas() {
    let (mut w, _) = Window::new(1, 1);
    w.set_external((5, 5));
    assert!(w.set_parent(9).is_empty());
    let ops = w.set_position(Px::whole(0), Px::whole(0), Px::whole(1), Px::whole(1));
    assert_eq!(ops[1], Op::CanvasPut { canvas: 9, x: 0, y: 0 });
}

#[test]
fn destroy_floating_closes_surface_and_keeps_content() {
    let (mut w, _) = Window::new(1, 5);
    w.set_external((5, 5));
    let ops = w.destroy();
    assert_eq!(ops, vec![Op::DetachContent, Op::CloseFloating]);
    // The grid's surface was only detached: a new window for the same grid
    // can take it.
    let (again, put) = Window::new(1, 5);
    assert_eq!(again.grid_id, 5);
    assert_eq!(put, vec![Op::CanvasPut { canvas: 1, x: 0, y: 0 }]);
}

#[test]
fn destroy_attached_leaves_canvas() {
    let (w, _) = Window::new(3, 5);
    assert_eq!(w.destroy(), vec![Op::DetachContent, Op::CanvasRemove { canvas: 3 }]);
}

#[test]
fn visibility_and_size_requests() {
    let (w, _) = Window::new(3, 5);
    assert_eq!(w.show(), vec![Op::Show]);
    assert_eq!(w.hide_window(), vec![Op::Hide]);
    assert_eq!(w.show_scrollbar(), vec![Op::ShowScrollbar]);
    assert_eq!(w.hide_scrollbar(), vec![Op::HideScrollbar]);
    assert_eq!(w.resize((640, 480)), vec![Op::SizeRequest { w: 640, h: 480 }]);
    assert_eq!(w.mode, Mode::Attached);
}

#[test]
fn negative_position_rounds_toward_origin_side() {
    let (mut w, _) = Window::new(1, 1);
    let ops = w.set_position(px(-5, 2), px(-1, 3), px(-5, 2), px(1, 3));
    assert_eq!((w.x, w.y), (-3, -1));
    assert_eq!(ops[1], Op::SizeRequest { w: 0, h: 1 });
}

#[test]
fn negative_sizes_count_as_zero() {
    let (mut w, _) = Window::new(1, 1);
    assert_eq!(w.resize((-1, 5)), vec![Op::SizeRequest { w: 0, h: 5 }]);
    let ops = w.set_external((7, -4));
    assert_eq!(ops[0], Op::SizeRequest { w: 7, h: 0 });
}

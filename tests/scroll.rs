use gnvim_window::geometry::Px;
use gnvim_window::scroll::{Adjustment, Direction, ScrollCommand, ScrollSync};
use gnvim_window::window::Window;

fn px(num: i32, den: u32) -> Px {
    Px::new(num, den).unwrap()
}

fn window_at(last: Px, cell_height: Px) -> Window {
    let (mut w, _) = Window::new(1, 3);
    let z = Px::whole(0);
    w.set_adjustment(last, z, Px::whole(1000), z, z, Px::whole(100), cell_height);
    w.adjustment_applied();
    w
}

#[test]
fn configure_emits_nothing_while_applied() {
    let (mut w, _) = Window::new(1, 3);
    let z = Px::whole(0);
    w.set_adjustment(Px::whole(40), z, Px::whole(400), z, z, Px::whole(80), Px::whole(10));
    assert!(w.scroll.suppressed);
    assert_eq!(w.scroll_changed(Px::whole(40)), None);
    assert_eq!(w.scroll_changed(Px::whole(90)), None);
    assert_eq!(w.scroll.last_value, Px::whole(40));
    w.adjustment_applied();
    assert!(!w.scroll.suppressed);
    assert_eq!(
        w.scroll_changed(Px::whole(90)),
        Some(ScrollCommand { direction: Direction::Forward, rows: 5 })
    );
}

#[test]
fn configure_records_the_adjustment() {
    let mut s = ScrollSync::new();
    let adj = Adjustment {
        value: Px::whole(7),
        lower: Px::whole(0),
        upper: Px::whole(70),
        step_increment: Px::whole(1),
        page_increment: Px::whole(10),
        page_size: Px::whole(10),
    };
    s.configure(adj, px(35, 2));
    assert_eq!(s.adjustment, adj);
    assert_eq!(s.last_value, Px::whole(7));
    assert_eq!(s.cell_height, px(35, 2));
    assert!(s.suppressed);
    s.release();
    assert!(!s.suppressed);
}

#[test]
fn forward_rows_when_value_grows() {
    // ceil((0 - 25) / 10) = ceil(-2.5) = -2: two rows forward.
    let mut w = window_at(Px::whole(0), Px::whole(10));
    let c = w.scroll_changed(Px::whole(25)).unwrap();
    assert_eq!(c, ScrollCommand { direction: Direction::Forward, rows: 2 });
    assert_eq!(c.input(), "<C-e><C-e>");
}

#[test]
fn backward_rows_when_value_shrinks() {
    // ceil((0 - -15) / 10) = ceil(1.5) = 2: two rows back.
    let mut w = window_at(Px::whole(0), Px::whole(10));
    let c = w.scroll_changed(Px::whole(-15)).unwrap();
    assert_eq!(c, ScrollCommand { direction: Direction::Backward, rows: 2 });
    assert_eq!(c.input(), "<C-y><C-y>");
}

#[test]
fn small_forward_move_rounds_to_nothing() {
    // ceil(-0.5) = 0.
    let mut w = window_at(Px::whole(0), Px::whole(10));
    let c = w.scroll_changed(Px::whole(5)).unwrap();
    assert_eq!(c.rows, 0);
    assert_eq!(c.input(), "");
}

#[test]
fn baseline_stays_until_next_configure() {
    let mut w = window_at(Px::whole(100), Px::whole(20));
    let first = w.scroll_changed(Px::whole(140)).unwrap();
    assert_eq!(first, ScrollCommand { direction: Direction::Forward, rows: 2 });
    let second = w.scroll_changed(Px::whole(180)).unwrap();
    assert_eq!(second, ScrollCommand { direction: Direction::Forward, rows: 4 });
    assert_eq!(w.scroll.last_value, Px::whole(100));
    assert_eq!(w.scroll.adjustment.value, Px::whole(180));
}

#[test]
fn fractional_cell_height() {
    // (70 - 0) / 17.5 = 4 rows back; (0 - 36) / 17.5 = -2.05..., ceil -2.
    let mut w = window_at(Px::whole(0), px(35, 2));
    assert_eq!(
        w.scroll_changed(Px::whole(-70)),
        Some(ScrollCommand { direction: Direction::Backward, rows: 4 })
    );
    assert_eq!(
        w.scroll_changed(Px::whole(36)),
        Some(ScrollCommand { direction: Direction::Forward, rows: 2 })
    );
}

#[test]
fn zero_cell_height_emits_nothing() {
    let mut w = window_at(Px::whole(0), Px::whole(0));
    assert_eq!(w.scroll_changed(Px::whole(50)), None);
    let mut n = window_at(Px::whole(0), Px::whole(-3));
    assert_eq!(n.scroll_changed(Px::whole(50)), None);
}

#[test]
fn fresh_window_emits_nothing() {
    let (mut w, _) = Window::new(1, 3);
    assert_eq!(w.scroll_changed(Px::whole(10)), None);
}

#[test]
fn command_input_repeats_primitive() {
    let c = ScrollCommand { direction: Direction::Backward, rows: 3 };
    assert_eq!(c.input(), "<C-y><C-y><C-y>");
    let f = ScrollCommand { direction: Direction::Forward, rows: 1 };
    assert_eq!(f.input(), "<C-e>");
}

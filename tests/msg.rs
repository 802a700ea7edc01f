use gnvim_window::geometry::Px;
use gnvim_window::msg::{FrameOp, GridView, MsgWindow};

fn grid(widget: u64) -> GridView {
    GridView {
        widget,
        cols: 81,
        cell_width: Px::new(15, 2).unwrap(),
        cell_height: Px::whole(18),
    }
}

#[test]
fn first_set_pos_adds_grid() {
    let mut m = MsgWindow::new(1);
    let ops = m.set_pos(&grid(10), Px::whole(2), Px::whole(20), false);
    assert_eq!(
        ops,
        vec![
            FrameOp::AddGrid,
            FrameOp::RemoveScrolledClass,
            FrameOp::SizeRequest { w: 608, h: 20 },
            FrameOp::Move { x: 0, y: 36 },
            FrameOp::ShowAll,
        ]
    );
    assert_eq!(m.child, Some(10));
}

#[test]
fn same_grid_again_reparents_nothing() {
    let mut m = MsgWindow::new(1);
    let g = grid(10);
    m.set_pos(&g, Px::whole(2), Px::whole(20), false);
    let ops = m.set_pos(&g, Px::whole(5), Px::whole(20), true);
    assert_eq!(
        ops,
        vec![
            FrameOp::AddScrolledClass,
            FrameOp::SizeRequest { w: 608, h: 20 },
            FrameOp::Move { x: 0, y: 90 },
            FrameOp::ShowAll,
        ]
    );
    assert_eq!((m.x, m.y), (0, 5 * 18));
    assert!(m.scrolled);
}

#[test]
fn other_grid_is_swapped_in() {
    let mut m = MsgWindow::new(1);
    m.set_pos(&grid(10), Px::whole(0), Px::whole(20), false);
    let ops = m.set_pos(&grid(11), Px::whole(0), Px::new(41, 2).unwrap(), false);
    assert_eq!(
        &ops[..3],
        &[FrameOp::RemoveChild, FrameOp::UnparentGrid, FrameOp::AddGrid]
    );
    assert_eq!(ops[4], FrameOp::SizeRequest { w: 608, h: 21 });
    assert_eq!(m.child, Some(11));
}

#[test]
fn fractional_row_offset_rounds_down() {
    let mut m = MsgWindow::new(1);
    let g = GridView { widget: 1, cols: 10, cell_width: Px::whole(8), cell_height: Px::new(35, 2).unwrap() };
    // 2.5 rows of 17.5 px = 43.75 px.
    m.set_pos(&g, Px::new(5, 2).unwrap(), Px::whole(20), false);
    assert_eq!(m.y, 43);
    assert_eq!(m.width, 80);
}

use std::collections::HashSet;

use dragbox::pointer::{Mouse, PointerKind};
use dragbox::session::{InputEvent, LoopState, Session, Step};
use dragbox::shape::{DrawCommand, Window, FILL};

fn cell_set(w: &Window) -> HashSet<(u16, u16)> {
    w.dots().iter().copied().collect()
}

fn rect(x: u16, y: u16, width: u16, height: u16) -> HashSet<(u16, u16)> {
    let mut s = HashSet::new();
    for cx in x..=x + width {
        for cy in y..y + height {
            s.insert((cx, cy));
        }
    }
    s
}

fn drag(column: u16, row: u16) -> InputEvent {
    InputEvent::Pointer { kind: PointerKind::Drag, column, row }
}

#[test]
fn build_covers_inclusive_columns_and_exclusive_rows() {
    let w = Window::build(20, 10, 10, 5);
    assert_eq!(w.size(), (20, 10));
    assert_eq!(w.position(), (10, 5));
    assert_eq!(w.dots().len(), 21 * 10);
    assert_eq!(cell_set(&w).len(), 21 * 10);
    assert_eq!(cell_set(&w), rect(10, 5, 20, 10));
    assert!(cell_set(&w).contains(&(30, 14)));
    assert!(!cell_set(&w).contains(&(30, 15)));
    assert!(!cell_set(&w).contains(&(9, 5)));
}

#[test]
fn build_with_zero_height_has_no_cells() {
    let w = Window::build(5, 0, 3, 3);
    assert!(w.dots().is_empty());
}

#[test]
fn build_with_zero_width_has_one_column() {
    let w = Window::build(0, 2, 7, 1);
    assert_eq!(cell_set(&w), [(7, 1), (7, 2)].into_iter().collect());
}

#[test]
fn build_at_far_edge_of_coordinate_space() {
    let w = Window::build(3, 1, u16::MAX - 3, u16::MAX - 1);
    assert_eq!(cell_set(&w), rect(u16::MAX - 3, u16::MAX - 1, 3, 1));
}

#[test]
fn drog_moves_cells_with_position() {
    let mut w = Window::build(20, 10, 10, 5);
    w.drog(3, -2);
    assert_eq!(w.position(), (13, 3));
    assert_eq!(w.size(), (20, 10));
    assert_eq!(cell_set(&w), rect(13, 3, 20, 10));
}

#[test]
fn drog_stops_at_zero() {
    let mut w = Window::build(4, 2, 1, 1);
    w.drog(-5, -1);
    assert_eq!(w.position(), (0, 0));
    assert_eq!(cell_set(&w), rect(0, 0, 4, 2));
}

#[test]
fn drog_stops_at_far_edge() {
    let mut w = Window::build(4, 2, 10, 10);
    w.drog(i32::MAX, 70000);
    assert_eq!(w.position(), (u16::MAX - 4, u16::MAX - 2));
}

#[test]
fn rebuild_keeps_cells() {
    let mut w = Window::build(2, 3, 4, 5);
    let before = cell_set(&w);
    w.rebuild();
    assert_eq!(cell_set(&w), before);
    assert_eq!(w.position(), (4, 5));
}

#[test]
fn draw_moves_and_prints_each_cell_then_homes() {
    let w = Window::build(1, 2, 3, 4);
    let cmds = w.draw();
    assert_eq!(cmds.len(), 2 * 4 + 1);
    assert_eq!(cmds[cmds.len() - 1], DrawCommand::MoveTo(0, 0));
    let mut seen = HashSet::new();
    for pair in cmds[..cmds.len() - 1].chunks(2) {
        match (pair[0], pair[1]) {
            (DrawCommand::MoveTo(x, y), DrawCommand::Print(g)) => {
                assert_eq!(g, '\u{2588}');
                seen.insert((x, y));
            }
            _ => panic!("unexpected command pair"),
        }
    }
    assert_eq!(seen, rect(3, 4, 1, 2));
}

#[test]
fn draw_twice_gives_same_writes() {
    let w = Window::build(20, 10, 10, 5);
    assert_eq!(w.draw(), w.draw());
    let mut moved_back = Window::build(20, 10, 10, 5);
    moved_back.drog(4, 4);
    moved_back.drog(-4, -4);
    let a: HashSet<DrawCommand> = w.draw().into_iter().collect();
    let b: HashSet<DrawCommand> = moved_back.draw().into_iter().collect();
    assert_eq!(a, b);
    assert_eq!(FILL, '\u{2588}');
}

#[test]
fn update_drag_gives_difference() {
    let mut m = Mouse::record(10, 10);
    assert_eq!(m.update(11, 7, PointerKind::Drag), (1, -3));
    assert_eq!(m.position, (11, 7));
}

#[test]
fn update_drag_with_large_distance() {
    let mut m = Mouse::record(0, 300);
    assert_eq!(m.update(200, 0, PointerKind::Drag), (200, -300));
}

#[test]
fn update_other_kinds_give_no_delta() {
    let kinds = [
        PointerKind::Down,
        PointerKind::Up,
        PointerKind::Moved,
        PointerKind::ScrollDown,
        PointerKind::ScrollUp,
    ];
    for kind in kinds {
        let mut m = Mouse::record(1, 2);
        assert_eq!(m.update(90, 80, kind), (0, 0));
        assert_eq!(m.position, (90, 80));
    }
}

#[test]
fn last_report_wins() {
    let mut m = Mouse::record(0, 0);
    m.update(5, 6, PointerKind::Down);
    m.update(7, 8, PointerKind::Drag);
    m.update(9, 1, PointerKind::Up);
    assert_eq!(m.position, (9, 1));
}

#[test]
fn edge_report_does_not_move_inside_report_does() {
    let window = Window::build(20, 10, 10, 5);
    let mut s = Session::new(window, Mouse::record(10, 10));
    assert_eq!(s.handle(drag(10, 10)), Step::Idle);
    assert_eq!(s.window().position(), (10, 5));
    let step = s.handle(drag(11, 10));
    assert_eq!(s.window().position(), (11, 5));
    assert_eq!(step, Step::Redraw(s.window().draw()));
}

#[test]
fn edges_on_every_side_do_not_move() {
    let window = Window::build(20, 10, 10, 5);
    let mut s = Session::new(window, Mouse::record(0, 0));
    for (c, r) in [(10, 8), (30, 8), (15, 5), (15, 15)] {
        assert_eq!(s.handle(drag(c, r)), Step::Idle);
        assert_eq!(s.window().position(), (10, 5));
        assert_eq!(s.mouse().position, (c, r));
    }
}

#[test]
fn end_to_end_drag_sequence() {
    let window = Window::build(20, 10, 10, 5);
    let mut s = Session::new(window, Mouse::record(0, 0));
    let first = s.handle(drag(15, 8));
    assert_eq!(s.window().position(), (25, 13));
    assert!(matches!(first, Step::Redraw(_)));
    let second = s.handle(drag(17, 9));
    assert_eq!(second, Step::Idle);
    assert_eq!(s.window().position(), (25, 13));
    assert_eq!(s.mouse().position, (17, 9));
    assert_eq!(s.state(), LoopState::Running);
}

#[test]
fn terminating_events_quit_without_touching_shape() {
    for event in [InputEvent::Key, InputEvent::FocusGained, InputEvent::FocusLost] {
        let mut s = Session::new(Window::build(20, 10, 10, 5), Mouse::record(3, 4));
        assert_eq!(s.handle(event), Step::Quit);
        assert_eq!(s.state(), LoopState::Terminated);
        assert_eq!(s.window().position(), (10, 5));
        assert_eq!(s.mouse().position, (3, 4));
    }
}

#[test]
fn resize_keeps_running_and_state() {
    let mut s = Session::new(Window::build(20, 10, 10, 5), Mouse::record(3, 4));
    assert_eq!(s.handle(InputEvent::Resize(80, 24)), Step::Resized(80, 24));
    assert_eq!(s.state(), LoopState::Running);
    assert_eq!(s.window().position(), (10, 5));
    assert_eq!(s.mouse().position, (3, 4));
}

#[test]
fn paste_is_ignored() {
    let mut s = Session::new(Window::build(20, 10, 10, 5), Mouse::record(3, 4));
    assert_eq!(s.handle(InputEvent::Paste), Step::Idle);
    assert_eq!(s.state(), LoopState::Running);
    assert_eq!(s.mouse().position, (3, 4));
}

#[test]
fn plain_move_is_ignored() {
    let mut s = Session::new(Window::build(20, 10, 10, 5), Mouse::record(3, 4));
    let moved = InputEvent::Pointer { kind: PointerKind::Moved, column: 15, row: 8 };
    assert_eq!(s.handle(moved), Step::Idle);
    assert_eq!(s.mouse().position, (3, 4));
    assert_eq!(s.window().position(), (10, 5));
}

#[test]
fn press_inside_updates_tracker_without_moving() {
    let mut s = Session::new(Window::build(20, 10, 10, 5), Mouse::record(3, 4));
    let press = InputEvent::Pointer { kind: PointerKind::Down, column: 15, row: 8 };
    let step = s.handle(press);
    assert_eq!(s.mouse().position, (15, 8));
    assert_eq!(s.window().position(), (10, 5));
    assert_eq!(step, Step::Redraw(s.window().draw()));
}

use game_of_life::game::{DrawOp, Game, GameState, Glyph, InputEvent};

fn all_cells_dead(g: &Game) -> bool {
    let mut dead = true;
    let mut x = 0;
    while x < g.get_width() {
        let mut y = 0;
        while y < g.get_height() {
            if g.get_field(x, y) {
                dead = false;
            }
            y += 1;
        }
        x += 1;
    }
    dead
}

#[test]
fn new_session_is_stopped_and_dead() {
    let g = Game::new(3, 3, 20, 20);
    assert_eq!(g.get_width(), 3);
    assert_eq!(g.get_height(), 3);
    assert!(g.get_state() == GameState::Stopped);
    assert_eq!(g.get_cursor_x(), 0);
    assert_eq!(g.get_cursor_y(), 0);
    assert_eq!(g.get_x_offset(), 9);
    assert_eq!(g.get_y_offset(), 9);
    assert!(all_cells_dead(&g));
}

#[test]
fn set_then_get_roundtrip() {
    let mut g = Game::new(4, 4, 20, 20);
    g.set_field(true, 1, 2);
    assert!(g.get_field(1, 2));
    assert!(!g.get_field(2, 1));
    g.set_field(false, 1, 2);
    assert!(!g.get_field(1, 2));
}

#[test]
fn cursor_moves_are_bounded_by_the_session() {
    let mut g = Game::new(3, 2, 20, 20);
    g.handle_input(Some(InputEvent::Up));
    assert_eq!(g.get_cursor_y(), 0);
    g.handle_input(Some(InputEvent::Left));
    assert_eq!(g.get_cursor_x(), 0);
    g.handle_input(Some(InputEvent::Right));
    g.handle_input(Some(InputEvent::Right));
    g.handle_input(Some(InputEvent::Right));
    assert_eq!(g.get_cursor_x(), 2);
    g.handle_input(Some(InputEvent::Down));
    g.handle_input(Some(InputEvent::Down));
    assert_eq!(g.get_cursor_y(), 1);
}

#[test]
fn step_on_all_dead_grid_stays_dead() {
    let mut g = Game::new(4, 4, 20, 20);
    g.step();
    assert!(all_cells_dead(&g));
}

#[test]
fn step_on_single_live_cell_dies_out() {
    let mut g = Game::new(5, 5, 20, 20);
    g.set_field(true, 1, 1);
    g.step();
    assert!(all_cells_dead(&g));
}

#[test]
fn counted_offsets_give_exactly_three() {
    let mut g = Game::new(5, 5, 20, 20);
    // The three live cells sit on counted offsets of (2,2): the top-left
    // diagonal, the top, and the bottom-left diagonal.
    g.set_field(true, 1, 1);
    g.set_field(true, 2, 1);
    g.set_field(true, 1, 3);
    assert_eq!(g.get_living_fields(2, 2), 3);
    g.step();
    assert!(g.get_field(2, 2));
}

#[test]
fn never_counted_offsets_do_not_register() {
    let mut g = Game::new(5, 5, 20, 20);
    // The three live cells sit on the never-counted offsets of (2,2): the
    // top-right diagonal, the left and the right neighbor. The classical
    // rule would make (2,2) live; this engine must not.
    g.set_field(true, 3, 1);
    g.set_field(true, 1, 2);
    g.set_field(true, 3, 2);
    assert_eq!(g.get_living_fields(2, 2), 0);
    g.step();
    assert!(!g.get_field(2, 2));
    assert!(all_cells_dead(&g));
}

#[test]
fn toggle_twice_leaves_grid_unchanged() {
    let mut g = Game::new(3, 3, 20, 20);
    g.set_field(true, 2, 2);
    g.handle_input(Some(InputEvent::Toggle));
    assert!(g.get_field(0, 0));
    g.handle_input(Some(InputEvent::Toggle));
    assert!(!g.get_field(0, 0));
    assert!(g.get_field(2, 2));
    assert!(!g.get_field(1, 1));
}

#[test]
fn confirm_twice_returns_to_running() {
    let mut g = Game::new(3, 3, 20, 20);
    g.start();
    assert!(g.get_state() == GameState::Running);
    g.handle_input(Some(InputEvent::Confirm));
    assert!(g.get_state() == GameState::Paused);
    g.handle_input(Some(InputEvent::Confirm));
    assert!(g.get_state() == GameState::Running);
}

#[test]
fn confirm_has_no_effect_when_stopped() {
    let mut g = Game::new(3, 3, 20, 20);
    g.handle_input(Some(InputEvent::Confirm));
    assert!(g.get_state() == GameState::Stopped);
}

#[test]
fn quit_stops_the_session() {
    let mut g = Game::new(3, 3, 20, 20);
    g.start();
    let out = g.tick(Some(InputEvent::Quit), false);
    assert!(!out.keep_going);
    assert!(!out.stepped);
    assert!(g.get_state() == GameState::Stopped);
}

#[test]
fn resize_recomputes_offsets() {
    let mut g = Game::new(3, 3, 20, 20);
    let redraw = g.handle_input(Some(InputEvent::Resize { max_x: 40, max_y: 12 }));
    assert!(redraw);
    assert_eq!(g.get_x_offset(), 19);
    assert_eq!(g.get_y_offset(), 5);
    assert_eq!(g.get_width(), 3);
    assert_eq!(g.get_height(), 3);
}

#[test]
fn paused_session_does_not_step() {
    let mut g = Game::new(5, 5, 20, 20);
    g.set_field(true, 1, 1);
    g.start();
    g.handle_input(Some(InputEvent::Confirm));
    let out = g.tick(None, true);
    assert!(!out.stepped);
    assert!(out.keep_going);
    assert!(g.get_field(1, 1));
    g.handle_input(Some(InputEvent::Confirm));
    let out2 = g.tick(None, true);
    assert!(out2.stepped);
    assert!(!g.get_field(1, 1));
}

#[test]
fn no_step_before_the_interval_is_due() {
    let mut g = Game::new(5, 5, 20, 20);
    g.set_field(true, 1, 1);
    g.start();
    let out = g.tick(None, false);
    assert!(!out.stepped);
    assert!(g.get_field(1, 1));
}

#[test]
fn end_to_end_top_row_of_three() {
    let mut g = Game::new(3, 3, 20, 20);
    g.handle_input(Some(InputEvent::Toggle));
    g.handle_input(Some(InputEvent::Right));
    g.handle_input(Some(InputEvent::Toggle));
    g.handle_input(Some(InputEvent::Right));
    g.handle_input(Some(InputEvent::Toggle));
    assert!(g.get_field(0, 0) && g.get_field(1, 0) && g.get_field(2, 0));
    g.start();
    let out = g.tick(None, true);
    assert!(out.stepped);
    // Under this engine's rule no cell of the next generation sees three
    // counted live neighbors; the classical rule would have revived (1,1).
    assert!(!g.get_field(1, 1));
    assert!(all_cells_dead(&g));
}

#[test]
fn border_ops_are_exact() {
    let g = Game::new(2, 1, 10, 10);
    // x_offset = 5 - 1 = 4, y_offset = 5 - 0 = 5.
    let ops = g.draw_border();
    let expected = vec![
        DrawOp::Put { x: 5, y: 5, glyph: Glyph::Horizontal },
        DrawOp::Put { x: 6, y: 5, glyph: Glyph::Horizontal },
        DrawOp::Put { x: 5, y: 7, glyph: Glyph::Horizontal },
        DrawOp::Put { x: 6, y: 7, glyph: Glyph::Horizontal },
        DrawOp::Put { x: 4, y: 6, glyph: Glyph::Vertical },
        DrawOp::Put { x: 7, y: 6, glyph: Glyph::Vertical },
        DrawOp::Put { x: 4, y: 5, glyph: Glyph::Corner },
        DrawOp::Put { x: 7, y: 5, glyph: Glyph::Corner },
        DrawOp::Put { x: 4, y: 7, glyph: Glyph::Corner },
        DrawOp::Put { x: 7, y: 7, glyph: Glyph::Corner },
    ];
    assert_eq!(ops, expected);
}

#[test]
fn board_ops_are_exact() {
    let mut g = Game::new(2, 1, 10, 10);
    g.set_field(true, 0, 0);
    let ops = g.draw_board();
    let expected = vec![
        DrawOp::Put { x: 5, y: 6, glyph: Glyph::Live },
        DrawOp::Put { x: 6, y: 6, glyph: Glyph::Dead },
        DrawOp::MoveTo { x: 5, y: 6 },
    ];
    assert_eq!(ops, expected);
}

#[test]
fn start_returns_the_border_and_runs() {
    let mut g = Game::new(2, 1, 10, 10);
    let from_start = g.start();
    assert!(g.get_state() == GameState::Running);
    let from_draw = g.draw_border();
    assert_eq!(from_start, from_draw);
}

#[test]
fn tick_reports_resize() {
    let mut g = Game::new(3, 3, 20, 20);
    g.start();
    let out = g.tick(Some(InputEvent::Resize { max_x: 30, max_y: 30 }), false);
    assert!(out.redraw_border);
    assert!(!out.stepped);
    assert!(out.keep_going);
    assert_eq!(g.get_x_offset(), 14);
    assert_eq!(g.get_y_offset(), 14);
}

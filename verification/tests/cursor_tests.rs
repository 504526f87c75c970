use game_of_life::cursor::Cursor;

#[test]
fn cursor_new_and_getters() {
    let c = Cursor::new(3, 7);
    assert_eq!(c.get_x(), 3);
    assert_eq!(c.get_y(), 7);
}

#[test]
fn cursor_single_step_moves() {
    let mut c = Cursor::new(5, 5);
    c.up();
    assert_eq!((c.get_x(), c.get_y()), (5, 4));
    c.down();
    c.down();
    assert_eq!((c.get_x(), c.get_y()), (5, 6));
    c.left();
    assert_eq!((c.get_x(), c.get_y()), (4, 6));
    c.right();
    c.right();
    assert_eq!((c.get_x(), c.get_y()), (6, 6));
}

use snake_game::{Coordinate, Direction, DrawCmd, Role, Snake};

fn c(x: i32, y: i32) -> Coordinate {
    Coordinate { x, y }
}

#[test]
fn opposite_pairs() {
    assert_eq!(Direction::Up.opposite(), Direction::Down);
    assert_eq!(Direction::Down.opposite(), Direction::Up);
    assert_eq!(Direction::Left.opposite(), Direction::Right);
    assert_eq!(Direction::Right.opposite(), Direction::Left);
}

#[test]
fn opposite_twice_is_identity() {
    for d in [Direction::Up, Direction::Down, Direction::Left, Direction::Right] {
        assert_eq!(d.opposite().opposite(), d);
    }
}

#[test]
fn new_snake_layout() {
    let s = Snake::new(2, 2);
    assert_eq!(s.body_cells(), vec![c(4, 2), c(3, 2), c(2, 2)]);
    assert_eq!(s.head_position(), (4, 2));
    assert_eq!(s.head_direction(), Direction::Right);
    assert_eq!(s.ghost_tail(), None);
    assert_eq!(s.len(), 3);
}

#[test]
fn head_next_each_direction() {
    let s = Snake::new(2, 2);
    assert_eq!(s.head_next(None), (5, 2));
    assert_eq!(s.head_next(Some(Direction::Up)), (4, 1));
    assert_eq!(s.head_next(Some(Direction::Down)), (4, 3));
    assert_eq!(s.head_next(Some(Direction::Left)), (3, 2));
    assert_eq!(s.head_next(Some(Direction::Right)), (5, 2));
    // Looking ahead changes nothing.
    assert_eq!(s.body_cells(), vec![c(4, 2), c(3, 2), c(2, 2)]);
    assert_eq!(s.head_direction(), Direction::Right);
}

#[test]
fn move_forward_keeps_length() {
    let mut s = Snake::new(2, 2);
    s.move_forward(None);
    assert_eq!(s.body_cells(), vec![c(5, 2), c(4, 2), c(3, 2)]);
    assert_eq!(s.ghost_tail(), Some(c(2, 2)));
    s.move_forward(Some(Direction::Down));
    assert_eq!(s.body_cells(), vec![c(5, 3), c(5, 2), c(4, 2)]);
    assert_eq!(s.head_direction(), Direction::Down);
    assert_eq!(s.ghost_tail(), Some(c(3, 2)));
    assert_eq!(s.len(), 3);
}

#[test]
fn tail_restore_grows_once() {
    let mut s = Snake::new(2, 2);
    s.tail_restore();
    assert_eq!(s.len(), 3);
    s.move_forward(None);
    s.tail_restore();
    assert_eq!(s.body_cells(), vec![c(5, 2), c(4, 2), c(3, 2), c(2, 2)]);
    assert_eq!(s.ghost_tail(), None);
    s.tail_restore();
    assert_eq!(s.len(), 4);
}

#[test]
fn tail_overlap_skips_head() {
    let s = Snake::new(2, 2);
    assert!(!s.tail_overlap(4, 2));
    assert!(s.tail_overlap(3, 2));
    assert!(s.tail_overlap(2, 2));
    assert!(!s.tail_overlap(5, 2));
    assert!(s.occupies(4, 2));
    assert!(!s.occupies(5, 2));
}

#[test]
fn new_head_not_overlapping_after_move() {
    let mut s = Snake::new(2, 2);
    for d in [Some(Direction::Up), None, Some(Direction::Left), Some(Direction::Down)] {
        s.move_forward(d);
        let (x, y) = s.head_position();
        assert!(!s.tail_overlap(x, y));
    }
}

#[test]
fn snake_draw_marks_head() {
    let s = Snake::new(2, 2);
    let cmds = s.draw();
    assert_eq!(
        cmds,
        vec![
            DrawCmd { role: Role::SnakeHead, x: 4, y: 2, width: 1, height: 1 },
            DrawCmd { role: Role::SnakeBody, x: 3, y: 2, width: 1, height: 1 },
            DrawCmd { role: Role::SnakeBody, x: 2, y: 2, width: 1, height: 1 },
        ]
    );
}

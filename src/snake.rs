use std::collections::VecDeque;
use vstd::prelude::*;

use crate::draw::{block, block_spec, DrawCmd, Role};
use crate::game::Coordinate;

verus! {

/// A direction of travel on the grid; `y` grows downwards.
#[derive(Clone, Copy, Debug, PartialEq, Eq, Structural)]
pub enum Direction {
    Up,
    Down,
    Left,
    Right,
}

impl Direction {
    pub open spec fn opposite_spec(self) -> Direction {
        match self {
            Direction::Up => Direction::Down,
            Direction::Down => Direction::Up,
            Direction::Left => Direction::Right,
            Direction::Right => Direction::Left,
        }
    }

    /// Horizontal component of one step in this direction.
    pub open spec fn dx(self) -> int {
        match self {
            Direction::Left => -1,
            Direction::Right => 1,
            _ => 0,
        }
    }

    /// Vertical component of one step in this direction.
    pub open spec fn dy(self) -> int {
        match self {
            Direction::Up => -1,
            Direction::Down => 1,
            _ => 0,
        }
    }

    /// The direction pointing the other way.
    pub fn opposite(&self) -> (r: Direction)
        ensures
            r == self.opposite_spec(),
    {
        match *self {
            Direction::Up => Direction::Down,
            Direction::Down => Direction::Up,
            Direction::Left => Direction::Right,
            Direction::Right => Direction::Left,
        }
    }
}

/// Taking the opposite twice gives back the direction itself.
pub proof fn lemma_opposite_involution(d: Direction)
    ensures
        d.opposite_spec().opposite_spec() == d,
{
}

/// A coordinate's components lie strictly inside the `i32` range, so one step
/// in any direction is representable.
pub open spec fn steppable(c: Coordinate) -> bool {
    i32::MIN < c.x < i32::MAX && i32::MIN < c.y < i32::MAX
}

/// The cell one step away from `c` in direction `d`.
pub open spec fn step(c: Coordinate, d: Direction) -> Coordinate {
    Coordinate { x: (c.x + d.dx()) as i32, y: (c.y + d.dy()) as i32 }
}

/// The abstract state of a snake.
pub struct SnakeView {
    pub direction: Direction,
    /// Head first, oldest cell last.
    pub body: Seq<Coordinate>,
    /// The cell most recently dropped from the back, kept for growth.
    pub ghost_tail: Option<Coordinate>,
}

impl SnakeView {
    pub open spec fn wf(self) -> bool {
        self.body.len() >= 1
    }

    pub open spec fn head(self) -> Coordinate {
        self.body[0]
    }

    /// The direction a move takes: the supplied one, else the current one.
    pub open spec fn heading(self, dir: Option<Direction>) -> Direction {
        match dir {
            Some(d) => d,
            None => self.direction,
        }
    }

    /// Where the head goes on the next move.
    pub open spec fn next_head(self, dir: Option<Direction>) -> Coordinate {
        step(self.head(), self.heading(dir))
    }

    /// `c` is a body cell other than the head.
    pub open spec fn tail_overlap(self, c: Coordinate) -> bool {
        exists|i: int| 1 <= i < self.body.len() && self.body[i] == c
    }

    /// The snake after one move: a new head in front, the back cell dropped
    /// and kept as the ghost tail.
    pub open spec fn moved(self, dir: Option<Direction>) -> SnakeView {
        SnakeView {
            direction: self.heading(dir),
            body: seq![self.next_head(dir)] + self.body.drop_last(),
            ghost_tail: Some(self.body.last()),
        }
    }

    /// The snake after giving back its ghost tail, if it holds one.
    pub open spec fn restored(self) -> SnakeView {
        match self.ghost_tail {
            Some(t) => SnakeView { direction: self.direction, body: self.body.push(t), ghost_tail: None },
            None => self,
        }
    }

    /// What drawing the snake produces: each cell, the head in its own role.
    pub open spec fn draw_spec(self) -> Seq<DrawCmd> {
        Seq::new(
            self.body.len(),
            |i: int|
                block_spec(
                    if i == 0 { Role::SnakeHead } else { Role::SnakeBody },
                    self.body[i].x,
                    self.body[i].y,
                ),
        )
    }
}

/// A fresh snake: three cells in a row ending at `x + 2`, facing right.
pub open spec fn initial_snake(x: i32, y: i32) -> SnakeView {
    SnakeView {
        direction: Direction::Right,
        body: seq![
            Coordinate { x: (x + 2) as i32, y },
            Coordinate { x: (x + 1) as i32, y },
            Coordinate { x, y },
        ],
        ghost_tail: None,
    }
}

/// A move keeps the length of the body.
pub proof fn lemma_move_keeps_length(s: SnakeView, dir: Option<Direction>)
    requires
        s.wf(),
    ensures
        s.moved(dir).body.len() == s.body.len(),
        s.moved(dir).ghost_tail is Some,
{
}

/// Restoring the tail grows the body by one cell exactly when a ghost tail is
/// held, and leaves none behind, so a second restore changes nothing.
pub proof fn lemma_restore_grows_once(s: SnakeView)
    ensures
        s.restored().body.len() == s.body.len() + (if s.ghost_tail is Some { 1int } else { 0int }),
        s.restored().ghost_tail is None,
        s.restored().restored() == s.restored(),
{
}

/// After a move the new head is not reported as overlapping the rest of the
/// body, unless it stepped onto a cell that the move keeps.
pub proof fn lemma_new_head_not_overlapping(s: SnakeView, dir: Option<Direction>)
    requires
        s.wf(),
        !s.body.drop_last().contains(s.next_head(dir)),
    ensures
        !s.moved(dir).tail_overlap(s.moved(dir).head()),
{
    let m = s.moved(dir);
    assert forall|i: int| 1 <= i < m.body.len() implies m.body[i] != m.head() by {
        assert(m.body[i] == s.body.drop_last()[i - 1]);
    }
}

/// After a legal move, one whose next head is not a body cell behind the
/// head, the new head is not reported as overlapping the rest of the body.
pub proof fn lemma_legal_move_head_not_overlapping(s: SnakeView, dir: Option<Direction>)
    requires
        s.wf(),
        steppable(s.head()),
        !s.tail_overlap(s.next_head(dir)),
    ensures
        !s.moved(dir).tail_overlap(s.moved(dir).head()),
{
    let n = s.next_head(dir);
    assert(n != s.head());
    assert forall|i: int| 0 <= i < s.body.drop_last().len() implies s.body.drop_last()[i] != n by {
        if i > 0 {
            assert(s.body.drop_last()[i] == s.body[i]);
        }
    }
    lemma_new_head_not_overlapping(s, dir);
}

/// The snake: an ordered body of cells, a direction of travel and the cell
/// most recently vacated by the tail.
pub struct Snake {
    direction: Direction,
    body: VecDeque<Coordinate>,
    tail: Option<Coordinate>,
}

impl View for Snake {
    type V = SnakeView;

    closed spec fn view(&self) -> SnakeView {
        SnakeView { direction: self.direction, body: self.body@, ghost_tail: self.tail }
    }
}

impl Snake {
    /// A snake of three cells from `(x, y)` to `(x + 2, y)`, head rightmost,
    /// facing right.
    pub fn new(x: i32, y: i32) -> (r: Snake)
        requires
            x <= i32::MAX - 2,
        ensures
            r@ == initial_snake(x, y),
            r@.wf(),
    {
        let mut body: VecDeque<Coordinate> = VecDeque::new();
        body.push_front(Coordinate { x, y });
        body.push_front(Coordinate { x: x + 1, y });
        body.push_front(Coordinate { x: x + 2, y });
        let r = Snake { direction: Direction::Right, body, tail: None };
        assert(r@.body =~= initial_snake(x, y).body);
        r
    }

    /// Draw commands for every body cell, head first and in its own role.
    pub fn draw(&self) -> (r: Vec<DrawCmd>)
        ensures
            r@ == self@.draw_spec(),
    {
        let mut r: Vec<DrawCmd> = Vec::new();
        let n = self.body.len();
        let mut i: usize = 0;
        while i < n
            invariant
                n == self@.body.len(),
                i <= n,
                r@ =~= self@.draw_spec().take(i as int),
            decreases n - i,
        {
            let c = self.body[i];
            let role = if i == 0 { Role::SnakeHead } else { Role::SnakeBody };
            r.push(block(role, c.x, c.y));
            i += 1;
        }
        assert(r@ =~= self@.draw_spec());
        r
    }

    /// The coordinates of the head.
    pub fn head_position(&self) -> (r: (i32, i32))
        requires
            self@.wf(),
        ensures
            r.0 == self@.head().x && r.1 == self@.head().y,
    {
        let head = self.body[0];
        (head.x, head.y)
    }

    /// The current direction of travel.
    pub fn head_direction(&self) -> (r: Direction)
        ensures
            r == self@.direction,
    {
        self.direction
    }

    /// Where the head would go on the next move, in `dir` if given, else in
    /// the current direction. Does not change the snake.
    pub fn head_next(&self, dir: Option<Direction>) -> (r: (i32, i32))
        requires
            self@.wf(),
            steppable(self@.head()),
        ensures
            r.0 == self@.head().x + self@.heading(dir).dx(),
            r.1 == self@.head().y + self@.heading(dir).dy(),
            r.0 == self@.next_head(dir).x && r.1 == self@.next_head(dir).y,
    {
        let current = self.head_position();
        let mut direction = self.direction;
        match dir {
            Some(d) => direction = d,
            None => {},
        }
        match direction {
            Direction::Up => (current.0, current.1 - 1),
            Direction::Down => (current.0, current.1 + 1),
            Direction::Left => (current.0 - 1, current.1),
            Direction::Right => (current.0 + 1, current.1),
        }
    }

    /// Gives back the cell dropped by the last move, growing the snake by one;
    /// does nothing if there is none.
    pub fn tail_restore(&mut self)
        ensures
            final(self)@ == old(self)@.restored(),
    {
        match self.tail {
            Some(tail) => {
                self.body.push_back(tail);
                self.tail = None;
            },
            None => {},
        }
    }

    /// Whether `(x, y)` is a body cell other than the head.
    pub fn tail_overlap(&self, x: i32, y: i32) -> (r: bool)
        ensures
            r == self@.tail_overlap(Coordinate { x, y }),
    {
        let n = self.body.len();
        let mut i: usize = 1;
        while i < n
            invariant
                n == self@.body.len(),
                1 <= i,
                forall|j: int| 1 <= j < i && j < n ==> self@.body[j] != (Coordinate { x, y }),
            decreases n - i,
        {
            let c = self.body[i];
            if c.x == x && c.y == y {
                return true;
            }
            i += 1;
        }
        false
    }

    /// Whether `(x, y)` is any body cell, the head included.
    pub fn occupies(&self, x: i32, y: i32) -> (r: bool)
        ensures
            r == self@.body.contains(Coordinate { x, y }),
    {
        let n = self.body.len();
        let mut i: usize = 0;
        while i < n
            invariant
                n == self@.body.len(),
                forall|j: int| 0 <= j < i && j < n ==> self@.body[j] != (Coordinate { x, y }),
            decreases n - i,
        {
            let c = self.body[i];
            if c.x == x && c.y == y {
                assert(self@.body[i as int] == Coordinate { x, y });
                return true;
            }
            i += 1;
        }
        false
    }

    /// Moves one cell: `dir`, if given, becomes the direction of travel; the
    /// new head goes in front and the back cell becomes the ghost tail.
    pub fn move_forward(&mut self, dir: Option<Direction>)
        requires
            old(self)@.wf(),
            steppable(old(self)@.head()),
        ensures
            final(self)@ == old(self)@.moved(dir),
            final(self)@.wf(),
    {
        match dir {
            Some(d) => self.direction = d,
            None => {},
        }
        let pos = self.head_next(None);
        let new_block = Coordinate { x: pos.0, y: pos.1 };
        let ghost before = self.body@;
        self.body.push_front(new_block);
        let removed = self.body.pop_back();
        self.tail = removed;
        assert(self.body@ =~= seq![new_block] + before.drop_last());
    }
    /// Number of body cells.
    pub fn len(&self) -> (r: usize)
        ensures
            r == self@.body.len(),
    {
        self.body.len()
    }

    /// The body cells, head first.
    pub fn body_cells(&self) -> (r: Vec<Coordinate>)
        ensures
            r@ == self@.body,
    {
        let mut r: Vec<Coordinate> = Vec::new();
        let n = self.body.len();
        let mut i: usize = 0;
        while i < n
            invariant
                n == self@.body.len(),
                i <= n,
                r@ =~= self@.body.take(i as int),
            decreases n - i,
        {
            r.push(self.body[i]);
            i += 1;
        }
        assert(r@ =~= self@.body);
        r
    }

    /// The cell dropped by the last move, if it has not been given back.
    pub fn ghost_tail(&self) -> (r: Option<Coordinate>)
        ensures
            r == self@.ghost_tail,
    {
        self.tail
    }
}

} // verus!

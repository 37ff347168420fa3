use rand::Rng;
use vstd::prelude::*;

use crate::draw::{block, block_spec, rect, rect_spec, DrawCmd, Role};
use crate::snake::{initial_snake, steppable, Direction, Snake, SnakeView};

verus! {

/// Column of the tail of a fresh snake.
pub const START_X: i32 = 2;
/// Row of a fresh snake.
pub const START_Y: i32 = 2;
/// Column of the food placed at the start.
pub const FOOD_X: i32 = 6;
/// Row of the food placed at the start.
pub const FOOD_Y: i32 = 4;
/// Time between two moves of the snake, in microseconds: a running game
/// steps once its clock reaches this value.
pub const MOVING_PERIOD_US: u64 = 75_000;
/// Time from the end of a game to the restart, in microseconds.
pub const RESTART_TIME_US: u64 = 1_000_000;
/// Random cells tried when placing food before the board is scanned in order.
pub const SPAWN_ATTEMPTS: u32 = 64;

/// A cell of the grid, in grid units.
#[derive(Clone, Copy, Debug, PartialEq, Eq, Structural)]
pub struct Coordinate {
    pub x: i32,
    pub y: i32,
}

/// Why a game could not be created.
#[derive(Clone, Copy, Debug, PartialEq, Eq, Structural)]
pub enum ConfigError {
    /// Width or height of at most two leaves no cell inside the border.
    DegenerateArena,
}

/// The two states of a game, each with its own clock.
#[derive(Clone, Copy, Debug, PartialEq, Eq, Structural)]
pub enum Phase {
    /// Playing; time since the last move.
    Running { idle_us: u64 },
    /// Lost; time since the game ended.
    Over { since_us: u64 },
}

/// Adds elapsed time to a clock, stopping at the largest value.
pub open spec fn add_time(t: u64, delta: u64) -> u64 {
    if t + delta > u64::MAX { u64::MAX } else { (t + delta) as u64 }
}

/// The abstract state of a game.
pub struct GameView {
    pub snake: SnakeView,
    pub food: Option<Coordinate>,
    pub width: i32,
    pub height: i32,
    pub phase: Phase,
}

/// The state of a new game, and of a game after a restart.
pub open spec fn initial_game(width: i32, height: i32) -> GameView {
    GameView {
        snake: initial_snake(START_X, START_Y),
        food: Some(Coordinate { x: FOOD_X, y: FOOD_Y }),
        width,
        height,
        phase: Phase::Running { idle_us: 0 },
    }
}

impl GameView {
    pub open spec fn inv(self) -> bool {
        &&& self.width > 2
        &&& self.height > 2
        &&& self.snake.wf()
        &&& steppable(self.snake.head())
    }

    pub open spec fn is_over(self) -> bool {
        self.phase is Over
    }

    /// `c` lies strictly inside the border ring.
    pub open spec fn interior(self, c: Coordinate) -> bool {
        0 < c.x < self.width - 1 && 0 < c.y < self.height - 1
    }

    /// `c` is a cell where food may be placed.
    pub open spec fn free(self, c: Coordinate) -> bool {
        self.interior(c) && !self.snake.body.contains(c)
    }

    /// `f` is an acceptable result of placing food: a free cell, or nothing
    /// when no cell is free.
    pub open spec fn spawn_ok(self, f: Option<Coordinate>) -> bool {
        match f {
            Some(c) => self.free(c),
            None => forall|c: Coordinate| !#[trigger] self.free(c),
        }
    }

    /// The next head lands inside the border and off the body behind the head.
    pub open spec fn alive(self, dir: Option<Direction>) -> bool {
        let n = self.snake.next_head(dir);
        !self.snake.tail_overlap(n) && self.interior(n)
    }

    /// One step of the game: move and perhaps eat if the move is legal, else
    /// end the game. Either way the clock starts again from zero.
    pub open spec fn stepped(self, dir: Option<Direction>) -> GameView {
        if self.alive(dir) {
            let m = self.snake.moved(dir);
            if self.food == Some(m.head()) {
                GameView {
                    snake: m.restored(),
                    food: None,
                    width: self.width,
                    height: self.height,
                    phase: Phase::Running { idle_us: 0 },
                }
            } else {
                GameView {
                    snake: m,
                    food: self.food,
                    width: self.width,
                    height: self.height,
                    phase: Phase::Running { idle_us: 0 },
                }
            }
        } else {
            GameView {
                snake: self.snake,
                food: self.food,
                width: self.width,
                height: self.height,
                phase: Phase::Over { since_us: 0 },
            }
        }
    }

    /// The effect of a decoded key: a turn that is neither the current
    /// direction nor its reverse steps at once; anything else changes nothing.
    pub open spec fn after_key(self, dir: Option<Direction>) -> GameView {
        match dir {
            Some(d) => if !self.is_over() && d != self.snake.direction && d
                != self.snake.direction.opposite_spec() {
                self.stepped(dir)
            } else {
                self
            },
            None => self,
        }
    }

    /// Food is missing and must be placed on this frame.
    pub open spec fn needs_food(self) -> bool {
        !self.is_over() && self.food is None
    }

    /// One frame of `delta` microseconds, where `spawned` is the food placed
    /// if the board had none.
    pub open spec fn tick(self, delta: u64, spawned: Option<Coordinate>) -> GameView {
        match self.phase {
            Phase::Over { since_us } => {
                let t = add_time(since_us, delta);
                if t > RESTART_TIME_US {
                    initial_game(self.width, self.height)
                } else {
                    GameView {
                        snake: self.snake,
                        food: self.food,
                        width: self.width,
                        height: self.height,
                        phase: Phase::Over { since_us: t },
                    }
                }
            },
            Phase::Running { idle_us } => {
                let t = add_time(idle_us, delta);
                let g = GameView {
                    snake: self.snake,
                    food: if self.food is None { spawned } else { self.food },
                    width: self.width,
                    height: self.height,
                    phase: Phase::Running { idle_us: t },
                };
                if t >= MOVING_PERIOD_US { g.stepped(None) } else { g }
            },
        }
    }

    /// The draw commands for the whole board: the snake, the food, the four
    /// border walls and, once the game is lost, an overlay.
    pub open spec fn draw_spec(self) -> Seq<DrawCmd> {
        let w = self.width;
        let h = self.height;
        let food = match self.food {
            Some(f) => seq![block_spec(Role::Food, f.x, f.y)],
            None => Seq::empty(),
        };
        let border = seq![
            rect_spec(Role::Border, 0, 0, w, 1),
            rect_spec(Role::Border, 0, (h - 1) as i32, w, 1),
            rect_spec(Role::Border, 0, 0, 1, h),
            rect_spec(Role::Border, (w - 1) as i32, 0, 1, h),
        ];
        let overlay = if self.is_over() {
            seq![rect_spec(Role::GameOverOverlay, 0, 0, w, h)]
        } else {
            Seq::empty()
        };
        self.snake.draw_spec() + food + border + overlay
    }
}

/// A key for the reverse of the current direction changes nothing: no turn
/// and no step.
pub proof fn lemma_reverse_key_ignored(g: GameView)
    ensures
        g.after_key(Some(g.snake.direction.opposite_spec())) == g,
{
}

/// A key for the current direction changes nothing: no extra step.
pub proof fn lemma_same_key_ignored(g: GameView)
    ensures
        g.after_key(Some(g.snake.direction)) == g,
{
}

/// An illegal step ends the game with its clock at zero and leaves the
/// snake and the food as they were.
pub proof fn lemma_illegal_step_ends_game(g: GameView, dir: Option<Direction>)
    requires
        !g.alive(dir),
    ensures
        g.stepped(dir).phase == (Phase::Over { since_us: 0 }),
        g.stepped(dir).snake == g.snake,
        g.stepped(dir).food == g.food,
{
}

/// A legal step onto the food eats it and grows the snake on that same step:
/// the new head is added in front and no cell is dropped.
pub proof fn lemma_eating_step_grows(g: GameView, dir: Option<Direction>)
    requires
        g.snake.wf(),
        g.alive(dir),
        g.food == Some(g.snake.next_head(dir)),
    ensures
        g.stepped(dir).food is None,
        g.stepped(dir).snake.body == seq![g.snake.next_head(dir)] + g.snake.body,
        g.stepped(dir).snake.body.len() == g.snake.body.len() + 1,
        g.stepped(dir).snake.ghost_tail is None,
        g.stepped(dir).phase == (Phase::Running { idle_us: 0 }),
{
    let b = g.snake.body;
    assert(b.drop_last().push(b.last()) =~= b);
    assert(g.stepped(dir).snake.body =~= seq![g.snake.next_head(dir)] + b);
}

/// A step, and so a key or a frame, keeps the game's invariant.
pub proof fn lemma_stepped_inv(g: GameView, dir: Option<Direction>)
    requires
        g.inv(),
    ensures
        g.stepped(dir).inv(),
{
    if g.alive(dir) {
        let m = g.snake.moved(dir);
        if m.ghost_tail is Some {
            assert(m.restored().body[0] == m.body[0]);
        }
    }
}

/// Relies on rand's `thread_rng` and `Rng::gen_range`: a value in
/// `[low, high)`; it panics when `low >= high`, which `requires` rules out.
#[verifier::external_body]
fn gen_range(low: i32, high: i32) -> (r: i32)
    requires
        low < high,
    ensures
        low <= r < high,
{
    rand::thread_rng().gen_range(low, high)
}

/// The game: one snake, perhaps one piece of food, an arena with a one-cell
/// border, and the running / game-over state with its clock.
pub struct Game {
    snake: Snake,
    food: Option<Coordinate>,
    width: i32,
    height: i32,
    phase: Phase,
}

impl View for Game {
    type V = GameView;

    closed spec fn view(&self) -> GameView {
        GameView {
            snake: self.snake@,
            food: self.food,
            width: self.width,
            height: self.height,
            phase: self.phase,
        }
    }
}

impl Game {
    /// A new game on a `width` by `height` arena, border included: the snake
    /// at its start, food at its start cell, running with a clock at zero.
    pub fn new(width: i32, height: i32) -> (r: Result<Game, ConfigError>)
        ensures
            match r {
                Ok(g) => width > 2 && height > 2 && g@ == initial_game(width, height) && g@.inv(),
                Err(e) => !(width > 2 && height > 2) && e == ConfigError::DegenerateArena,
            },
    {
        if width <= 2 || height <= 2 {
            return Err(ConfigError::DegenerateArena);
        }
        Ok(
            Game {
                snake: Snake::new(START_X, START_Y),
                food: Some(Coordinate { x: FOOD_X, y: FOOD_Y }),
                width,
                height,
                phase: Phase::Running { idle_us: 0 },
            },
        )
    }

    /// Puts the game back in its starting state on the same arena.
    fn restart(&mut self)
        requires
            old(self)@.inv(),
        ensures
            final(self)@ == initial_game(old(self)@.width, old(self)@.height),
            final(self)@.inv(),
    {
        self.snake = Snake::new(START_X, START_Y);
        self.food = Some(Coordinate { x: FOOD_X, y: FOOD_Y });
        self.phase = Phase::Running { idle_us: 0 };
    }

    /// The draw commands for the board in its current state.
    pub fn draw(&self) -> (r: Vec<DrawCmd>)
        requires
            self@.inv(),
        ensures
            r@ == self@.draw_spec(),
    {
        let mut r = self.snake.draw();
        match self.food {
            Some(f) => r.push(block(Role::Food, f.x, f.y)),
            None => {},
        }
        r.push(rect(Role::Border, 0, 0, self.width, 1));
        r.push(rect(Role::Border, 0, self.height - 1, self.width, 1));
        r.push(rect(Role::Border, 0, 0, 1, self.height));
        r.push(rect(Role::Border, self.width - 1, 0, 1, self.height));
        if let Phase::Over { .. } = self.phase {
            r.push(rect(Role::GameOverOverlay, 0, 0, self.width, self.height));
        }
        assert(r@ =~= self@.draw_spec());
        r
    }

    /// Advances the game by one frame of `delta_us` microseconds.
    ///
    /// Once lost, the game only counts time, and restarts when more than
    /// `RESTART_TIME_US` have passed. While running, missing food is placed
    /// first; then, once at least `MOVING_PERIOD_US` have passed since the
    /// last step, one step is taken, however long the frame was.
    pub fn update(&mut self, delta_us: u64)
        requires
            old(self)@.inv(),
        ensures
            final(self)@.inv(),
            exists|f: Option<Coordinate>|
                (old(self)@.needs_food() ==> old(self)@.spawn_ok(f)) && final(self)@
                    == #[trigger] old(self)@.tick(delta_us, f),
    {
        let ghost g0 = self@;
        match self.phase {
            Phase::Over { since_us } => {
                let t = if delta_us > u64::MAX - since_us {
                    u64::MAX
                } else {
                    since_us + delta_us
                };
                if t > RESTART_TIME_US {
                    self.restart();
                } else {
                    self.phase = Phase::Over { since_us: t };
                }
                assert(self@ == g0.tick(delta_us, None));
            },
            Phase::Running { idle_us } => {
                let t = if delta_us > u64::MAX - idle_us {
                    u64::MAX
                } else {
                    idle_us + delta_us
                };
                self.phase = Phase::Running { idle_us: t };
                let ghost g1 = self@;
                if self.food.is_none() {
                    self.food_add();
                }
                let ghost f = self.food;
                proof {
                    if g0.needs_food() && f is None {
                        assert forall|c: Coordinate| !#[trigger] g0.free(c) by {
                            assert(!g1.free(c));
                        }
                    }
                }
                if t >= MOVING_PERIOD_US {
                    self.update_snake(None);
                }
                assert(self@ == g0.tick(delta_us, f));
            },
        }
    }

    /// Takes one step in `dir`, or in the current direction if `None`: the
    /// snake moves and eats if the next head is legal, else the game is lost.
    pub fn update_snake(&mut self, dir: Option<Direction>)
        requires
            old(self)@.inv(),
            !old(self)@.is_over(),
        ensures
            final(self)@ == old(self)@.stepped(dir),
            final(self)@.inv(),
    {
        proof {
            lemma_stepped_inv(self@, dir);
        }
        if self.check_alive(dir) {
            self.snake.move_forward(dir);
            self.check_eating();
        } else {
            self.phase = Phase::Over { since_us: 0 };
            return;
        }
        self.phase = Phase::Running { idle_us: 0 };
    }

    /// Handles a decoded direction key; `None` stands for any other key.
    /// Ignored once the game is lost, and for the current direction or its
    /// reverse; any other direction steps at once, whatever the clock says.
    pub fn key_pressed(&mut self, dir: Option<Direction>)
        requires
            old(self)@.inv(),
        ensures
            final(self)@ == old(self)@.after_key(dir),
            final(self)@.inv(),
    {
        if let Phase::Over { .. } = self.phase {
            return;
        }
        match dir {
            Some(d) => {
                let head_direction = self.snake.head_direction();
                if d != head_direction.opposite() && d != head_direction {
                    self.update_snake(dir);
                }
            },
            None => {},
        }
    }

    /// If the head is on the food, the food is eaten and the snake grows.
    fn check_eating(&mut self)
        requires
            old(self)@.snake.wf(),
        ensures
            ({
                let g = old(self)@;
                if g.food == Some(g.snake.head()) {
                    final(self)@ == GameView { snake: g.snake.restored(), food: None, ..g }
                } else {
                    final(self)@ == g
                }
            }),
    {
        let head = self.snake.head_position();
        match self.food {
            Some(f) => {
                if f.x == head.0 && f.y == head.1 {
                    self.food = None;
                    self.snake.tail_restore();
                }
            },
            None => {},
        }
    }

    /// Whether a step in `dir` (or the current direction) is legal: the next
    /// head is off the body behind the head and strictly inside the border.
    pub fn check_alive(&self, dir: Option<Direction>) -> (r: bool)
        requires
            self@.inv(),
        ensures
            r == self@.alive(dir),
    {
        let (x, y) = self.snake.head_next(dir);
        if self.snake.tail_overlap(x, y) {
            return false;
        }
        x > 0 && y > 0 && x < self.width - 1 && y < self.height - 1
    }

    /// Whether food may be placed at `(x, y)`: inside the border and off
    /// every body cell.
    pub fn is_free(&self, x: i32, y: i32) -> (r: bool)
        requires
            self@.inv(),
        ensures
            r == self@.free(Coordinate { x, y }),
    {
        x > 0 && y > 0 && x < self.width - 1 && y < self.height - 1 && !self.snake.occupies(x, y)
    }

    /// The first free cell, column by column, or `None` if the snake fills
    /// the whole inside of the arena.
    pub fn first_free_cell(&self) -> (r: Option<Coordinate>)
        requires
            self@.inv(),
        ensures
            self@.spawn_ok(r),
            r matches Some(c) ==> forall|c2: Coordinate| #[trigger]
                self@.free(c2) ==> c2.x > c.x || (c2.x == c.x && c2.y >= c.y),
    {
        let mut x: i32 = 1;
        while x < self.width - 1
            invariant
                self@.inv(),
                1 <= x <= self.width - 1,
                forall|c: Coordinate| #[trigger]
                    self@.free(c) ==> c.x >= x,
            decreases self.width - x,
        {
            let mut y: i32 = 1;
            while y < self.height - 1
                invariant
                    self@.inv(),
                    1 <= x < self.width - 1,
                    1 <= y <= self.height - 1,
                    forall|c: Coordinate| #[trigger]
                        self@.free(c) ==> c.x > x || (c.x == x && c.y >= y),
                decreases self.height - y,
            {
                if !self.snake.occupies(x, y) {
                    return Some(Coordinate { x, y });
                }
                y += 1;
            }
            x += 1;
        }
        None
    }

    /// A random cell strictly inside the border.
    fn rng_gen_range(&self) -> (r: (i32, i32))
        requires
            self@.inv(),
        ensures
            self@.interior(Coordinate { x: r.0, y: r.1 }),
    {
        (gen_range(1, self.width - 1), gen_range(1, self.height - 1))
    }

    /// Puts the food at `(x, y)` if that cell is free, and says whether it
    /// did; otherwise nothing changes. Any source of cells may drive this.
    pub fn place_food(&mut self, x: i32, y: i32) -> (r: bool)
        requires
            old(self)@.inv(),
        ensures
            r == old(self)@.free(Coordinate { x, y }),
            r ==> final(self)@ == (GameView { food: Some(Coordinate { x, y }), ..old(self)@ }),
            !r ==> final(self)@ == old(self)@,
    {
        if self.is_free(x, y) {
            self.food = Some(Coordinate { x, y });
            true
        } else {
            false
        }
    }

    /// Places food on a free cell: random cells are tried up to
    /// `SPAWN_ATTEMPTS` times, then the board is scanned in order. The food
    /// stays absent only when no cell is free. Nothing else changes.
    pub fn food_add(&mut self)
        requires
            old(self)@.inv(),
        ensures
            old(self)@.spawn_ok(final(self)@.food),
            final(self)@ == (GameView { food: final(self)@.food, ..old(self)@ }),
    {
        let mut attempt: u32 = 0;
        while attempt < SPAWN_ATTEMPTS
            invariant
                self@ == old(self)@,
                self@.inv(),
            decreases SPAWN_ATTEMPTS - attempt,
        {
            let (x, y) = self.rng_gen_range();
            if self.place_food(x, y) {
                return;
            }
            attempt += 1;
        }
        self.food = self.first_free_cell();
    }

    /// The snake.
    pub fn snake(&self) -> (r: &Snake)
        ensures
            r@ == self@.snake,
    {
        &self.snake
    }

    /// The food, if any is on the board.
    pub fn food(&self) -> (r: Option<Coordinate>)
        ensures
            r == self@.food,
    {
        self.food
    }

    /// The state of the game and its clock.
    pub fn phase(&self) -> (r: Phase)
        ensures
            r == self@.phase,
    {
        self.phase
    }

    /// Whether the game is lost.
    pub fn is_game_over(&self) -> (r: bool)
        ensures
            r == self@.is_over(),
    {
        match self.phase {
            Phase::Over { .. } => true,
            Phase::Running { .. } => false,
        }
    }

    /// Width of the arena, border included.
    pub fn width(&self) -> (r: i32)
        ensures
            r == self@.width,
    {
        self.width
    }

    /// Height of the arena, border included.
    pub fn height(&self) -> (r: i32)
        ensures
            r == self@.height,
    {
        self.height
    }
}

} // verus!

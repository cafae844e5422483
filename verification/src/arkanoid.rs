//! The rules of a brick-breaking game: a paddle at the bottom of the
//! window, a ball that bounces off walls, paddle and bricks, and a wall of
//! bricks that each take one hit.
//!
//! Lengths are in thousandths of a pixel, velocities in the same units per
//! frame, so that a ball can travel at any angle on integer coordinates.

use crate::collision::{resolve_collision, resolved_rect, resolved_velocity};
use crate::geometry::{clamped, div_toward_zero, overlapping, quotient_toward_zero};
use crate::geometry::{Rect, RectModel, Velocity, VelocityModel};
use crate::random::random_usize;
use vstd::prelude::*;

verus! {

/// Length units in one pixel.
pub const UNIT: i32 = 1000;

/// 800 pixels.
pub const WINDOW_WIDTH: i32 = 800_000;

/// 600 pixels.
pub const WINDOW_HEIGHT: i32 = 600_000;

/// 150 pixels.
pub const PADDLE_WIDTH: i32 = 150_000;

/// 20 pixels.
pub const PADDLE_HEIGHT: i32 = 20_000;

/// How far the paddle moves in a frame while a key is held: 10 pixels.
pub const PADDLE_SPEED: i32 = 10_000;

/// Side of the square ball: 15 pixels.
pub const BALL_SIZE: i32 = 15_000;

/// How far the ball travels in a frame: 5 pixels.
pub const BALL_SPEED: i32 = 5_000;

/// 80 pixels.
pub const BRICK_WIDTH: i32 = 80_000;

/// 30 pixels.
pub const BRICK_HEIGHT: i32 = 30_000;

/// Rows of bricks in the wall.
pub const BRICK_ROWS: usize = 5;

/// Bricks in each row of the wall.
pub const BRICK_COLS: usize = 8;

/// Space between neighbouring bricks: 5 pixels.
pub const BRICK_GAP: i32 = 5_000;

/// Distance of the paddle's top edge from the bottom of the window: 40
/// pixels.
pub const PADDLE_Y_OFFSET: i32 = 40_000;

/// A ball whose top edge is below this line is lost: 20 pixels above the
/// bottom of the window.
pub const BOTTOM_BOUNDARY: i32 = 580_000;

/// Left edge of the first column of bricks: 62.5 pixels. The wall of eight
/// bricks and seven gaps is 675 pixels wide and centred in the window.
pub const BRICKS_LEFT: i32 = 62_500;

/// Top edge of the first row of bricks: 50 pixels below the top of the
/// window.
pub const BRICKS_TOP: i32 = 50_000;

/// The paddle that the player moves along the bottom of the window.
#[derive(Clone, Copy, Debug, PartialEq, Eq, Structural)]
pub struct Paddle {
    pub rect: Rect,
}

/// Where a new paddle lies: centred, above the bottom of the window.
pub open spec fn paddle_start() -> RectModel {
    RectModel {
        x: WINDOW_WIDTH / 2 - PADDLE_WIDTH / 2,
        y: WINDOW_HEIGHT - PADDLE_Y_OFFSET,
        w: PADDLE_WIDTH as int,
        h: PADDLE_HEIGHT as int,
    }
}

/// How far the paddle is asked to move in a frame: one step left or right
/// when exactly one of the two keys is held, else not at all.
pub open spec fn paddle_shift(left: bool, right: bool) -> int {
    if left && !right {
        -PADDLE_SPEED
    } else if right && !left {
        PADDLE_SPEED as int
    } else {
        0
    }
}

impl Paddle {
    /// A paddle where it starts; see [`paddle_start`].
    pub fn new() -> (p: Paddle)
        ensures
            p.rect@ == paddle_start(),
    {
        Paddle {
            rect: Rect::new(
                WINDOW_WIDTH / 2 - PADDLE_WIDTH / 2,
                WINDOW_HEIGHT - PADDLE_Y_OFFSET,
                PADDLE_WIDTH,
                PADDLE_HEIGHT,
            ),
        }
    }

    /// Moves the paddle by one step in the direction of the key held, and
    /// keeps it inside the window.
    pub fn update(&mut self, left: bool, right: bool)
        requires
            0 < old(self).rect.w <= WINDOW_WIDTH,
        ensures
            final(self).rect@ == (RectModel {
                x: clamped(
                    old(self).rect.x + paddle_shift(left, right),
                    0,
                    WINDOW_WIDTH - old(self).rect.w,
                ),
                ..old(self).rect@
            }),
    {
        let x_move: i64 = match (left, right) {
            (true, false) => -(PADDLE_SPEED as i64),
            (false, true) => PADDLE_SPEED as i64,
            _ => 0,
        };
        let x: i64 = self.rect.x as i64 + x_move;
        let limit: i64 = WINDOW_WIDTH as i64 - self.rect.w as i64;
        self.rect.x = if x < 0 {
            0
        } else if x > limit {
            limit as i32
        } else {
            x as i32
        };
    }
}

/// The mathematical model of a ball: where it is and how it moves.
pub struct BallModel {
    pub rect: RectModel,
    pub vel: VelocityModel,
}

/// The left edge of a rectangle of width `w` that is centred on the paddle
/// `p`. An odd difference of the widths is halved toward zero.
pub open spec fn centred_x(p: RectModel, w: int) -> int {
    p.x + quotient_toward_zero(p.w - w, 2)
}

/// Where a new ball lies: at rest, centred on top of the paddle `p`.
pub open spec fn ball_start(p: RectModel) -> BallModel {
    BallModel {
        rect: RectModel {
            x: centred_x(p, BALL_SIZE as int),
            y: p.y - BALL_SIZE,
            w: BALL_SIZE as int,
            h: BALL_SIZE as int,
        },
        vel: VelocityModel { x: 0, y: 0 },
    }
}

impl BallModel {
    /// Position and velocity can be stored in `i32`.
    pub open spec fn fits(self) -> bool {
        self.rect.fits() && self.vel.fits()
    }

    /// The ball one frame later, before any collision is looked at.
    ///
    /// A ball that waits to be launched follows the paddle `p`. A ball in
    /// flight moves by its velocity; then, one after the other, the left
    /// wall, the right wall and the ceiling each put a ball that has
    /// crossed them back onto the wall and reverse the velocity component
    /// toward it. There is no floor.
    pub open spec fn advanced(self, p: RectModel, waiting: bool) -> BallModel {
        if waiting {
            BallModel { rect: RectModel { x: centred_x(p, self.rect.w), ..self.rect }, ..self }
        } else {
            let x1 = self.rect.x + self.vel.x;
            let y1 = self.rect.y + self.vel.y;
            let past_left = x1 < 0;
            let x2 = if past_left { 0 } else { x1 };
            let vx2 = if past_left { -self.vel.x } else { self.vel.x };
            let past_right = x2 > WINDOW_WIDTH - self.rect.w;
            let x3 = if past_right { WINDOW_WIDTH - self.rect.w } else { x2 };
            let vx3 = if past_right { -vx2 } else { vx2 };
            let past_top = y1 < 0;
            let y2 = if past_top { 0 } else { y1 };
            let vy2 = if past_top { -self.vel.y } else { self.vel.y };
            BallModel {
                rect: RectModel { x: x3, y: y2, ..self.rect },
                vel: VelocityModel { x: vx3, y: vy2 },
            }
        }
    }
}

/// The ball: a square that moves by its velocity in each frame.
#[derive(Clone, Copy, Debug, PartialEq, Eq, Structural)]
pub struct Ball {
    pub rect: Rect,
    pub vel: Velocity,
}

impl View for Ball {
    type V = BallModel;

    open spec fn view(&self) -> BallModel {
        BallModel { rect: self.rect@, vel: self.vel@ }
    }
}

impl Ball {
    /// A ball at rest, centred on top of `paddle`.
    pub fn new(paddle: &Paddle) -> (b: Ball)
        requires
            ball_start(paddle.rect@).fits(),
        ensures
            b@ == ball_start(paddle.rect@),
    {
        let x: i64 = paddle.rect.x as i64 + div_toward_zero(
            paddle.rect.w as i64 - BALL_SIZE as i64,
            2,
        );
        Ball {
            rect: Rect::new(x as i32, paddle.rect.y - BALL_SIZE, BALL_SIZE, BALL_SIZE),
            vel: Velocity::new(0, 0),
        }
    }

    /// Advances the ball by one frame; see [`BallModel::advanced`].
    pub fn update(&mut self, paddle: &Paddle, waiting_to_start: bool)
        requires
            old(self)@.advanced(paddle.rect@, waiting_to_start).fits(),
        ensures
            final(self)@ == old(self)@.advanced(paddle.rect@, waiting_to_start),
    {
        if waiting_to_start {
            let x: i64 = paddle.rect.x as i64 + div_toward_zero(
                paddle.rect.w as i64 - self.rect.w as i64,
                2,
            );
            self.rect.x = x as i32;
            return ;
        }
        let mut x: i64 = self.rect.x as i64 + self.vel.x as i64;
        let mut y: i64 = self.rect.y as i64 + self.vel.y as i64;
        let mut vx: i64 = self.vel.x as i64;
        let mut vy: i64 = self.vel.y as i64;
        let limit: i64 = WINDOW_WIDTH as i64 - self.rect.w as i64;

        if x < 0 {
            x = 0;
            vx = -vx;
        }
        if x > limit {
            x = limit;
            vx = -vx;
        }
        if y < 0 {
            y = 0;
            vy = -vy;
        }
        self.rect.x = x as i32;
        self.rect.y = y as i32;
        self.vel.x = vx as i32;
        self.vel.y = vy as i32;
    }

    /// Sets the ball in motion with velocity `vel`.
    pub fn launch(&mut self, vel: Velocity)
        ensures
            final(self).vel == vel,
            final(self).rect == old(self).rect,
    {
        self.vel = vel;
    }
}

/// The colour of a brick: red, green and blue.
#[derive(Clone, Copy, Debug, PartialEq, Eq, Structural)]
pub struct Shade {
    pub r: u8,
    pub g: u8,
    pub b: u8,
}

impl Shade {
    /// A colour that a new brick may get: no component is darker than 100,
    /// and none is 255.
    pub open spec fn is_brick_shade(self) -> bool {
        &&& 100 <= self.r < 255
        &&& 100 <= self.g < 255
        &&& 100 <= self.b < 255
    }
}

/// A brick of the wall. It stands while its health is positive.
#[derive(Clone, Copy, Debug, PartialEq, Eq, Structural)]
pub struct Brick {
    pub rect: Rect,
    pub color: Shade,
    pub health: i32,
}

/// Where the brick in row `row` and column `col` of the wall lies.
pub open spec fn brick_place(row: int, col: int) -> RectModel {
    RectModel {
        x: BRICKS_LEFT + col * (BRICK_WIDTH + BRICK_GAP),
        y: BRICKS_TOP + row * (BRICK_HEIGHT + BRICK_GAP),
        w: BRICK_WIDTH as int,
        h: BRICK_HEIGHT as int,
    }
}

/// `bricks` is a complete wall of untouched bricks, row after row.
pub open spec fn is_fresh_wall(bricks: Seq<Brick>) -> bool {
    &&& bricks.len() == BRICK_ROWS * BRICK_COLS
    &&& forall|i: int|
        0 <= i < bricks.len() ==> {
            &&& (#[trigger] bricks[i]).rect@ == brick_place(i / 8, i % 8)
            &&& bricks[i].health == 1
            &&& bricks[i].color.is_brick_shade()
        }
}

impl Brick {
    /// An untouched brick of colour `color` with its top-left corner at
    /// `(x, y)`.
    pub fn with_color(x: i32, y: i32, color: Shade) -> (b: Brick)
        ensures
            b == (Brick { rect: Rect { x, y, w: BRICK_WIDTH, h: BRICK_HEIGHT }, color, health: 1 }),
    {
        Brick { rect: Rect::new(x, y, BRICK_WIDTH, BRICK_HEIGHT), color, health: 1 }
    }

    /// An untouched brick with its top-left corner at `(x, y)`, in a colour
    /// drawn at random.
    pub fn new(x: i32, y: i32) -> (b: Brick)
        ensures
            b.rect == (Rect { x, y, w: BRICK_WIDTH, h: BRICK_HEIGHT }),
            b.health == 1,
            b.color.is_brick_shade(),
    {
        let r = random_usize(100, 255) as u8;
        let g = random_usize(100, 255) as u8;
        let b = random_usize(100, 255) as u8;
        Brick::with_color(x, y, Shade { r, g, b })
    }

    /// Whether the brick still stands.
    pub fn is_alive(&self) -> (alive: bool)
        ensures
            alive == (self.health > 0),
    {
        self.health > 0
    }
}

/// Builds the wall of bricks, row after row, each brick in a colour drawn
/// at random.
pub fn create_bricks() -> (bricks: Vec<Brick>)
    ensures
        is_fresh_wall(bricks@),
{
    let mut bricks: Vec<Brick> = Vec::new();
    let mut row: usize = 0;
    while row < BRICK_ROWS
        invariant
            row <= BRICK_ROWS,
            bricks@.len() == row * 8,
            forall|i: int|
                0 <= i < bricks@.len() ==> {
                    &&& (#[trigger] bricks@[i]).rect@ == brick_place(i / 8, i % 8)
                    &&& bricks@[i].health == 1
                    &&& bricks@[i].color.is_brick_shade()
                },
        decreases BRICK_ROWS - row,
    {
        let mut col: usize = 0;
        while col < BRICK_COLS
            invariant
                row < BRICK_ROWS,
                col <= BRICK_COLS,
                bricks@.len() == row * 8 + col,
                forall|i: int|
                    0 <= i < bricks@.len() ==> {
                        &&& (#[trigger] bricks@[i]).rect@ == brick_place(i / 8, i % 8)
                        &&& bricks@[i].health == 1
                        &&& bricks@[i].color.is_brick_shade()
                    },
            decreases BRICK_COLS - col,
        {
            assert(col * (BRICK_WIDTH + BRICK_GAP) == col * 85_000 && row * (BRICK_HEIGHT
                + BRICK_GAP) == row * 35_000);
            let x: i32 = BRICKS_LEFT + (col as i32) * (BRICK_WIDTH + BRICK_GAP);
            let y: i32 = BRICKS_TOP + (row as i32) * (BRICK_HEIGHT + BRICK_GAP);
            bricks.push(Brick::new(x, y));
            col += 1;
        }
        row += 1;
    }
    bricks
}

/// The fastest that any velocity component of a ball in play gets: a ball
/// that leaves the paddle at its very edge.
pub const MAX_SPEED: i32 = 5_500;

/// Lives at the start of a game.
pub const LIVES: i32 = 3;

/// Points for a hit on a brick.
pub const BRICK_SCORE: i32 = 10;

/// How many bricks of `bricks` have been destroyed.
pub open spec fn dead_count(bricks: Seq<Brick>) -> nat
    decreases bricks.len(),
{
    if bricks.len() == 0 {
        0
    } else {
        dead_count(bricks.drop_last()) + if bricks.last().health <= 0 {
            1nat
        } else {
            0nat
        }
    }
}

/// Every brick of `bricks` has been destroyed.
pub open spec fn all_dead(bricks: Seq<Brick>) -> bool {
    forall|i: int| 0 <= i < bricks.len() ==> (#[trigger] bricks[i]).health <= 0
}

/// `bricks` is a complete wall, each brick in its place, standing or
/// destroyed.
pub open spec fn is_wall(bricks: Seq<Brick>) -> bool {
    &&& bricks.len() == BRICK_ROWS * BRICK_COLS
    &&& forall|i: int|
        0 <= i < bricks.len() ==> {
            &&& (#[trigger] bricks[i]).rect@ == brick_place(i / 8, i % 8)
            &&& 0 <= bricks[i].health <= 1
        }
}

/// The ball `ball` overlaps the standing brick at index `i`.
pub open spec fn hits(ball: BallModel, bricks: Seq<Brick>, i: int) -> bool {
    0 <= i < bricks.len() && bricks[i].health > 0 && overlapping(ball.rect, bricks[i].rect@)
}

/// The first index from `from` on at which the ball hits a brick.
pub open spec fn first_hit_from(ball: BallModel, bricks: Seq<Brick>, from: int) -> Option<int>
    decreases bricks.len() - from,
{
    if from < 0 || from >= bricks.len() {
        None
    } else if hits(ball, bricks, from) {
        Some(from)
    } else {
        first_hit_from(ball, bricks, from + 1)
    }
}

/// What the player does in a frame.
#[derive(Clone, Copy, Debug, PartialEq, Eq, Structural)]
pub struct Input {
    /// The key for moving left is held.
    pub left: bool,
    /// The key for moving right is held.
    pub right: bool,
    /// The key that starts, launches and restarts was pressed in this frame.
    pub space: bool,
    /// The velocity that the ball gets if it is launched in this frame.
    pub launch: Velocity,
}

impl Input {
    /// No component of the launch velocity exceeds the speed of the ball.
    pub open spec fn wf(self) -> bool {
        &&& -BALL_SPEED <= self.launch.x <= BALL_SPEED
        &&& -BALL_SPEED <= self.launch.y <= BALL_SPEED
    }

    /// Whether the launch velocity is within the speed of the ball.
    pub fn is_wf(&self) -> (ok: bool)
        ensures
            ok == self.wf(),
    {
        -BALL_SPEED <= self.launch.x && self.launch.x <= BALL_SPEED && -BALL_SPEED
            <= self.launch.y && self.launch.y <= BALL_SPEED
    }
}

/// The mathematical model of a game.
pub struct GameModel {
    pub paddle: RectModel,
    pub ball: BallModel,
    pub bricks: Seq<Brick>,
    pub game_over: bool,
    pub score: int,
    pub lives: int,
    pub waiting_to_start: bool,
    pub game_won: bool,
}

impl GameModel {
    /// A game as it starts, with the wall `wall`. Whether the game before
    /// it was won is carried along in `game_won`.
    pub open spec fn fresh(wall: Seq<Brick>, game_won: bool) -> GameModel {
        GameModel {
            paddle: paddle_start(),
            ball: ball_start(paddle_start()),
            bricks: wall,
            game_over: false,
            score: 0,
            lives: LIVES as int,
            waiting_to_start: true,
            game_won,
        }
    }

    /// The ball is in flight and the game is on.
    pub open spec fn in_play(self) -> bool {
        !self.game_over && !self.waiting_to_start
    }

    /// First part of a frame: the paddle follows the keys, then the ball
    /// advances. This happens also when the game is over.
    pub open spec fn moved(self, left: bool, right: bool) -> GameModel {
        let paddle = RectModel {
            x: clamped(
                self.paddle.x + paddle_shift(left, right),
                0,
                WINDOW_WIDTH - self.paddle.w,
            ),
            ..self.paddle
        };
        GameModel { paddle, ball: self.ball.advanced(paddle, self.waiting_to_start), ..self }
    }

    /// The horizontal velocity with which a ball at `ball` leaves the
    /// paddle: proportional to the distance between the centre of the ball
    /// and that of the paddle, and equal to the speed of the ball where
    /// that distance is half the width of the paddle.
    pub open spec fn deflection(ball: RectModel, paddle: RectModel) -> int {
        quotient_toward_zero(
            ((2 * ball.x + ball.w) - (2 * paddle.x + paddle.w)) * BALL_SPEED,
            paddle.w,
        )
    }

    /// The ball is resolved against the paddle. On a hit the horizontal
    /// velocity is replaced by the deflection at the corrected position.
    pub open spec fn bounced(self) -> GameModel {
        if overlapping(self.ball.rect, self.paddle) {
            let rect = resolved_rect(self.ball.rect, self.ball.vel, self.paddle);
            let vel = resolved_velocity(self.ball.rect, self.ball.vel, self.paddle);
            GameModel {
                ball: BallModel {
                    rect,
                    vel: VelocityModel { x: Self::deflection(rect, self.paddle), ..vel },
                },
                ..self
            }
        } else {
            self
        }
    }

    /// The ball is resolved against the first standing brick that it
    /// overlaps, in the order of the wall. That brick loses its health and
    /// the hit is scored; no other brick is looked at in this frame.
    pub open spec fn struck(self) -> GameModel {
        match first_hit_from(self.ball, self.bricks, 0) {
            None => self,
            Some(i) => {
                let brick = self.bricks[i];
                GameModel {
                    ball: BallModel {
                        rect: resolved_rect(self.ball.rect, self.ball.vel, brick.rect@),
                        vel: resolved_velocity(self.ball.rect, self.ball.vel, brick.rect@),
                    },
                    bricks: self.bricks.update(i, Brick { health: (brick.health - 1) as i32, ..brick }),
                    score: self.score + BRICK_SCORE,
                    ..self
                }
            },
        }
    }

    /// A ball whose top edge is below the bottom boundary costs a life.
    /// With the last life the game is lost; otherwise a new ball waits on
    /// the paddle.
    pub open spec fn ball_judged(self) -> GameModel {
        if self.ball.rect.y > BOTTOM_BOUNDARY {
            if self.lives - 1 <= 0 {
                GameModel { lives: self.lives - 1, game_over: true, game_won: false, ..self }
            } else {
                GameModel {
                    lives: self.lives - 1,
                    waiting_to_start: true,
                    ball: ball_start(self.paddle),
                    ..self
                }
            }
        } else {
            self
        }
    }

    /// With every brick destroyed the game is over and won, also when the
    /// last ball was lost in the same frame.
    pub open spec fn wall_judged(self) -> GameModel {
        if all_dead(self.bricks) {
            GameModel { game_over: true, game_won: true, ..self }
        } else {
            self
        }
    }

    /// The state before the start key is looked at.
    pub open spec fn played(self, left: bool, right: bool) -> GameModel {
        let g = self.moved(left, right);
        if g.in_play() {
            g.bounced().struck().ball_judged().wall_judged()
        } else {
            g
        }
    }

    /// The start key restarts a game that is over, with the wall `wall`,
    /// and launches a ball that waits with velocity `launch`. It does
    /// nothing while the ball is in flight.
    pub open spec fn keyed(self, space: bool, launch: VelocityModel, wall: Seq<Brick>) -> GameModel {
        if !space {
            self
        } else if self.game_over {
            Self::fresh(wall, self.game_won)
        } else if self.waiting_to_start {
            GameModel {
                waiting_to_start: false,
                ball: BallModel { vel: launch, ..self.ball },
                ..self
            }
        } else {
            self
        }
    }

    /// The game one frame later, `wall` being the wall that a restart
    /// builds.
    pub open spec fn stepped(self, input: Input, wall: Seq<Brick>) -> GameModel {
        self.played(input.left, input.right).keyed(input.space, input.launch@, wall)
    }

    /// What holds of a game between frames.
    ///
    /// Paddle and ball have their sizes; the paddle lies in its row inside
    /// the window; the ball is not left of, right of or above the window
    /// by more than its own size, and no faster than a ball gets; the wall
    /// is complete; ten points are scored for each brick destroyed; and
    /// a game with no life left is over.
    pub open spec fn wf(self) -> bool {
        &&& self.paddle.y == WINDOW_HEIGHT - PADDLE_Y_OFFSET
        &&& self.paddle.w == PADDLE_WIDTH
        &&& self.paddle.h == PADDLE_HEIGHT
        &&& 0 <= self.paddle.x <= WINDOW_WIDTH - PADDLE_WIDTH
        &&& self.ball.rect.w == BALL_SIZE
        &&& self.ball.rect.h == BALL_SIZE
        &&& -BALL_SIZE <= self.ball.rect.x <= WINDOW_WIDTH
        &&& 0 <= self.ball.rect.y
        &&& -MAX_SPEED <= self.ball.vel.x <= MAX_SPEED
        &&& -BALL_SPEED <= self.ball.vel.y <= BALL_SPEED
        &&& is_wall(self.bricks)
        &&& self.score == BRICK_SCORE * dead_count(self.bricks)
        &&& 0 <= self.lives <= LIVES
        &&& self.lives == 0 ==> self.game_over
    }

    /// The ball can advance by a frame without leaving the range of the
    /// coordinates. Only a ball that keeps falling after the game has
    /// ended ever gets that far.
    pub open spec fn can_advance(self) -> bool {
        self.waiting_to_start || self.ball.rect.y + self.ball.vel.y <= i32::MAX
    }
}

/// A game: the pieces, the score, the lives left, and how far the game
/// has come.
#[derive(Debug)]
pub struct Game {
    pub paddle: Paddle,
    pub ball: Ball,
    pub bricks: Vec<Brick>,
    pub game_over: bool,
    pub score: i32,
    pub lives: i32,
    pub waiting_to_start: bool,
    pub game_won: bool,
}

impl View for Game {
    type V = GameModel;

    open spec fn view(&self) -> GameModel {
        GameModel {
            paddle: self.paddle.rect@,
            ball: self.ball@,
            bricks: self.bricks@,
            game_over: self.game_over,
            score: self.score as int,
            lives: self.lives as int,
            waiting_to_start: self.waiting_to_start,
            game_won: self.game_won,
        }
    }
}

/// A wall of untouched bricks is a wall with no brick destroyed.
pub proof fn lemma_fresh_wall(bricks: Seq<Brick>)
    requires
        is_fresh_wall(bricks),
    ensures
        is_wall(bricks),
        dead_count(bricks) == 0,
        !all_dead(bricks),
{
    lemma_none_dead(bricks);
    assert(bricks[0].health == 1);
}

proof fn lemma_none_dead(bricks: Seq<Brick>)
    requires
        forall|i: int| 0 <= i < bricks.len() ==> (#[trigger] bricks[i]).health > 0,
    ensures
        dead_count(bricks) == 0,
    decreases bricks.len(),
{
    if bricks.len() > 0 {
        lemma_none_dead(bricks.drop_last());
    }
}

/// The first hit from `from` on is the least index from there on at which
/// the ball hits a brick, and there is none exactly when the ball hits no
/// brick from there on.
pub proof fn lemma_first_hit_is_least(ball: BallModel, bricks: Seq<Brick>, from: int)
    requires
        0 <= from,
    ensures
        match first_hit_from(ball, bricks, from) {
            Some(i) => {
                &&& from <= i
                &&& hits(ball, bricks, i)
                &&& forall|j: int| from <= j < i ==> !hits(ball, bricks, j)
            },
            None => forall|j: int| from <= j ==> !hits(ball, bricks, j),
        },
    decreases bricks.len() - from,
{
    if from < bricks.len() && !hits(ball, bricks, from) {
        lemma_first_hit_is_least(ball, bricks, from + 1);
    }
}

/// No more bricks are destroyed than there are.
pub proof fn lemma_dead_count_bound(bricks: Seq<Brick>)
    ensures
        dead_count(bricks) <= bricks.len(),
    decreases bricks.len(),
{
    if bricks.len() > 0 {
        lemma_dead_count_bound(bricks.drop_last());
    }
}

/// Destroying a standing brick raises the number of destroyed bricks by
/// one.
pub proof fn lemma_dead_count_update(bricks: Seq<Brick>, i: int, brick: Brick)
    requires
        0 <= i < bricks.len(),
        bricks[i].health > 0,
        brick.health <= 0,
    ensures
        dead_count(bricks.update(i, brick)) == dead_count(bricks) + 1,
    decreases bricks.len(),
{
    let changed = bricks.update(i, brick);
    if i == bricks.len() - 1 {
        assert(changed.drop_last() == bricks.drop_last());
    } else {
        assert(changed.drop_last() == bricks.drop_last().update(i, brick));
        lemma_dead_count_update(bricks.drop_last(), i, brick);
    }
}

impl Game {
    /// What holds of a game between frames; see [`GameModel::wf`].
    pub open spec fn wf(&self) -> bool {
        self@.wf()
    }

    /// A game as it starts: the ball waits on the paddle, the wall is
    /// untouched, nothing is scored.
    pub fn new() -> (g: Game)
        ensures
            g@ == GameModel::fresh(g.bricks@, false),
            is_fresh_wall(g.bricks@),
            g.wf(),
    {
        let paddle = Paddle::new();
        let ball = Ball::new(&paddle);
        let bricks = create_bricks();
        proof {
            lemma_fresh_wall(bricks@);
        }
        Game {
            paddle,
            ball,
            bricks,
            game_over: false,
            score: 0,
            lives: LIVES,
            waiting_to_start: true,
            game_won: false,
        }
    }
}

impl GameModel {
    /// The start key, pressed in a frame that ends with the game over,
    /// restarts the game.
    pub open spec fn restarts(self, input: Input) -> bool {
        input.space && self.played(input.left, input.right).game_over
    }
}

impl Game {
    /// Counts the bricks that have been destroyed and checks the wall:
    /// `None` unless the wall is complete, with each brick in its place.
    fn survey_wall(&self) -> (dead: Option<usize>)
        ensures
            dead is Some <==> is_wall(self.bricks@),
            dead matches Some(n) ==> n == dead_count(self.bricks@) && n <= 40,
    {
        if self.bricks.len() != BRICK_ROWS * BRICK_COLS {
            return None;
        }
        let mut dead: usize = 0;
        let mut i: usize = 0;
        while i < self.bricks.len()
            invariant
                self.bricks@.len() == 40,
                i <= self.bricks@.len(),
                dead <= i,
                dead == dead_count(self.bricks@.take(i as int)),
                forall|j: int|
                    0 <= j < i ==> {
                        &&& (#[trigger] self.bricks@[j]).rect@ == brick_place(j / 8, j % 8)
                        &&& 0 <= self.bricks@[j].health <= 1
                    },
            decreases self.bricks@.len() - i,
        {
            let brick = self.bricks[i];
            let row: i32 = (i / 8) as i32;
            let col: i32 = (i % 8) as i32;
            assert(col * (BRICK_WIDTH + BRICK_GAP) == col * 85_000 && row * (BRICK_HEIGHT
                + BRICK_GAP) == row * 35_000);
            let x: i32 = BRICKS_LEFT + col * (BRICK_WIDTH + BRICK_GAP);
            let y: i32 = BRICKS_TOP + row * (BRICK_HEIGHT + BRICK_GAP);
            if brick.rect.x != x || brick.rect.y != y || brick.rect.w != BRICK_WIDTH
                || brick.rect.h != BRICK_HEIGHT || brick.health < 0 || brick.health > 1 {
                return None;
            }
            assert(self.bricks@.take(i + 1).drop_last() == self.bricks@.take(i as int));
            if brick.health <= 0 {
                dead += 1;
            }
            i += 1;
        }
        assert(self.bricks@.take(i as int) == self.bricks@);
        Some(dead)
    }

    /// Whether the game is well formed; see [`GameModel::wf`].
    pub fn is_wf(&self) -> (ok: bool)
        ensures
            ok == self.wf(),
    {
        let pieces_ok = self.paddle.rect.y == WINDOW_HEIGHT - PADDLE_Y_OFFSET && self.paddle.rect.w
            == PADDLE_WIDTH && self.paddle.rect.h == PADDLE_HEIGHT && 0 <= self.paddle.rect.x
            && self.paddle.rect.x <= WINDOW_WIDTH - PADDLE_WIDTH && self.ball.rect.w == BALL_SIZE
            && self.ball.rect.h == BALL_SIZE && -BALL_SIZE <= self.ball.rect.x && self.ball.rect.x
            <= WINDOW_WIDTH && 0 <= self.ball.rect.y && -MAX_SPEED <= self.ball.vel.x
            && self.ball.vel.x <= MAX_SPEED && -BALL_SPEED <= self.ball.vel.y && self.ball.vel.y
            <= BALL_SPEED;
        let lives_ok = 0 <= self.lives && self.lives <= LIVES && (self.lives != 0
            || self.game_over);
        if !pieces_ok || !lives_ok {
            return false;
        }
        match self.survey_wall() {
            None => false,
            Some(dead) => {
                assert(BRICK_SCORE * dead == 10 * dead);
                self.score as i64 == (BRICK_SCORE as i64) * (dead as i64)
            },
        }
    }

    /// Whether [`Game::step`] may be called with `input`.
    pub fn can_step(&self, input: &Input) -> (ok: bool)
        ensures
            ok == (self.wf() && input.wf() && self@.can_advance()),
    {
        self.is_wf() && input.is_wf() && (self.waiting_to_start || self.ball.rect.y as i64
            + self.ball.vel.y as i64 <= i32::MAX as i64)
    }

    /// Paddle and ball make their moves of the frame.
    fn move_pieces(&mut self, left: bool, right: bool)
        requires
            old(self).wf(),
            old(self)@.can_advance(),
        ensures
            final(self)@ == old(self)@.moved(left, right),
            final(self).wf(),
    {
        self.paddle.update(left, right);
        self.ball.update(&self.paddle, self.waiting_to_start);
    }

    /// Resolves the ball against the paddle and deflects it on a hit.
    fn bounce_off_paddle(&mut self)
        requires
            old(self).wf(),
        ensures
            final(self)@ == old(self)@.bounced(),
            final(self).wf(),
    {
        if resolve_collision(&mut self.ball.rect, &mut self.ball.vel, &self.paddle.rect) {
            let offset: i64 = (2 * (self.ball.rect.x as i64) + self.ball.rect.w as i64) - (2 * (
            self.paddle.rect.x as i64) + self.paddle.rect.w as i64);
            assert(-165_000 <= offset <= 165_000);
            assert(offset * BALL_SPEED == offset * 5_000);
            let vx: i64 = div_toward_zero(offset * (BALL_SPEED as i64), self.paddle.rect.w as i64);
            self.ball.vel.x = vx as i32;
        }
    }

    /// Resolves the ball against the first standing brick that it overlaps.
    fn strike_brick(&mut self)
        requires
            old(self).wf(),
        ensures
            final(self)@ == old(self)@.struck(),
            final(self).wf(),
    {
        let mut i: usize = 0;
        while i < self.bricks.len()
            invariant
                i <= self.bricks@.len(),
                *self == *old(self),
                self.wf(),
                first_hit_from(self.ball@, self.bricks@, 0) == first_hit_from(
                    self.ball@,
                    self.bricks@,
                    i as int,
                ),
            decreases self.bricks@.len() - i,
        {
            let brick = self.bricks[i];
            if brick.health > 0 {
                if resolve_collision(&mut self.ball.rect, &mut self.ball.vel, &brick.rect) {
                    proof {
                        lemma_dead_count_update(
                            self.bricks@,
                            i as int,
                            Brick { health: (brick.health - 1) as i32, ..brick },
                        );
                        lemma_dead_count_bound(self.bricks@);
                    }
                    self.bricks.set(i, Brick { health: brick.health - 1, ..brick });
                    self.score += BRICK_SCORE;
                    return ;
                }
            }
            i += 1;
        }
    }

    /// Takes a life for a ball that fell below the bottom boundary.
    fn judge_ball(&mut self)
        requires
            old(self).wf(),
            !old(self).game_over,
        ensures
            final(self)@ == old(self)@.ball_judged(),
            final(self).wf(),
    {
        if self.ball.rect.y > BOTTOM_BOUNDARY {
            self.lives -= 1;
            if self.lives <= 0 {
                self.game_over = true;
                self.game_won = false;
            } else {
                self.waiting_to_start = true;
                self.ball = Ball::new(&self.paddle);
            }
        }
    }

    /// Whether every brick has been destroyed.
    pub fn wall_is_down(&self) -> (down: bool)
        ensures
            down == all_dead(self.bricks@),
    {
        let mut i: usize = 0;
        while i < self.bricks.len()
            invariant
                i <= self.bricks@.len(),
                forall|j: int| 0 <= j < i ==> (#[trigger] self.bricks@[j]).health <= 0,
            decreases self.bricks@.len() - i,
        {
            if self.bricks[i].health > 0 {
                return false;
            }
            i += 1;
        }
        true
    }

    /// Ends the game as won when every brick has been destroyed.
    fn judge_wall(&mut self)
        requires
            old(self).wf(),
        ensures
            final(self)@ == old(self)@.wall_judged(),
            final(self).wf(),
    {
        if self.wall_is_down() {
            self.game_over = true;
            self.game_won = true;
        }
    }

    /// Acts on the start key.
    fn press_start(&mut self, space: bool, launch: Velocity)
        requires
            old(self).wf(),
            -BALL_SPEED <= launch.x <= BALL_SPEED,
            -BALL_SPEED <= launch.y <= BALL_SPEED,
        ensures
            final(self)@ == old(self)@.keyed(space, launch@, final(self).bricks@),
            space && old(self).game_over ==> is_fresh_wall(final(self).bricks@),
            final(self).wf(),
    {
        if space {
            if self.game_over {
                self.paddle = Paddle::new();
                self.ball = Ball::new(&self.paddle);
                self.bricks = create_bricks();
                self.game_over = false;
                self.score = 0;
                self.lives = LIVES;
                self.waiting_to_start = true;
                proof {
                    lemma_fresh_wall(self.bricks@);
                }
            } else if self.waiting_to_start {
                self.waiting_to_start = false;
                self.ball.launch(launch);
            }
        }
    }

    /// Plays one frame.
    ///
    /// Paddle and ball move. While the ball is in flight and the game is
    /// on, the ball is then resolved against the paddle and against the
    /// first brick that it hits, a ball that fell out costs a life, and a
    /// wall without bricks wins the game. Last the start key is acted on:
    /// it restarts a game that is over, with a new wall in colours drawn at
    /// random, and launches a ball that waits.
    pub fn step(&mut self, input: &Input)
        requires
            old(self).wf(),
            input.wf(),
            old(self)@.can_advance(),
        ensures
            final(self)@ == old(self)@.stepped(*input, final(self).bricks@),
            old(self)@.restarts(*input) ==> is_fresh_wall(final(self).bricks@),
            final(self).wf(),
    {
        self.move_pieces(input.left, input.right);
        if !self.game_over && !self.waiting_to_start {
            self.bounce_off_paddle();
            self.strike_brick();
            self.judge_ball();
            self.judge_wall();
        }
        self.press_start(input.space, input.launch);
    }
}

} // verus!

use vstd::prelude::*;

use crate::entities::{ball_wf, exploded, Ball, Brick, Wall};
use crate::geometry::{classify, draw_of, overlaps, DrawCommand, Orientation, Rect};

verus! {

/// Gamepad bit for the left direction button.
pub const BUTTON_LEFT: u8 = 16;

/// Gamepad bit for the right direction button.
pub const BUTTON_RIGHT: u8 = 32;

/// Gamepad bit for the up direction button.
pub const BUTTON_UP: u8 = 64;

/// Gamepad bit for the down direction button.
pub const BUTTON_DOWN: u8 = 128;

/// The root aggregate: one paddle, one ball, the 4 border walls (top, left,
/// bottom, right) and the 13 bricks of the fixed initial grid. The wall and
/// brick collections keep their size and slot order for the whole life of
/// the game; a destroyed brick is relocated off-field, never removed.
pub struct Game {
    pub paddle: Rect,
    pub ball: Ball,
    pub walls: Vec<Wall>,
    pub bricks: Vec<Brick>,
}

/// The ball with the velocity component named by `o` negated: a vertical
/// face reflects horizontal motion, a horizontal face vertical motion.
pub open spec fn flip(b: Ball, o: Orientation) -> Ball {
    match o {
        Orientation::Vertical => Ball { dx: (-b.dx) as i32, ..b },
        Orientation::Horizontal => Ball { dy: (-b.dy) as i32, ..b },
    }
}

/// One wall's effect on the ball: reflect the component matching the wall's
/// orientation if the ball overlaps the wall, else leave the ball alone.
pub open spec fn bounce_wall(b: Ball, w: Wall) -> Ball {
    if overlaps(b.model, w.model) {
        flip(b, w.orientation)
    } else {
        b
    }
}

/// All walls applied in storage order, each independently: a ball in a
/// corner can have both components flipped in the same step.
pub open spec fn bounce_walls(b: Ball, walls: Seq<Wall>) -> Ball
    decreases walls.len(),
{
    if walls.len() == 0 {
        b
    } else {
        bounce_wall(bounce_walls(b, walls.drop_last()), walls.last())
    }
}

/// The paddle's effect on the ball: reflect the component matching the
/// classified collision orientation, or nothing without a collision.
pub open spec fn bounce_paddle(b: Ball, paddle: Rect) -> Ball {
    match classify(b.model, paddle) {
        Some(o) => flip(b, o),
        None => b,
    }
}

/// One brick's effect: on a classified collision the brick explodes
/// off-field and the matching velocity component reflects; otherwise both
/// are left alone.
pub open spec fn brick_step(b: Ball, k: Brick) -> (Ball, Brick) {
    match classify(b.model, k.model) {
        Some(o) => (flip(b, o), exploded(k)),
        None => (b, k),
    }
}

/// All bricks processed in storage order, each independently, threading the
/// ball through and keeping every brick in its slot.
pub open spec fn bounce_bricks(b: Ball, bricks: Seq<Brick>) -> (Ball, Seq<Brick>)
    decreases bricks.len(),
{
    if bricks.len() == 0 {
        (b, bricks)
    } else {
        let prev = bounce_bricks(b, bricks.drop_last());
        let st = brick_step(prev.0, bricks.last());
        (st.0, prev.1.push(st.1))
    }
}

/// Wall bounces preserve unit velocity: reflection only negates.
pub proof fn lemma_bounce_walls_keeps_unit_velocity(b: Ball, walls: Seq<Wall>)
    requires
        ball_wf(b),
    ensures
        ball_wf(bounce_walls(b, walls)),
    decreases walls.len(),
{
    if walls.len() > 0 {
        lemma_bounce_walls_keeps_unit_velocity(b, walls.drop_last());
    }
}

/// The brick pass preserves unit velocity: reflection only negates.
pub proof fn lemma_bounce_bricks_keeps_unit_velocity(b: Ball, bricks: Seq<Brick>)
    requires
        ball_wf(b),
    ensures
        ball_wf(bounce_bricks(b, bricks).0),
    decreases bricks.len(),
{
    if bricks.len() > 0 {
        lemma_bounce_bricks_keeps_unit_velocity(b, bricks.drop_last());
    }
}

/// After any single physics step, both ball velocity components remain in
/// {-1, +1}: every reflection only negates a component, never scales or
/// zeroes it, and the final move does not touch the velocity.
pub proof fn lemma_step_keeps_unit_velocity(
    ball: Ball,
    walls: Seq<Wall>,
    paddle: Rect,
    bricks: Seq<Brick>,
)
    requires
        ball_wf(ball),
    ensures
        ball_wf(stepped_ball(ball, walls, paddle, bricks)),
{
    lemma_bounce_walls_keeps_unit_velocity(ball, walls);
    lemma_bounce_bricks_keeps_unit_velocity(bounce_paddle(bounce_walls(ball, walls), paddle), bricks);
}

/// The brick pass keeps every slot: the bricks that come out of
/// `bounce_bricks` are exactly as many as went in.
pub proof fn lemma_bounce_bricks_len(b: Ball, bricks: Seq<Brick>)
    ensures
        bounce_bricks(b, bricks).1.len() == bricks.len(),
    decreases bricks.len(),
{
    if bricks.len() > 0 {
        lemma_bounce_bricks_len(b, bricks.drop_last());
    }
}

/// The ball advanced one step: position moved by its velocity vector.
pub open spec fn advanced(b: Ball) -> Ball {
    Ball { model: Rect { x: (b.model.x + b.dx) as i32, y: (b.model.y + b.dy) as i32, ..b.model }, ..b }
}

/// The ball after a whole physics step: wall bounces, then the paddle
/// bounce, then the brick pass, then one move by the resulting velocity.
pub open spec fn stepped_ball(ball: Ball, walls: Seq<Wall>, paddle: Rect, bricks: Seq<Brick>) -> Ball {
    advanced(bounce_bricks(bounce_paddle(bounce_walls(ball, walls), paddle), bricks).0)
}

/// The bricks after a whole physics step: each slot kept, hit bricks
/// exploded off-field.
pub open spec fn stepped_bricks(
    ball: Ball,
    walls: Seq<Wall>,
    paddle: Rect,
    bricks: Seq<Brick>,
) -> Seq<Brick> {
    bounce_bricks(bounce_paddle(bounce_walls(ball, walls), paddle), bricks).1
}

/// The paddle after one frame of input: each of the four direction bits,
/// independently and not mutually exclusively, shifts it by one unit on its
/// axis.
pub open spec fn shifted_paddle(p: Rect, gamepad: u8) -> Rect {
    let dx = (if gamepad & BUTTON_RIGHT != 0 {
        1int
    } else {
        0int
    }) + (if gamepad & BUTTON_LEFT != 0 {
        -1int
    } else {
        0int
    });
    let dy = (if gamepad & BUTTON_DOWN != 0 {
        1int
    } else {
        0int
    }) + (if gamepad & BUTTON_UP != 0 {
        -1int
    } else {
        0int
    });
    Rect { x: (p.x + dx) as i32, y: (p.y + dy) as i32, ..p }
}

/// Opposite shifts cancel: a frame whose input presses right, left, down
/// and up together leaves the paddle exactly where it was — the net
/// position change is zero.
pub proof fn lemma_opposite_shifts_cancel(p: Rect)
    ensures
        shifted_paddle(p, BUTTON_RIGHT | BUTTON_LEFT | BUTTON_DOWN | BUTTON_UP) == p,
{
    assert((32u8 | 16u8 | 128u8 | 64u8) & 32u8 != 0) by (bit_vector);
    assert((32u8 | 16u8 | 128u8 | 64u8) & 16u8 != 0) by (bit_vector);
    assert((32u8 | 16u8 | 128u8 | 64u8) & 128u8 != 0) by (bit_vector);
    assert((32u8 | 16u8 | 128u8 | 64u8) & 64u8 != 0) by (bit_vector);
    assert(BUTTON_RIGHT | BUTTON_LEFT | BUTTON_DOWN | BUTTON_UP == (32u8 | 16u8 | 128u8 | 64u8));
}

/// The fixed initial paddle: centered, 14 by 14.
pub open spec fn initial_paddle() -> Rect {
    Rect { x: 73, y: 73, width: 14, height: 14, colors: 0x32 }
}

/// The fixed initial ball: 4 by 4 at (80, 30), moving down-right.
pub open spec fn initial_ball() -> Ball {
    Ball { model: Rect { x: 80, y: 30, width: 4, height: 4, colors: 0x32 }, dx: 1, dy: 1 }
}

/// The four border walls of the 160 by 160 field, in storage order: top,
/// left, bottom, right.
pub open spec fn initial_walls() -> Seq<Wall> {
    seq![
        Wall {
            model: Rect { x: 0, y: 0, width: 160, height: 1, colors: 0x4 },
            orientation: Orientation::Horizontal,
        },
        Wall {
            model: Rect { x: 0, y: 0, width: 1, height: 160, colors: 0x4 },
            orientation: Orientation::Vertical,
        },
        Wall {
            model: Rect { x: 0, y: 159, width: 160, height: 1, colors: 0x4 },
            orientation: Orientation::Horizontal,
        },
        Wall {
            model: Rect { x: 159, y: 0, width: 1, height: 160, colors: 0x4 },
            orientation: Orientation::Vertical,
        },
    ]
}

/// A normal-orientation brick on grid cell `(x, y)`.
pub open spec fn normal_brick(x: int, y: int) -> Brick {
    Brick {
        model: Rect { x: (x * 5 + 2) as i32, y: (y * 5 + 2) as i32, width: 9, height: 4, colors: 0x32 },
    }
}

/// A rotated-orientation brick on grid cell `(x, y)`.
pub open spec fn rotated_brick(x: int, y: int) -> Brick {
    Brick {
        model: Rect { x: (x * 5 + 2) as i32, y: (y * 5 + 2) as i32, width: 4, height: 9, colors: 0x32 },
    }
}

/// The 13 bricks of the fixed initial grid, in storage order.
pub open spec fn initial_bricks() -> Seq<Brick> {
    seq![
        normal_brick(0, 0),
        normal_brick(2, 0),
        normal_brick(4, 0),
        rotated_brick(6, 0),
        rotated_brick(7, 0),
        normal_brick(0, 1),
        normal_brick(2, 1),
        normal_brick(4, 1),
        rotated_brick(0, 2),
        rotated_brick(1, 2),
        normal_brick(2, 2),
        normal_brick(4, 2),
        normal_brick(6, 2),
    ]
}

/// What every frame draws, in fixed order: the 4 walls, the 13 bricks
/// (exploded ones included, harmlessly off-screen), the paddle, the ball.
pub open spec fn spec_render(g: Game) -> Seq<DrawCommand> {
    g.walls@.map_values(|w: Wall| draw_of(w.model)) + g.bricks@.map_values(
        |k: Brick| draw_of(k.model),
    ) + seq![draw_of(g.paddle), draw_of(g.ball.model)]
}

impl Game {
    /// Structural well-formedness: exactly 4 walls and 13 bricks in their
    /// fixed slots, and a ball whose velocity components are both +1 or -1.
    pub open spec fn wf(self) -> bool {
        &&& self.walls@.len() == 4
        &&& self.bricks@.len() == 13
        &&& ball_wf(self.ball)
    }

    /// The hard-coded initial layout: border walls around a 160 by 160
    /// field, the 13-brick grid with some bricks rotated, the paddle at the
    /// center and the ball above it moving down-right.
    pub fn new() -> (g: Game)
        ensures
            g.paddle == initial_paddle(),
            g.ball == initial_ball(),
            g.walls@ == initial_walls(),
            g.bricks@ == initial_bricks(),
            g.wf(),
    {
        let mut walls: Vec<Wall> = Vec::new();
        walls.push(
            Wall {
                model: Rect { x: 0, y: 0, width: 160, height: 1, colors: 0x4 },
                orientation: Orientation::Horizontal,
            },
        );
        walls.push(
            Wall {
                model: Rect { x: 0, y: 0, width: 1, height: 160, colors: 0x4 },
                orientation: Orientation::Vertical,
            },
        );
        walls.push(
            Wall {
                model: Rect { x: 0, y: 159, width: 160, height: 1, colors: 0x4 },
                orientation: Orientation::Horizontal,
            },
        );
        walls.push(
            Wall {
                model: Rect { x: 159, y: 0, width: 1, height: 160, colors: 0x4 },
                orientation: Orientation::Vertical,
            },
        );
        let mut bricks: Vec<Brick> = Vec::new();
        bricks.push(Brick::new(0, 0));
        bricks.push(Brick::new(2, 0));
        bricks.push(Brick::new(4, 0));
        bricks.push(Brick::new_vert(6, 0));
        bricks.push(Brick::new_vert(7, 0));
        bricks.push(Brick::new(0, 1));
        bricks.push(Brick::new(2, 1));
        bricks.push(Brick::new(4, 1));
        bricks.push(Brick::new_vert(0, 2));
        bricks.push(Brick::new_vert(1, 2));
        bricks.push(Brick::new(2, 2));
        bricks.push(Brick::new(4, 2));
        bricks.push(Brick::new(6, 2));
        let g = Game {
            paddle: Rect { x: 80 - 7, y: 80 - 7, width: 14, height: 14, colors: 0x32 },
            ball: Ball {
                model: Rect { x: 80, y: 30, width: 4, height: 4, colors: 0x32 },
                dx: 1,
                dy: 1,
            },
            walls,
            bricks,
        };
        proof {
            assert(g.walls@ =~= initial_walls());
            assert(g.bricks@ =~= initial_bricks());
        }
        g
    }

    /// One physics step, in fixed order: every wall the ball overlaps
    /// reflects its matching velocity component; the paddle collision, if
    /// classified, reflects one component; every brick the ball hits
    /// explodes off-field and reflects one component; finally the ball
    /// moves one unit per axis by its resulting velocity. Reflection only
    /// negates, so both velocity components stay in {-1, +1}.
    pub fn update(&mut self)
        requires
            old(self).wf(),
            i32::MIN < old(self).ball.model.x < i32::MAX,
            i32::MIN < old(self).ball.model.y < i32::MAX,
        ensures
            final(self).paddle == old(self).paddle,
            final(self).walls@ == old(self).walls@,
            final(self).ball == stepped_ball(
                old(self).ball,
                old(self).walls@,
                old(self).paddle,
                old(self).bricks@,
            ),
            final(self).bricks@ == stepped_bricks(
                old(self).ball,
                old(self).walls@,
                old(self).paddle,
                old(self).bricks@,
            ),
            final(self).wf(),
    {
        let ghost b_walls = bounce_walls(old(self).ball, old(self).walls@);
        let mut i: usize = 0;
        while i < self.walls.len()
            invariant
                i <= self.walls@.len(),
                self.paddle == old(self).paddle,
                self.walls@ == old(self).walls@,
                self.bricks@ == old(self).bricks@,
                self.ball == bounce_walls(old(self).ball, old(self).walls@.take(i as int)),
                ball_wf(self.ball),
                self.ball.model == old(self).ball.model,
            decreases self.walls@.len() - i,
        {
            if self.ball.model.collides(&self.walls[i].model) {
                match self.walls[i].orientation {
                    Orientation::Vertical => {
                        self.ball.dx = -self.ball.dx;
                    },
                    Orientation::Horizontal => {
                        self.ball.dy = -self.ball.dy;
                    },
                }
            }
            proof {
                let s = old(self).walls@;
                assert(s.take(i as int + 1).drop_last() =~= s.take(i as int));
                assert(s.take(i as int + 1).last() == s[i as int]);
            }
            i += 1;
        }
        proof {
            assert(old(self).walls@.take(old(self).walls@.len() as int) =~= old(self).walls@);
            assert(self.ball == b_walls);
        }
        match self.ball.model.collision(&self.paddle) {
            Some(Orientation::Vertical) => {
                self.ball.dx = -self.ball.dx;
            },
            Some(Orientation::Horizontal) => {
                self.ball.dy = -self.ball.dy;
            },
            None => (),
        }
        let ghost b_paddle = bounce_paddle(b_walls, old(self).paddle);
        proof {
            assert(self.ball == b_paddle);
        }
        let mut new_bricks: Vec<Brick> = Vec::new();
        proof {
            assert(new_bricks@ =~= old(self).bricks@.take(0));
        }
        let mut j: usize = 0;
        while j < self.bricks.len()
            invariant
                j <= self.bricks@.len(),
                self.paddle == old(self).paddle,
                self.walls@ == old(self).walls@,
                self.bricks@ == old(self).bricks@,
                self.ball == bounce_bricks(b_paddle, old(self).bricks@.take(j as int)).0,
                new_bricks@ == bounce_bricks(b_paddle, old(self).bricks@.take(j as int)).1,
                ball_wf(self.ball),
                self.ball.model == old(self).ball.model,
            decreases self.bricks@.len() - j,
        {
            let mut k = self.bricks[j];
            match self.ball.model.collision(&k.model) {
                Some(o) => {
                    k.explode();
                    match o {
                        Orientation::Vertical => {
                            self.ball.dx = -self.ball.dx;
                        },
                        Orientation::Horizontal => {
                            self.ball.dy = -self.ball.dy;
                        },
                    }
                },
                None => (),
            }
            new_bricks.push(k);
            proof {
                let s = old(self).bricks@;
                assert(s.take(j as int + 1).drop_last() =~= s.take(j as int));
                assert(s.take(j as int + 1).last() == s[j as int]);
            }
            j += 1;
        }
        self.bricks = new_bricks;
        proof {
            assert(old(self).bricks@.take(old(self).bricks@.len() as int) =~= old(self).bricks@);
            lemma_bounce_bricks_len(b_paddle, old(self).bricks@);
        }
        let dx = self.ball.dx;
        let dy = self.ball.dy;
        self.ball.model.shift(dx, dy);
    }

    /// One frame of input: for each direction bit set in the gamepad mask,
    /// shift the paddle by one unit on that axis (right, left, down, up, in
    /// that order); then run the physics step.
    pub fn frame(&mut self, gamepad: u8)
        requires
            old(self).wf(),
            i32::MIN < old(self).paddle.x < i32::MAX,
            i32::MIN < old(self).paddle.y < i32::MAX,
            i32::MIN < old(self).ball.model.x < i32::MAX,
            i32::MIN < old(self).ball.model.y < i32::MAX,
        ensures
            final(self).paddle == shifted_paddle(old(self).paddle, gamepad),
            final(self).walls@ == old(self).walls@,
            final(self).ball == stepped_ball(
                old(self).ball,
                old(self).walls@,
                shifted_paddle(old(self).paddle, gamepad),
                old(self).bricks@,
            ),
            final(self).bricks@ == stepped_bricks(
                old(self).ball,
                old(self).walls@,
                shifted_paddle(old(self).paddle, gamepad),
                old(self).bricks@,
            ),
            final(self).wf(),
    {
        if gamepad & BUTTON_RIGHT != 0 {
            self.paddle.shift(1, 0);
        }
        if gamepad & BUTTON_LEFT != 0 {
            self.paddle.shift(-1, 0);
        }
        if gamepad & BUTTON_DOWN != 0 {
            self.paddle.shift(0, 1);
        }
        if gamepad & BUTTON_UP != 0 {
            self.paddle.shift(0, -1);
        }
        proof {
            assert(self.paddle == shifted_paddle(old(self).paddle, gamepad));
        }
        self.update();
    }

    /// The draw requests for one frame, in fixed order: all 4 walls, all 13
    /// bricks (exploded ones draw harmlessly off-screen), the paddle, then
    /// the ball. The host issues each as a color register load followed by
    /// a filled-rectangle draw.
    pub fn render(&self) -> (cmds: Vec<DrawCommand>)
        ensures
            cmds@ == spec_render(*self),
    {
        let mut cmds: Vec<DrawCommand> = Vec::new();
        let mut i: usize = 0;
        while i < self.walls.len()
            invariant
                i <= self.walls@.len(),
                cmds@.len() == i,
                forall|m: int| 0 <= m < i ==> cmds@[m] == draw_of(self.walls@[m].model),
            decreases self.walls@.len() - i,
        {
            cmds.push(self.walls[i].model.render());
            i += 1;
        }
        let n_walls = self.walls.len();
        let mut j: usize = 0;
        while j < self.bricks.len()
            invariant
                j <= self.bricks@.len(),
                n_walls == self.walls@.len(),
                cmds@.len() == n_walls + j,
                forall|m: int| 0 <= m < n_walls ==> cmds@[m] == draw_of(self.walls@[m].model),
                forall|m: int|
                    0 <= m < j ==> cmds@[n_walls + m] == draw_of(self.bricks@[m].model),
            decreases self.bricks@.len() - j,
        {
            cmds.push(self.bricks[j].model.render());
            j += 1;
        }
        cmds.push(self.paddle.render());
        cmds.push(self.ball.model.render());
        proof {
            assert(cmds@ =~= spec_render(*self));
        }
        cmds
    }
}

} // verus!

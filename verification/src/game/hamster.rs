use crate::common::math::{abs, clamp, div_trunc, rem_trunc, signum, trunc_div, trunc_rem};
use crate::common::pt::Pt;
use crate::common::rect::Rect;
use crate::game::gamestate::GRID;
use crate::game::key::{Key, KeyStates};
use crate::game::map::GameMap;
use crate::game::palette::BlockTyp;
use crate::game::texture::Texture;
use vstd::prelude::*;

verus! {

/// Where the hamster is in a jump.
#[derive(Copy, Clone, Debug, PartialEq, Eq, Structural)]
pub enum JumpState {
    Standing,
    JumpingSince(i32),
    Falling,
    Landed,
}

/// Maximum horizontal speed, in pixels per tick.
pub const WALK_PIX_PER_TICK: i32 = 6;

/// Horizontal acceleration, in pixels per tick per tick.
pub const WALK_ACCEL: i32 = 1;

/// When no key is held the hamster coasts on until its centre is a multiple
/// of this many pixels.
pub const WALK_ALIGN: i32 = 32;

/// The longest a jump can rise, in ticks.
pub const JUMP_MAX_TICKS: i32 = 20;

/// The shortest a jump rises, in ticks.
pub const JUMP_MIN_TICKS: i32 = 7;

/// Maximum vertical speed, in pixels per tick.
pub const JUMP_PIX_PER_TICK: i32 = 9;

/// The upward speed at which a jump starts.
pub const JUMP_V_INIT: i32 = 9;

/// By how much falling gets faster each tick.
pub const JUMP_G: i32 = 2;

/// No coordinate of the hamster's top-left corner goes beyond this, in
/// either direction.
pub const WORLD_LIMIT: i32 = 0x2000_0000;

/// The kind of the block that holds pixel (`x`, `y`).
pub open spec fn kind_at(map: GameMap, x: int, y: int) -> BlockTyp {
    map.kinds()[map.blocks().block(trunc_div(x, 64), trunc_div(y, 64)) as int]
}

/// Whether a body of width `w` and height `h` with its top-left corner at
/// `pos` can move by `delta`: the corner stays in the world, none of the
/// body's four corners comes to lie in a brick, and neither bottom corner
/// moves down into a new grid cell that is a ledge.
pub open spec fn can_move_to(map: GameMap, pos: Pt, w: int, h: int, delta: Pt) -> bool {
    let x0 = pos.0 + delta.0;
    let y0 = pos.1 + delta.1;
    let x1 = x0 + w - 1;
    let y1 = y0 + h - 1;
    let old_y1 = pos.1 + h - 1;
    &&& -WORLD_LIMIT <= x0 <= WORLD_LIMIT
    &&& -WORLD_LIMIT <= y0 <= WORLD_LIMIT
    &&& kind_at(map, x0, y0) != BlockTyp::Brick
    &&& kind_at(map, x1, y0) != BlockTyp::Brick
    &&& kind_at(map, x1, y1) != BlockTyp::Brick
    &&& kind_at(map, x0, y1) != BlockTyp::Brick
    &&& !(trunc_div(y1, 64) > trunc_div(old_y1, 64) && kind_at(map, x1, y1) == BlockTyp::Ledge)
    &&& !(trunc_div(y1, 64) > trunc_div(old_y1, 64) && kind_at(map, x0, y1) == BlockTyp::Ledge)
}

/// Where the body's corner is after `n` attempts to move it by `dir`, one
/// after the other, from `pos`: each attempt moves it if it can move.
pub open spec fn slide(map: GameMap, pos: Pt, w: int, h: int, dir: Pt, n: nat) -> Pt
    decreases n,
{
    if n == 0 {
        pos
    } else {
        let p = slide(map, pos, w, h, dir, (n - 1) as nat);
        if can_move_to(map, p, w, h, dir) {
            Pt((p.0 + dir.0) as i32, (p.1 + dir.1) as i32)
        } else {
            p
        }
    }
}

/// The horizontal speed after one tick: braking at once when the keys ask
/// for the other direction, speeding up by one toward the key's direction up
/// to the maximum, and coasting on until the centre `cx` is aligned when no
/// direction is asked for.
pub open spec fn walk_speed(h_speed: int, left: bool, right: bool, cx: int) -> int {
    let keydir: int = if left == right {
        0
    } else if left {
        -1
    } else {
        1
    };
    let currdir: int = if h_speed > 0 {
        1
    } else if h_speed < 0 {
        -1
    } else {
        0
    };
    if currdir * keydir == -1 {
        0
    } else if keydir != 0 {
        let v = h_speed + keydir;
        if v < -6 {
            -6
        } else if v > 6 {
            6
        } else {
            v
        }
    } else if trunc_rem(cx, 32) == 0 {
        0
    } else if trunc_rem(cx, 2) == 1 {
        currdir
    } else {
        currdir * 2
    }
}

/// The jump state and the vertical speed after one tick, given whether the
/// hamster stands on something (`onfeet`), whether the jump key is down
/// (`jumpy`), the time `now`, and whether there is room above (`headroom`).
pub open spec fn jump_step(
    state: JumpState,
    v: int,
    onfeet: bool,
    jumpy: bool,
    now: int,
    headroom: bool,
) -> (JumpState, int) {
    match state {
        JumpState::Standing => {
            if onfeet && jumpy {
                (JumpState::JumpingSince(now as i32), -9)
            } else if !onfeet {
                (JumpState::Falling, v)
            } else {
                (state, v)
            }
        },
        JumpState::JumpingSince(t) => {
            if !headroom {
                (JumpState::Falling, 0)
            } else if now - t > 20 || (!jumpy && now - t > 7) {
                (JumpState::Falling, v)
            } else {
                (state, v)
            }
        },
        JumpState::Falling => {
            if onfeet {
                (JumpState::Landed, 0)
            } else if v <= i32::MAX - 2 {
                (state, v + 2)
            } else {
                (state, v)
            }
        },
        JumpState::Landed => {
            if !onfeet {
                (JumpState::Falling, 0)
            } else if !jumpy {
                (JumpState::Standing, 0)
            } else {
                (state, 0)
            }
        },
    }
}

/// The player's figure: it walks, jumps and falls through the map.
pub struct Hamster {
    pos: Pt,
    v_speed_unclamped: i32,
    jump_state: JumpState,
    h_speed: i32,
    look_left: bool,
    textures: [Texture; 2],
}

impl Hamster {
    /// The top-left corner, in pixels.
    pub closed spec fn spec_pos(&self) -> Pt {
        self.pos
    }

    /// The vertical speed before it is limited; downward is positive.
    pub closed spec fn v_speed(&self) -> int {
        self.v_speed_unclamped as int
    }

    /// The horizontal speed; rightward is positive.
    pub closed spec fn h_speed(&self) -> int {
        self.h_speed as int
    }

    pub closed spec fn jump_state(&self) -> JumpState {
        self.jump_state
    }

    /// Whether the hamster looks to the left.
    pub closed spec fn looks_left(&self) -> bool {
        self.look_left
    }

    /// The two textures with which the hamster is drawn in turn.
    pub closed spec fn frames(&self) -> [Texture; 2] {
        self.textures
    }

    /// The body's width, in pixels.
    pub closed spec fn width(&self) -> int {
        self.textures[0].image().spec_width() as int
    }

    /// The body's height, in pixels.
    pub closed spec fn height(&self) -> int {
        self.textures[0].image().spec_height() as int
    }

    /// What holds of every hamster: it is in the world, its body is not
    /// larger than the world, and it walks no faster than it can.
    pub open spec fn wf(&self) -> bool {
        &&& -WORLD_LIMIT <= self.spec_pos().0 <= WORLD_LIMIT
        &&& -WORLD_LIMIT <= self.spec_pos().1 <= WORLD_LIMIT
        &&& 0 <= self.width() <= WORLD_LIMIT
        &&& 0 <= self.height() <= WORLD_LIMIT
        &&& -6 <= self.h_speed() <= 6
    }

    /// Whether the hamster can move by `delta` in `map`.
    pub open spec fn can_move_by(&self, map: GameMap, delta: Pt) -> bool {
        can_move_to(map, self.spec_pos(), self.width(), self.height(), delta)
    }

    /// The vertical speed limited to what a tick can move.
    pub open spec fn v_delta(&self) -> int {
        if self.v_speed() < -9 {
            -9
        } else if self.v_speed() > 9 {
            9
        } else {
            self.v_speed()
        }
    }

    /// The x coordinate of the body's centre.
    pub open spec fn center_x(&self) -> int {
        trunc_div(2 * self.spec_pos().0 + self.width(), 2)
    }

    /// Whether `after` is what one tick at time `now` makes of `before` in
    /// `map`, with the keys for left, right and jumping as given: the jump
    /// state and the vertical speed take their step, then the horizontal
    /// speed, then the direction it looks in, and last it moves, first
    /// sideways and then up or down, pixel by pixel as far as it can.
    pub open spec fn ticked(
        before: Hamster,
        after: Hamster,
        map: GameMap,
        now: int,
        left: bool,
        right: bool,
        jump: bool,
    ) -> bool {
        &&& after.wf()
        &&& after.width() == before.width()
        &&& after.height() == before.height()
        &&& after.frames() == before.frames()
        &&& (after.jump_state(), after.v_speed()) == jump_step(
            before.jump_state(),
            before.v_speed(),
            !before.can_move_by(map, Pt(0, 1)),
            jump,
            now,
            before.can_move_by(map, Pt(0, -1i32)),
        )
        &&& after.h_speed() == walk_speed(before.h_speed(), left, right, before.center_x())
        &&& after.looks_left() == if left != right {
            left
        } else {
            before.looks_left()
        }
        &&& after.spec_pos() == slide(
            map,
            slide(
                map,
                before.spec_pos(),
                before.width(),
                before.height(),
                Pt(signum_of(after.h_speed()), 0),
                abs_of(after.h_speed()),
            ),
            before.width(),
            before.height(),
            Pt(0, signum_of(after.v_delta())),
            abs_of(after.v_delta()),
        )
    }

    /// A hamster at `pos`, falling, drawn with `textures`.
    pub fn new(pos: Pt, textures: [Texture; 2]) -> (h: Self)
        requires
            -WORLD_LIMIT <= pos.0 <= WORLD_LIMIT,
            -WORLD_LIMIT <= pos.1 <= WORLD_LIMIT,
            textures[0].image().spec_width() <= WORLD_LIMIT,
            textures[0].image().spec_height() <= WORLD_LIMIT,
        ensures
            h.wf(),
            h.spec_pos() == pos,
            h.v_speed() == 0,
            h.h_speed() == 0,
            h.jump_state() == JumpState::Falling,
            !h.looks_left(),
            h.width() == textures[0].image().spec_width(),
            h.height() == textures[0].image().spec_height(),
            h.frames() == textures,
    {
        Self {
            pos,
            v_speed_unclamped: 0,
            jump_state: JumpState::Falling,
            h_speed: 0,
            look_left: false,
            textures,
        }
    }

    pub fn pos(&self) -> (p: Pt)
        ensures
            p == self.spec_pos(),
    {
        self.pos
    }

    /// The middle of the body.
    pub fn center(&self) -> (c: Pt)
        requires
            self.wf(),
        ensures
            c.0 == self.center_x(),
            c.1 == trunc_div(2 * self.spec_pos().1 + self.height(), 2),
    {
        self.rect().center()
    }

    /// The speed in pixels per tick, horizontal and vertical.
    pub fn speed(&self) -> (s: Pt)
        ensures
            s.0 == self.h_speed(),
            s.1 == self.v_delta(),
    {
        Pt(self.h_speed, self.vertical_delta())
    }

    /// One tick of the hamster's life at time `now` with the keys `keys`
    /// down: first jumping and falling, then walking, then the direction it
    /// looks in, and last the move itself, step by step as far as the map
    /// lets it go.
    pub fn tick(&mut self, map: &GameMap, now: i32, keys: &KeyStates)
        requires
            old(self).wf(),
            map.wf(),
        ensures
            Self::ticked(
                *old(self),
                *final(self),
                *map,
                now as int,
                keys.down(1),
                keys.down(2),
                keys.down(5),
            ),
    {
        self.update_jump_state(map, now, keys);
        let dy = self.vertical_delta();
        self.update_walk_state(keys);
        let dx = self.horiz_delta();
        self.update_look_dir(keys);
        self.try_move(map, Pt(dx, dy));
    }

    /// Looks where it is going: to the side of the one direction key that is
    /// down; as before if both or none are.
    pub fn update_look_dir(&mut self, keys: &KeyStates)
        ensures
            final(self).looks_left() == if keys.down(1) != keys.down(2) {
                keys.down(1)
            } else {
                old(self).looks_left()
            },
            final(self).spec_pos() == old(self).spec_pos(),
            final(self).v_speed() == old(self).v_speed(),
            final(self).h_speed() == old(self).h_speed(),
            final(self).jump_state() == old(self).jump_state(),
            final(self).width() == old(self).width(),
            final(self).height() == old(self).height(),
            final(self).frames() == old(self).frames(),
    {
        let left = keys.is_down(Key::Left);
        let right = keys.is_down(Key::Right);
        if !left && right {
            self.look_left = false;
        } else if left && !right {
            self.look_left = true;
        }
    }

    /// Sets the horizontal speed for this tick.
    pub fn update_walk_state(&mut self, keys: &KeyStates)
        requires
            old(self).wf(),
        ensures
            final(self).wf(),
            final(self).h_speed() == walk_speed(
                old(self).h_speed(),
                keys.down(1),
                keys.down(2),
                old(self).center_x(),
            ),
            final(self).spec_pos() == old(self).spec_pos(),
            final(self).v_speed() == old(self).v_speed(),
            final(self).jump_state() == old(self).jump_state(),
            final(self).looks_left() == old(self).looks_left(),
            final(self).width() == old(self).width(),
            final(self).height() == old(self).height(),
            final(self).frames() == old(self).frames(),
    {
        let left = keys.is_down(Key::Left);
        let right = keys.is_down(Key::Right);
        let keydir: i32 = if left == right {
            0
        } else if left {
            -1
        } else {
            1
        };
        let currdir = signum(self.h_speed);
        if currdir * keydir == -1 {
            self.h_speed = 0;
            return ;
        }
        if keydir != 0 {
            self.h_speed = clamp(
                self.h_speed + WALK_ACCEL * keydir,
                -WALK_PIX_PER_TICK,
                WALK_PIX_PER_TICK,
            );
        }
        if keydir == 0 {
            let cx = self.center().0;
            self.h_speed = if rem_trunc(cx, WALK_ALIGN) == 0 {
                0
            } else if rem_trunc(cx, 2) == 1 {
                currdir
            } else {
                currdir * 2
            }
        }
    }

    /// By how many pixels to move sideways in this tick.
    pub fn horiz_delta(&self) -> (d: i32)
        ensures
            d == self.h_speed(),
    {
        self.h_speed
    }

    /// Sets the jump state and the vertical speed for this tick.
    pub fn update_jump_state(&mut self, map: &GameMap, now: i32, keys: &KeyStates)
        requires
            old(self).wf(),
            map.wf(),
        ensures
            final(self).wf(),
            (final(self).jump_state(), final(self).v_speed()) == jump_step(
                old(self).jump_state(),
                old(self).v_speed(),
                !old(self).can_move_by(*map, Pt(0, 1)),
                keys.down(5),
                now as int,
                old(self).can_move_by(*map, Pt(0, -1i32)),
            ),
            final(self).spec_pos() == old(self).spec_pos(),
            final(self).h_speed() == old(self).h_speed(),
            final(self).looks_left() == old(self).looks_left(),
            final(self).width() == old(self).width(),
            final(self).height() == old(self).height(),
            final(self).frames() == old(self).frames(),
    {
        let onfeet = self.onfeet(map);
        let jumpy = keys.is_down(Key::A);
        match self.jump_state {
            JumpState::Standing => {
                if onfeet && jumpy {
                    self.v_speed_unclamped = -JUMP_V_INIT;
                    self.jump_state = JumpState::JumpingSince(now);
                }
                if !onfeet {
                    self.jump_state = JumpState::Falling;
                }
            },
            JumpState::JumpingSince(t) => {
                let since: i64 = now as i64 - t as i64;
                if since > JUMP_MAX_TICKS as i64 || (!jumpy && since > JUMP_MIN_TICKS as i64) {
                    self.jump_state = JumpState::Falling;
                }
                if !self.can_move(map, Pt(0, -1)) {
                    self.jump_state = JumpState::Falling;
                    self.v_speed_unclamped = 0;
                }
            },
            JumpState::Falling => {
                if self.v_speed_unclamped <= i32::MAX - JUMP_G {
                    self.v_speed_unclamped += JUMP_G;
                }
                if onfeet {
                    self.v_speed_unclamped = 0;
                    self.jump_state = JumpState::Landed;
                }
            },
            JumpState::Landed => {
                self.v_speed_unclamped = 0;
                if !jumpy {
                    self.jump_state = JumpState::Standing;
                }
                if !onfeet {
                    self.jump_state = JumpState::Falling;
                }
            },
        };
    }

    /// By how many pixels to move down in this tick.
    pub fn vertical_delta(&self) -> (d: i32)
        ensures
            d == self.v_delta(),
    {
        clamp(self.v_speed_unclamped, -JUMP_PIX_PER_TICK, JUMP_PIX_PER_TICK)
    }

    /// Moves by `delta` one pixel at a time, first sideways and then up or
    /// down, as far as the map lets it go.
    pub fn try_move(&mut self, map: &GameMap, delta: Pt)
        requires
            old(self).wf(),
            map.wf(),
            delta.0 > i32::MIN,
            delta.1 > i32::MIN,
        ensures
            final(self).wf(),
            final(self).spec_pos() == slide(
                *map,
                slide(
                    *map,
                    old(self).spec_pos(),
                    old(self).width(),
                    old(self).height(),
                    Pt(signum_of(delta.0 as int), 0),
                    abs_of(delta.0 as int),
                ),
                old(self).width(),
                old(self).height(),
                Pt(0, signum_of(delta.1 as int)),
                abs_of(delta.1 as int),
            ),
            final(self).v_speed() == old(self).v_speed(),
            final(self).h_speed() == old(self).h_speed(),
            final(self).jump_state() == old(self).jump_state(),
            final(self).looks_left() == old(self).looks_left(),
            final(self).width() == old(self).width(),
            final(self).height() == old(self).height(),
            final(self).frames() == old(self).frames(),
    {
        let nx = abs(delta.0);
        let sx = Pt(signum(delta.0), 0);
        let mut i: i32 = 0;
        while i < nx
            invariant
                0 <= i <= nx,
                self.wf(),
                map.wf(),
                -1 <= sx.0 <= 1,
                sx.1 == 0,
                self.spec_pos() == slide(
                    *map,
                    old(self).spec_pos(),
                    old(self).width(),
                    old(self).height(),
                    sx,
                    i as nat,
                ),
                self.v_speed() == old(self).v_speed(),
                self.h_speed() == old(self).h_speed(),
                self.jump_state() == old(self).jump_state(),
                self.looks_left() == old(self).looks_left(),
                self.width() == old(self).width(),
                self.height() == old(self).height(),
                self.frames() == old(self).frames(),
            decreases nx - i,
        {
            self.try_move_partial(map, sx);
            i += 1;
        }
        let ghost mid = self.spec_pos();
        let ny = abs(delta.1);
        let sy = Pt(0, signum(delta.1));
        let mut j: i32 = 0;
        while j < ny
            invariant
                0 <= j <= ny,
                self.wf(),
                map.wf(),
                -1 <= sy.1 <= 1,
                sy.0 == 0,
                self.spec_pos() == slide(
                    *map,
                    mid,
                    old(self).width(),
                    old(self).height(),
                    sy,
                    j as nat,
                ),
                self.v_speed() == old(self).v_speed(),
                self.h_speed() == old(self).h_speed(),
                self.jump_state() == old(self).jump_state(),
                self.looks_left() == old(self).looks_left(),
                self.width() == old(self).width(),
                self.height() == old(self).height(),
                self.frames() == old(self).frames(),
            decreases ny - j,
        {
            self.try_move_partial(map, sy);
            j += 1;
        }
    }

    /// Moves by `dir` if the map lets it.
    pub fn try_move_partial(&mut self, map: &GameMap, dir: Pt)
        requires
            old(self).wf(),
            map.wf(),
            -1 <= dir.0 <= 1,
            -1 <= dir.1 <= 1,
        ensures
            final(self).wf(),
            final(self).spec_pos() == if old(self).can_move_by(*map, dir) {
                Pt((old(self).spec_pos().0 + dir.0) as i32, (old(self).spec_pos().1 + dir.1) as i32)
            } else {
                old(self).spec_pos()
            },
            final(self).v_speed() == old(self).v_speed(),
            final(self).h_speed() == old(self).h_speed(),
            final(self).jump_state() == old(self).jump_state(),
            final(self).looks_left() == old(self).looks_left(),
            final(self).width() == old(self).width(),
            final(self).height() == old(self).height(),
            final(self).frames() == old(self).frames(),
    {
        if self.can_move(map, dir) {
            self.pos.add_assign(dir);
        }
    }

    /// Whether the hamster can move by `delta`: not out of the world, not
    /// into a brick, and not down through a ledge.
    pub fn can_move(&self, map: &GameMap, delta: Pt) -> (ok: bool)
        requires
            self.wf(),
            map.wf(),
            -WORLD_LIMIT <= delta.0 <= WORLD_LIMIT,
            -WORLD_LIMIT <= delta.1 <= WORLD_LIMIT,
        ensures
            ok == self.can_move_by(*map, delta),
    {
        let x0: i64 = self.pos.0 as i64 + delta.0 as i64;
        let y0: i64 = self.pos.1 as i64 + delta.1 as i64;
        if x0 < -(WORLD_LIMIT as i64) || x0 > WORLD_LIMIT as i64 || y0 < -(WORLD_LIMIT as i64) || y0
            > WORLD_LIMIT as i64 {
            return false;
        }
        let newrect = self.rect().transl(delta);
        let verts = newrect.vertices_incl();
        let ghost gx0 = self.pos.0 + delta.0;
        let ghost gy0 = self.pos.1 + delta.1;
        let ghost gx1 = gx0 + self.width() - 1;
        let ghost gy1 = gy0 + self.height() - 1;
        let ghost old_y1 = self.pos.1 + self.height() - 1;
        let mut i: usize = 0;
        while i < 4
            invariant
                i <= 4,
                map.wf(),
                verts[0].0 == gx0 && verts[0].1 == gy0,
                verts[1].0 == gx1 && verts[1].1 == gy0,
                verts[2].0 == gx1 && verts[2].1 == gy1,
                verts[3].0 == gx0 && verts[3].1 == gy1,
                gx0 == self.spec_pos().0 + delta.0,
                gy0 == self.spec_pos().1 + delta.1,
                gx1 == gx0 + self.width() - 1,
                gy1 == gy0 + self.height() - 1,
                forall|k: int|
                    0 <= k < i ==> kind_at(*map, (#[trigger] verts[k]).0 as int, verts[k].1 as int)
                        != BlockTyp::Brick,
            decreases 4 - i,
        {
            if map.type_at(verts[i] / GRID) == BlockTyp::Brick {
                return false;
            }
            i += 1;
        }
        let oldvert = self.rect().vertices_bottom();
        let newvert = newrect.vertices_bottom();
        let mut j: usize = 0;
        while j < 2
            invariant
                j <= 2,
                map.wf(),
                newvert[0].0 == gx1 && newvert[0].1 == gy1,
                newvert[1].0 == gx0 && newvert[1].1 == gy1,
                oldvert[0].1 == old_y1 && oldvert[1].1 == old_y1,
                gx0 == self.spec_pos().0 + delta.0,
                gy0 == self.spec_pos().1 + delta.1,
                gx1 == gx0 + self.width() - 1,
                gy1 == gy0 + self.height() - 1,
                old_y1 == self.spec_pos().1 + self.height() - 1,
                forall|k: int|
                    0 <= k < j ==> !(trunc_div((#[trigger] newvert[k]).1 as int, 64) > trunc_div(
                        oldvert[k].1 as int,
                        64,
                    ) && kind_at(*map, newvert[k].0 as int, newvert[k].1 as int)
                        == BlockTyp::Ledge),
            decreases 2 - j,
        {
            let oldy = div_trunc(oldvert[j].1, GRID as i32);
            let newy = div_trunc(newvert[j].1, GRID as i32);
            if newy > oldy && map.type_at(newvert[j] / GRID) == BlockTyp::Ledge {
                return false;
            }
            j += 1;
        }
        proof {
            assert(kind_at(*map, verts[0].0 as int, verts[0].1 as int) != BlockTyp::Brick);
            assert(kind_at(*map, verts[1].0 as int, verts[1].1 as int) != BlockTyp::Brick);
            assert(kind_at(*map, verts[2].0 as int, verts[2].1 as int) != BlockTyp::Brick);
            assert(kind_at(*map, verts[3].0 as int, verts[3].1 as int) != BlockTyp::Brick);
            assert(newvert[0].1 == newvert[0].1 && newvert[1].1 == newvert[1].1);
        }
        true
    }

    /// Whether the hamster stands on something: it cannot move down.
    pub fn onfeet(&self, map: &GameMap) -> (b: bool)
        requires
            self.wf(),
            map.wf(),
        ensures
            b == !self.can_move_by(*map, Pt(0, 1)),
    {
        !self.can_move(map, Pt(0, 1))
    }

    /// The rectangle that the body fills.
    pub fn rect(&self) -> (r: Rect)
        requires
            self.wf(),
        ensures
            r.min == self.spec_pos(),
            r.max.0 == self.spec_pos().0 + self.width(),
            r.max.1 == self.spec_pos().1 + self.height(),
    {
        Rect::new(self.pos, self.textures[0].dimensions())
    }

    /// Which of the two textures to draw at time `time`: they take turns
    /// every eight ticks.
    pub fn frame(time: i32) -> (i: usize)
        ensures
            i == if trunc_rem(time as int, 16) > 7 {
                1int
            } else {
                0
            },
    {
        if rem_trunc(time, 16) > 7 {
            1
        } else {
            0
        }
    }

    /// The texture to draw at time `time`.
    pub fn texture(&self, time: i32) -> (t: &Texture)
        ensures
            *t == self.frames()[if trunc_rem(time as int, 16) > 7 {
                1int
            } else {
                0
            }],
    {
        &self.textures[Self::frame(time)]
    }

    /// Whether the hamster looks to the left.
    pub fn look_left(&self) -> (b: bool)
        ensures
            b == self.looks_left(),
    {
        self.look_left
    }
}

/// The sign of `v`: -1, 0 or 1.
pub open spec fn signum_of(v: int) -> i32 {
    if v > 0 {
        1
    } else if v < 0 {
        -1i32
    } else {
        0
    }
}

/// The absolute value of `v`.
pub open spec fn abs_of(v: int) -> nat {
    if v < 0 {
        (-v) as nat
    } else {
        v as nat
    }
}

} // verus!

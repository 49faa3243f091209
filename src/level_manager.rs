use vstd::prelude::*;
use crate::level::{Level, LevelView};
use crate::limits::COORD_LIMIT;
use crate::sprite::Sprite;

verus! {

/// The mathematical content of a level manager: the tile grid, the side of a
/// tile in world units, and the one walkable tile code.
pub struct LevelManagerView {
    pub level: LevelView,
    pub tile_size: int,
    pub walkable: u8,
}

impl LevelManagerView {
    /// The grid is well formed, tiles have a positive size, and the playfield
    /// fits inside the coordinate bound.
    pub open spec fn valid(self) -> bool {
        &&& self.level.wf()
        &&& self.tile_size >= 1
        &&& self.tile_size * self.level.width <= COORD_LIMIT
        &&& self.tile_size * self.level.height <= COORD_LIMIT
    }

    /// Width of the playfield in world units.
    pub open spec fn game_width(self) -> int {
        self.tile_size * self.level.width
    }

    /// Height of the playfield in world units.
    pub open spec fn game_height(self) -> int {
        self.tile_size * self.level.height
    }

    /// The world point `(x, y)` lies on the playfield.
    pub open spec fn on_field(self, x: int, y: int) -> bool {
        0 <= x < self.game_width() && 0 <= y < self.game_height()
    }

    /// The code of the tile that holds the world point `(x, y)`.
    pub open spec fn code_at(self, x: int, y: int) -> int {
        self.level.code(x / self.tile_size, y / self.tile_size)
    }

    /// The sprite of tile `(x, y)`: the tile's square, textured by its code.
    pub open spec fn tile_sprite(self, x: int, y: int) -> Sprite {
        Sprite {
            x: (x * self.tile_size) as i64,
            y: (y * self.tile_size) as i64,
            width: self.tile_size as i64,
            height: self.tile_size as i64,
            texture: self.level.code(x, y) as usize,
        }
    }

    /// A world point blocks movement when it lies off the playfield or on a
    /// tile whose code is not the walkable one.
    pub open spec fn solid(self, x: int, y: int) -> bool {
        !self.on_field(x, y) || self.code_at(x, y) != self.walkable
    }

    /// None of the four corners of the rectangle at `(x, y)` of size `w` by
    /// `h` is solid.
    pub open spec fn free_rect(self, x: int, y: int, w: int, h: int) -> bool {
        &&& !self.solid(x, y)
        &&& !self.solid(x + w, y)
        &&& !self.solid(x, y + h)
        &&& !self.solid(x + w, y + h)
    }

    /// The rectangle at `(x, y)` of size `w` by `h` rests on something solid:
    /// a point just under one of its bottom corners is solid.
    pub open spec fn on_floor(self, x: int, y: int, w: int, h: int) -> bool {
        self.solid(x, y + h + 1) || self.solid(x + w, y + h + 1)
    }
}

/// The tile level together with its geometry in world units: it answers
/// solidity queries and decides whether a collider may move.
pub struct LevelManager {
    level: Level,
    tile_size: i64,
    walkable: u8,
}

impl View for LevelManager {
    type V = LevelManagerView;

    closed spec fn view(&self) -> LevelManagerView {
        LevelManagerView { level: self.level@, tile_size: self.tile_size as int, walkable: self.walkable }
    }
}

proof fn lemma_tile_in_grid(x: int, ts: int, n: int)
    requires
        ts >= 1,
        0 <= x < ts * n,
    ensures
        0 <= x / ts < n,
{
    assert(0 <= x / ts < n) by (nonlinear_arith)
        requires
            ts >= 1,
            0 <= x < ts * n,
    ;
}

proof fn lemma_grid_in_bounds(ts: int, n: int)
    requires
        ts >= 1,
        n >= 0,
        ts * n <= COORD_LIMIT,
    ensures
        n <= COORD_LIMIT,
{
    assert(n <= ts * n) by (nonlinear_arith)
        requires
            ts >= 1,
            n >= 0,
    ;
}

impl LevelManager {
    pub open spec fn wf(&self) -> bool {
        self@.valid()
    }

    /// A level manager over `level` with tiles `tile_size` world units wide,
    /// where `walkable` is the only code that does not block. `None` where the
    /// tile size is not positive or the playfield exceeds the coordinate bound.
    pub fn new(level: Level, tile_size: i64, walkable: u8) -> (r: Option<LevelManager>)
        requires
            level.wf(),
        ensures
            match r {
                Some(m) => m.wf() && m@ == (LevelManagerView { level: level@, tile_size: tile_size as int, walkable }),
                None => !(LevelManagerView { level: level@, tile_size: tile_size as int, walkable }).valid(),
            },
    {
        if tile_size < 1 {
            return None;
        }
        let w = level.width();
        let h = level.height();
        if w as u64 > COORD_LIMIT as u64 || h as u64 > COORD_LIMIT as u64 {
            proof {
                if tile_size * w <= COORD_LIMIT {
                    lemma_grid_in_bounds(tile_size as int, w as int);
                }
                if tile_size * h <= COORD_LIMIT {
                    lemma_grid_in_bounds(tile_size as int, h as int);
                }
            }
            return None;
        }
        let wi = w as i64;
        let hi = h as i64;
        if wi > 0 && tile_size > COORD_LIMIT / wi {
            assert(tile_size * wi > COORD_LIMIT) by (nonlinear_arith)
                requires
                    wi > 0,
                    tile_size > COORD_LIMIT / wi,
            ;
            return None;
        }
        if hi > 0 && tile_size > COORD_LIMIT / hi {
            assert(tile_size * hi > COORD_LIMIT) by (nonlinear_arith)
                requires
                    hi > 0,
                    tile_size > COORD_LIMIT / hi,
            ;
            return None;
        }
        assert(tile_size * wi <= COORD_LIMIT) by (nonlinear_arith)
            requires
                wi >= 0,
                wi > 0 ==> tile_size <= COORD_LIMIT / wi,
        ;
        assert(tile_size * hi <= COORD_LIMIT) by (nonlinear_arith)
            requires
                hi >= 0,
                hi > 0 ==> tile_size <= COORD_LIMIT / hi,
        ;
        Some(LevelManager { level, tile_size, walkable })
    }

    pub fn tile_size(&self) -> (r: i64)
        ensures
            r == self@.tile_size,
    {
        self.tile_size
    }

    pub fn walkable(&self) -> (r: u8)
        ensures
            r == self@.walkable,
    {
        self.walkable
    }

    pub fn level(&self) -> (r: &Level)
        ensures
            r@ == self@.level,
    {
        &self.level
    }

    /// Width of the playfield in world units.
    pub fn game_width(&self) -> (r: i64)
        requires
            self.wf(),
        ensures
            r == self@.game_width(),
    {
        proof {
            lemma_grid_in_bounds(self.tile_size as int, self.level@.width as int);
        }
        self.tile_size * self.level.width() as i64
    }

    /// Height of the playfield in world units.
    pub fn game_height(&self) -> (r: i64)
        requires
            self.wf(),
        ensures
            r == self@.game_height(),
    {
        proof {
            lemma_grid_in_bounds(self.tile_size as int, self.level@.height as int);
        }
        self.tile_size * self.level.height() as i64
    }

    /// Whether the world point `(x, y)` blocks movement.
    pub fn is_solid(&self, x: i64, y: i64) -> (r: bool)
        requires
            self.wf(),
        ensures
            r == self@.solid(x as int, y as int),
    {
        if x < 0 || x >= self.game_width() || y < 0 || y >= self.game_height() {
            return true;
        }
        proof {
            lemma_tile_in_grid(x as int, self.tile_size as int, self.level@.width as int);
            lemma_tile_in_grid(y as int, self.tile_size as int, self.level@.height as int);
        }
        let ts: u64 = self.tile_size as u64;
        let xq: u64 = x as u64 / ts;
        let yq: u64 = y as u64 / ts;
        assert(xq as int == x as int / self.tile_size as int);
        assert(yq as int == y as int / self.tile_size as int);
        let lw = self.level.width();
        let lh = self.level.height();
        assert(xq < lw && yq < lh);
        let x_index = xq as usize;
        let y_index = yq as usize;
        let value = self.level.get_sprite_index(x_index, y_index);
        value != self.walkable as usize
    }

    /// Whether a collider at `(x, y)` of size `width` by `height` may stand
    /// there: none of its four corners is solid.
    pub fn can_move_here(&self, x: i64, y: i64, width: i64, height: i64) -> (r: bool)
        requires
            self.wf(),
            i64::MIN <= x + width <= i64::MAX,
            i64::MIN <= y + height <= i64::MAX,
        ensures
            r == self@.free_rect(x as int, y as int, width as int, height as int),
    {
        if !self.is_solid(x, y) {
            if !self.is_solid(x + width, y + height) {
                if !self.is_solid(x + width, y) {
                    if !self.is_solid(x, y + height) {
                        return true;
                    }
                }
            }
        }
        false
    }

    /// Whether a collider at `(x, y)` of size `width` by `height` rests on
    /// solid ground: a point just under one of its bottom corners is solid.
    pub fn is_on_floor(&self, x: i64, y: i64, width: i64, height: i64) -> (r: bool)
        requires
            self.wf(),
            i64::MIN <= x + width <= i64::MAX,
            i64::MIN <= y + height < i64::MAX,
        ensures
            r == self@.on_floor(x as int, y as int, width as int, height as int),
    {
        self.is_solid(x, y + height + 1) || self.is_solid(x + width, y + height + 1)
    }
}

proof fn lemma_row_start(y: int, w: int)
    requires
        w >= 0,
        y >= 0,
    ensures
        (y + 1) * w == y * w + w,
        y * w >= 0,
{
    assert((y + 1) * w == y * w + w) by (nonlinear_arith);
    assert(y * w >= 0) by (nonlinear_arith)
        requires
            w >= 0,
            y >= 0,
    ;
}

proof fn lemma_scaled_in_bounds(x: int, ts: int, n: int)
    requires
        ts >= 1,
        0 <= x < n,
        ts * n <= COORD_LIMIT,
    ensures
        0 <= x * ts < COORD_LIMIT,
{
    assert(0 <= x * ts < ts * n) by (nonlinear_arith)
        requires
            ts >= 1,
            0 <= x < n,
    ;
}

impl LevelManager {
    /// The sprites that draw the level: one per tile, row by row.
    pub fn tile_sprites(&self) -> (r: Vec<Sprite>)
        requires
            self.wf(),
        ensures
            r@.len() == self@.level.width * self@.level.height,
            forall|x: int, y: int|
                0 <= x < self@.level.width && 0 <= y < self@.level.height ==>
                    r@[y * self@.level.width + x] == #[trigger] self@.tile_sprite(x, y),
    {
        let w = self.level.width();
        let h = self.level.height();
        let ghost wi = w as int;
        let mut r: Vec<Sprite> = Vec::new();
        let mut y: usize = 0;
        while y < h
            invariant
                self.wf(),
                w == self@.level.width,
                h == self@.level.height,
                wi == w,
                y <= h,
                r@.len() == y * wi,
                forall|xx: int, yy: int|
                    0 <= xx < wi && 0 <= yy < y ==> r@[yy * wi + xx] == #[trigger] self@.tile_sprite(xx, yy),
            decreases h - y,
        {
            let mut x: usize = 0;
            proof {
                lemma_row_start(y as int, wi);
            }
            while x < w
                invariant
                    self.wf(),
                    w == self@.level.width,
                    h == self@.level.height,
                    wi == w,
                    y < h,
                    x <= w,
                    y * wi >= 0,
                    r@.len() == y * wi + x,
                    forall|xx: int, yy: int|
                        0 <= xx < wi && 0 <= yy < y ==> r@[yy * wi + xx] == #[trigger] self@.tile_sprite(xx, yy),
                    forall|xx: int| 0 <= xx < x ==> r@[y * wi + xx] == #[trigger] self@.tile_sprite(xx, y as int),
                decreases w - x,
            {
                proof {
                    lemma_scaled_in_bounds(x as int, self.tile_size as int, wi);
                    lemma_scaled_in_bounds(y as int, self.tile_size as int, h as int);
                    lemma_grid_in_bounds(self.tile_size as int, wi);
                    lemma_grid_in_bounds(self.tile_size as int, h as int);
                }
                let code = self.level.get_sprite_index(x, y);
                let ghost before = r@;
                r.push(Sprite {
                    x: x as i64 * self.tile_size,
                    y: y as i64 * self.tile_size,
                    width: self.tile_size,
                    height: self.tile_size,
                    texture: code,
                });
                proof {
                    assert forall|xx: int, yy: int|
                        0 <= xx < wi && 0 <= yy < y implies r@[yy * wi + xx] == #[trigger] self@.tile_sprite(xx, yy) by {
                        assert(yy * wi + xx < y * wi) by (nonlinear_arith)
                            requires
                                0 <= xx < wi,
                                0 <= yy < y,
                        ;
                        assert(r@[yy * wi + xx] == before[yy * wi + xx]);
                    }
                    assert forall|xx: int| 0 <= xx < x + 1 implies r@[y * wi + xx] == #[trigger] self@.tile_sprite(xx, y as int) by {
                        if xx < x {
                            assert(r@[y * wi + xx] == before[y * wi + xx]);
                        }
                    }
                }
                x = x + 1;
            }
            proof {
                lemma_row_start(y as int, wi);
                assert forall|xx: int, yy: int|
                    0 <= xx < wi && 0 <= yy < y + 1 implies r@[yy * wi + xx] == #[trigger] self@.tile_sprite(xx, yy) by {
                    if yy == y {
                        assert(self@.tile_sprite(xx, yy) == self@.tile_sprite(xx, y as int));
                    }
                }
            }
            y = y + 1;
        }
        assert(h * wi == wi * h) by (nonlinear_arith);
        r
    }
}

/// Every world point whose tile coordinates fall outside the grid is solid.
pub proof fn lemma_outside_grid_is_solid(m: LevelManagerView, x: int, y: int)
    requires
        m.valid(),
        !(0 <= x / m.tile_size < m.level.width && 0 <= y / m.tile_size < m.level.height),
    ensures
        m.solid(x, y),
{
    if m.on_field(x, y) {
        lemma_tile_in_grid(x, m.tile_size, m.level.width as int);
        lemma_tile_in_grid(y, m.tile_size, m.level.height as int);
    }
}

/// For a rectangle whose four corners lie on the playfield, movement there is
/// allowed exactly when the tile under each corner holds the walkable code.
pub proof fn lemma_free_iff_corners_walkable(m: LevelManagerView, x: int, y: int, w: int, h: int)
    requires
        m.valid(),
        m.on_field(x, y),
        m.on_field(x + w, y),
        m.on_field(x, y + h),
        m.on_field(x + w, y + h),
    ensures
        m.free_rect(x, y, w, h) <==> {
            &&& m.code_at(x, y) == m.walkable
            &&& m.code_at(x + w, y) == m.walkable
            &&& m.code_at(x, y + h) == m.walkable
            &&& m.code_at(x + w, y + h) == m.walkable
        },
{
}

/// If the tile under any of the four corners holds a code other than the
/// walkable one, movement there is refused.
pub proof fn lemma_non_walkable_corner_blocks(m: LevelManagerView, x: int, y: int, w: int, h: int)
    requires
        m.valid(),
        m.code_at(x, y) != m.walkable || m.code_at(x + w, y) != m.walkable || m.code_at(x, y + h) != m.walkable
            || m.code_at(x + w, y + h) != m.walkable,
    ensures
        !m.free_rect(x, y, w, h),
{
}

} // verus!

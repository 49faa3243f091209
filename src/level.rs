use vstd::prelude::*;
use crate::decode::{decode_rgb8, rgb8_decoding};
use crate::limits::COORD_LIMIT;

verus! {

/// The mathematical content of a tile level: its size in tiles and its tile
/// codes, row by row.
pub struct LevelView {
    pub width: nat,
    pub height: nat,
    pub codes: Seq<u8>,
}

impl LevelView {
    pub open spec fn wf(self) -> bool {
        self.codes.len() == self.width * self.height
    }

    /// The code of tile `(x, y)`.
    pub open spec fn code(self, x: int, y: int) -> int {
        self.codes[y * self.width + x] as int
    }
}

/// The level that a `width` by `height` image with RGB bytes `pixels`
/// describes: each tile takes the red channel of its pixel. `None` where the
/// bytes hold fewer than `width * height` pixels.
pub open spec fn rgb8_level(width: u32, height: u32, pixels: Seq<u8>) -> Option<LevelView> {
    if pixels.len() >= 3 * width * height {
        Some(LevelView {
            width: width as nat,
            height: height as nat,
            codes: Seq::new((width * height) as nat, |i: int| pixels[3 * i]),
        })
    } else {
        None
    }
}

/// The level that an encoded level image describes.
pub open spec fn decoded_level(bytes: Seq<u8>) -> Option<LevelView> {
    match rgb8_decoding(bytes) {
        Some((w, h, px)) => rgb8_level(w, h, px),
        None => None,
    }
}

/// An immutable grid of tile codes.
pub struct Level {
    width: usize,
    height: usize,
    level_data: Vec<u8>,
}

impl View for Level {
    type V = LevelView;

    closed spec fn view(&self) -> LevelView {
        LevelView { width: self.width as nat, height: self.height as nat, codes: self.level_data@ }
    }
}

proof fn lemma_index_in_grid(x: int, y: int, w: int, h: int)
    requires
        0 <= x < w,
        0 <= y < h,
    ensures
        0 <= y * w + x < w * h,
{
    assert(y * w + x < w * h) by (nonlinear_arith)
        requires
            0 <= x < w,
            0 <= y < h,
    ;
    assert(0 <= y * w) by (nonlinear_arith)
        requires
            0 <= y,
            0 <= w,
    ;
}

impl Level {
    pub open spec fn wf(&self) -> bool {
        self@.wf()
    }

    /// Builds the level from decoded pixels: a `width` by `height` image with
    /// row-major RGB bytes. The red channel of each pixel is its tile code.
    pub fn from_rgb8(width: u32, height: u32, pixels: &[u8]) -> (r: Option<Level>)
        ensures
            match r {
                Some(l) => l.wf() && rgb8_level(width, height, pixels@) == Some(l@),
                None => rgb8_level(width, height, pixels@) is None,
            },
    {
        assert(width * height <= u64::MAX) by (nonlinear_arith)
            requires
                width <= u32::MAX,
                height <= u32::MAX,
        ;
        let n: u64 = width as u64 * height as u64;
        let len: usize = pixels.len();
        if (len as u64) / 3 < n {
            assert(len < 3 * width * height) by (nonlinear_arith)
                requires
                    (len as u64) / 3 < n,
                    n == width * height,
            ;
            return None;
        }
        assert(3 * width * height <= len) by (nonlinear_arith)
            requires
                (len as u64) / 3 >= n,
                n == width * height,
        ;
        let n: usize = n as usize;
        let mut level_data: Vec<u8> = Vec::new();
        let mut i: usize = 0;
        while i < n
            invariant
                n == width * height,
                3 * n <= len,
                len == pixels@.len(),
                i <= n,
                level_data@ == Seq::new(i as nat, |j: int| pixels@[3 * j]),
            decreases n - i,
        {
            level_data.push(pixels[3 * i]);
            i = i + 1;
            assert(level_data@ =~= Seq::new(i as nat, |j: int| pixels@[3 * j]));
        }
        let l = Level { width: width as usize, height: height as usize, level_data };
        assert(l@.codes =~= Seq::new((width * height) as nat, |j: int| pixels@[3 * j]));
        Some(l)
    }

    /// Decodes an encoded level image (a PNG, say) into a level.
    pub fn new(level_image: &[u8]) -> (r: Option<Level>)
        ensures
            match r {
                Some(l) => l.wf() && decoded_level(level_image@) == Some(l@),
                None => decoded_level(level_image@) is None,
            },
    {
        match decode_rgb8(level_image) {
            Some((w, h, px)) => Level::from_rgb8(w, h, px.as_slice()),
            None => None,
        }
    }

    pub fn width(&self) -> (r: usize)
        ensures
            r == self@.width,
    {
        self.width
    }

    pub fn height(&self) -> (r: usize)
        ensures
            r == self@.height,
    {
        self.height
    }

    /// The code of tile `(x, y)`, which must lie inside the grid.
    pub fn get_sprite_index(&self, x: usize, y: usize) -> (r: usize)
        requires
            self.wf(),
            x < self@.width,
            y < self@.height,
        ensures
            r == self@.code(x as int, y as int),
    {
        proof {
            lemma_index_in_grid(x as int, y as int, self.width as int, self.height as int);
        }
        assert(self.level_data@.len() == self.level_data.len());
        self.level_data[y * self.width + x] as usize
    }
}

/// Loading the same level asset twice gives the same tile codes everywhere:
/// decoding is a function of the bytes alone.
pub proof fn lemma_level_load_is_deterministic(bytes: Seq<u8>, a: LevelView, b: LevelView)
    requires
        decoded_level(bytes) == Some(a),
        decoded_level(bytes) == Some(b),
    ensures
        a.width == b.width,
        a.height == b.height,
        forall|x: int, y: int|
            0 <= x < a.width && 0 <= y < a.height ==> #[trigger] a.code(x, y) == b.code(x, y),
{
}

} // verus!

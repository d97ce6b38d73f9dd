use vstd::prelude::*;

use crate::block::{lemma_index_injective, BlockId, BLOCK_KINDS};

verus! {

/// The number of face rows a block's column is divided into.
pub const FACE_ROWS: usize = 6;

/// An exact fraction `num / den` of the atlas image's width or height.
#[derive(Copy, Clone, Debug, PartialEq, Eq, Structural)]
pub struct Fraction {
    pub num: u32,
    pub den: u32,
}

/// One (u, v) point of the atlas image, each coordinate an exact fraction.
#[derive(Copy, Clone, Debug, PartialEq, Eq, Structural)]
pub struct TextureAtlasCoords {
    pub uv_x: Fraction,
    pub uv_y: Fraction,
}

impl TextureAtlasCoords {
    pub fn new(uv_x: Fraction, uv_y: Fraction) -> (r: TextureAtlasCoords)
        ensures
            r.uv_x == uv_x,
            r.uv_y == uv_y,
    {
        TextureAtlasCoords { uv_x, uv_y }
    }
}

/// The six faces of a cube.
#[derive(Copy, Clone, Debug, PartialEq, Eq, Structural)]
pub enum Face {
    Top,
    Bottom,
    Left,
    Right,
    Front,
    Back,
}

impl Face {
    /// The face's row in a block's atlas column: top, left, front, right,
    /// bottom, back from the top of the image down.
    pub open spec fn spec_row(self) -> u32 {
        match self {
            Face::Top => 0,
            Face::Left => 1,
            Face::Front => 2,
            Face::Right => 3,
            Face::Bottom => 4,
            Face::Back => 5,
        }
    }

    pub fn row(self) -> (r: u32)
        ensures
            r == self.spec_row(),
    {
        match self {
            Face::Top => 0,
            Face::Left => 1,
            Face::Front => 2,
            Face::Right => 3,
            Face::Bottom => 4,
            Face::Back => 5,
        }
    }
}

/// The four corner coordinates of each face of one block kind, in the
/// order in which the mesh emits a face's vertices.
#[derive(Copy, Clone, Debug)]
pub struct BlockUv {
    pub top: [TextureAtlasCoords; 4],
    pub bottom: [TextureAtlasCoords; 4],
    pub left: [TextureAtlasCoords; 4],
    pub right: [TextureAtlasCoords; 4],
    pub front: [TextureAtlasCoords; 4],
    pub back: [TextureAtlasCoords; 4],
}

impl BlockUv {
    pub open spec fn spec_face(self, face: Face) -> [TextureAtlasCoords; 4] {
        match face {
            Face::Top => self.top,
            Face::Bottom => self.bottom,
            Face::Left => self.left,
            Face::Right => self.right,
            Face::Front => self.front,
            Face::Back => self.back,
        }
    }

    pub fn face(&self, face: Face) -> (r: &[TextureAtlasCoords; 4])
        ensures
            *r == self.spec_face(face),
    {
        match face {
            Face::Top => &self.top,
            Face::Bottom => &self.bottom,
            Face::Left => &self.left,
            Face::Right => &self.right,
            Face::Front => &self.front,
            Face::Back => &self.back,
        }
    }
}

/// The corners of the cell in column `col` of `cols` and row `row` of
/// `rows`: (right, upper), (right, lower), (left, lower), (left, upper),
/// where v grows downwards.
pub open spec fn cell_corners(col: u32, cols: u32, row: u32, rows: u32) -> [TextureAtlasCoords; 4] {
    let left = Fraction { num: col, den: cols };
    let right = Fraction { num: (col + 1) as u32, den: cols };
    let upper = Fraction { num: row, den: rows };
    let lower = Fraction { num: (row + 1) as u32, den: rows };
    [
        TextureAtlasCoords { uv_x: right, uv_y: upper },
        TextureAtlasCoords { uv_x: right, uv_y: lower },
        TextureAtlasCoords { uv_x: left, uv_y: lower },
        TextureAtlasCoords { uv_x: left, uv_y: upper },
    ]
}

/// The coordinates of every face of the block kind registered in column
/// `col` of an atlas with `cols` columns and `rows` face rows.
pub open spec fn column_uv(col: u32, cols: u32, rows: u32) -> BlockUv {
    BlockUv {
        top: cell_corners(col, cols, Face::Top.spec_row(), rows),
        bottom: cell_corners(col, cols, Face::Bottom.spec_row(), rows),
        left: cell_corners(col, cols, Face::Left.spec_row(), rows),
        right: cell_corners(col, cols, Face::Right.spec_row(), rows),
        front: cell_corners(col, cols, Face::Front.spec_row(), rows),
        back: cell_corners(col, cols, Face::Back.spec_row(), rows),
    }
}

fn make_cell_corners(col: u32, cols: u32, row: u32, rows: u32) -> (r: [TextureAtlasCoords; 4])
    requires
        col < cols,
        row < FACE_ROWS,
    ensures
        r == cell_corners(col, cols, row, rows),
{
    let left = Fraction { num: col, den: cols };
    let right = Fraction { num: col + 1, den: cols };
    let upper = Fraction { num: row, den: rows };
    let lower = Fraction { num: row + 1, den: rows };
    [
        TextureAtlasCoords::new(right, upper),
        TextureAtlasCoords::new(right, lower),
        TextureAtlasCoords::new(left, lower),
        TextureAtlasCoords::new(left, upper),
    ]
}

fn make_column_uv(col: u32, cols: u32, rows: u32) -> (r: BlockUv)
    requires
        col < cols,
    ensures
        r == column_uv(col, cols, rows),
{
    BlockUv {
        top: make_cell_corners(col, cols, Face::Top.row(), rows),
        bottom: make_cell_corners(col, cols, Face::Bottom.row(), rows),
        left: make_cell_corners(col, cols, Face::Left.row(), rows),
        right: make_cell_corners(col, cols, Face::Right.row(), rows),
        front: make_cell_corners(col, cols, Face::Front.row(), rows),
        back: make_cell_corners(col, cols, Face::Back.row(), rows),
    }
}

/// A decoded RGBA image: four bytes per pixel, rows one after another.
pub struct AtlasImage {
    width: u32,
    height: u32,
    pixels: Vec<u8>,
}

impl AtlasImage {
    pub closed spec fn spec_width(&self) -> u32 {
        self.width
    }

    pub closed spec fn spec_height(&self) -> u32 {
        self.height
    }

    pub closed spec fn spec_pixels(&self) -> Seq<u8> {
        self.pixels@
    }

    /// The buffer holds exactly four bytes for each pixel.
    pub closed spec fn wf(&self) -> bool {
        self.pixels@.len() == 4 * (self.width as int) * (self.height as int)
    }

    /// Wraps an RGBA buffer of the given dimensions; `None` where its length
    /// is not four bytes per pixel.
    pub fn from_rgba(width: u32, height: u32, pixels: Vec<u8>) -> (r: Option<AtlasImage>)
        ensures
            r is Some <==> pixels@.len() == 4 * (width as int) * (height as int),
            r matches Some(img) ==> img.wf() && img.spec_width() == width && img.spec_height()
                == height && img.spec_pixels() == pixels@,
    {
        assert((width as int) * (height as int) <= 0xffff_fffe_0000_0001) by (nonlinear_arith)
            requires
                width <= 0xffff_ffff,
                height <= 0xffff_ffff,
        {
        }
        let area: u64 = width as u64 * height as u64;
        let len: usize = pixels.len();
        assert(4 * (width as int) * (height as int) == (area as int) * 4) by (nonlinear_arith)
            requires
                area as int == (width as int) * (height as int),
        {
        }
        match area.checked_mul(4) {
            Some(bytes) => {
                if bytes == len as u64 {
                    Some(AtlasImage { width, height, pixels })
                } else {
                    None
                }
            },
            None => None,
        }
    }

    pub fn width(&self) -> (r: u32)
        ensures
            r == self.spec_width(),
    {
        self.width
    }

    pub fn height(&self) -> (r: u32)
        ensures
            r == self.spec_height(),
    {
        self.height
    }

    pub fn pixels(&self) -> (r: &Vec<u8>)
        ensures
            r@ == self.spec_pixels(),
    {
        &self.pixels
    }
}

/// The image that the bytes of a PNG file decode to, as width, height and
/// RGBA bytes (four per pixel, rows one after another); `None` where they do
/// not decode.
pub uninterp spec fn decoded_png(bytes: Seq<u8>) -> Option<(u32, u32, Seq<u8>)>;

#[verifier::external_type_specification]
#[verifier::external_body]
pub struct ExImageError(image::ImageError);

/// Relies on `image::load_from_memory_with_format` with `ImageFormat::Png`,
/// then `DynamicImage::to_rgba8`, `ImageBuffer::dimensions` and
/// `ImageBuffer::into_raw`: decoding depends on the bytes alone, and the
/// RGBA buffer that `to_rgba8` allocates holds four bytes per pixel.
#[verifier::external_body]
fn decode_png(bytes: &[u8]) -> (r: Result<(u32, u32, Vec<u8>), image::ImageError>)
    ensures
        r is Ok <==> decoded_png(bytes@) is Some,
        r matches Ok((w, h, px)) ==> decoded_png(bytes@) == Some((w, h, px@)),
        r matches Ok((w, h, px)) ==> px@.len() == 4 * (w as int) * (h as int),
{
    match image::load_from_memory_with_format(bytes, image::ImageFormat::Png) {
        Ok(img) => {
            let rgba = img.to_rgba8();
            let (w, h) = rgba.dimensions();
            Ok((w, h, rgba.into_raw()))
        },
        Err(e) => Err(e),
    }
}

/// Why an atlas image could not be had.
#[derive(Copy, Clone, Debug, PartialEq, Eq, Structural)]
pub enum AtlasError {
    /// The bytes are not a PNG image.
    Decode,
}

/// The index of the last occurrence of `b` in `s`, or -1 where there is none.
pub open spec fn last_index_of(s: Seq<BlockId>, b: BlockId) -> int
    decreases s.len(),
{
    if s.len() == 0 {
        -1
    } else if s.last() == b {
        s.len() - 1
    } else {
        last_index_of(s.drop_last(), b)
    }
}

/// A texture atlas: one image holding a column per registered block kind
/// and a row per face, and the coordinates of each registered kind's faces.
pub struct TextureAtlas {
    filename: String,
    numof_blocks: usize,
    numof_block_faces: usize,
    id_texture_map: Vec<Option<BlockUv>>,
    image: AtlasImage,
}

impl TextureAtlas {
    /// One table slot per block kind, and a well-formed image.
    pub closed spec fn wf(&self) -> bool {
        &&& self.id_texture_map@.len() == BLOCK_KINDS
        &&& self.image.wf()
    }

    /// The coordinates registered for `b`, if any.
    pub closed spec fn spec_uv(&self, b: BlockId) -> Option<BlockUv> {
        self.id_texture_map@[b.spec_index() as int]
    }

    pub open spec fn has_block(&self, b: BlockId) -> bool {
        self.spec_uv(b) is Some
    }

    pub closed spec fn spec_filename(&self) -> Seq<char> {
        self.filename@
    }

    pub closed spec fn spec_numof_blocks(&self) -> usize {
        self.numof_blocks
    }

    pub closed spec fn spec_numof_block_faces(&self) -> usize {
        self.numof_block_faces
    }

    pub closed spec fn spec_image(&self) -> AtlasImage {
        self.image
    }

    /// An atlas over a decoded image, with no block kind registered yet.
    pub fn from_image(filename: String, image: AtlasImage) -> (r: TextureAtlas)
        requires
            image.wf(),
        ensures
            r.wf(),
            r.spec_filename() == filename@,
            r.spec_image() == image,
            r.spec_numof_blocks() == 0,
            r.spec_numof_block_faces() == 0,
            forall|b: BlockId| !r.has_block(b),
    {
        let mut id_texture_map: Vec<Option<BlockUv>> = Vec::new();
        let mut i: usize = 0;
        while i < BLOCK_KINDS
            invariant
                i <= BLOCK_KINDS,
                id_texture_map@.len() == i,
                forall|j: int| 0 <= j < i ==> id_texture_map@[j] is None,
            decreases BLOCK_KINDS - i,
        {
            id_texture_map.push(None);
            i = i + 1;
        }
        TextureAtlas { filename, numof_blocks: 0, numof_block_faces: 0, id_texture_map, image }
    }

    /// An atlas over the PNG image `bytes` read from `filename`, with no
    /// block kind registered yet; `Decode` where the bytes do not decode.
    pub fn load(filename: String, bytes: &Vec<u8>) -> (r: Result<TextureAtlas, AtlasError>)
        ensures
            match decoded_png(bytes@) {
                Some((w, h, px)) => r matches Ok(atlas) && atlas.wf() && atlas.spec_filename()
                    == filename@ && atlas.spec_image().spec_width() == w
                    && atlas.spec_image().spec_height() == h && atlas.spec_image().spec_pixels()
                    == px && atlas.spec_numof_blocks() == 0 && atlas.spec_numof_block_faces() == 0
                    && forall|b: BlockId| !atlas.has_block(b),
                None => r == Err::<TextureAtlas, AtlasError>(AtlasError::Decode),
            },
    {
        match decode_png(bytes.as_slice()) {
            Ok((width, height, pixels)) => {
                let image = AtlasImage { width, height, pixels };
                Ok(TextureAtlas::from_image(filename, image))
            },
            Err(_) => Err(AtlasError::Decode),
        }
    }

    /// Registers `blocks` in order: the kind at position `i` gets column `i`
    /// of `blocks.len()` columns, and each face its row of
    /// `numof_block_faces` rows. A kind listed twice keeps its last column;
    /// kinds not listed keep what they had.
    pub fn with_blocks(self, numof_block_faces: usize, blocks: &Vec<BlockId>) -> (r: Self)
        requires
            self.wf(),
            blocks@.len() <= u32::MAX,
            numof_block_faces <= u32::MAX,
        ensures
            r.wf(),
            r.spec_filename() == self.spec_filename(),
            r.spec_image() == self.spec_image(),
            r.spec_numof_blocks() == blocks@.len(),
            r.spec_numof_block_faces() == numof_block_faces,
            forall|b: BlockId| #[trigger]
                r.spec_uv(b) == if blocks@.contains(b) {
                    Some(
                        column_uv(
                            last_index_of(blocks@, b) as u32,
                            blocks@.len() as u32,
                            numof_block_faces as u32,
                        ),
                    )
                } else {
                    self.spec_uv(b)
                },
    {
        let mut atlas = self;
        atlas.numof_blocks = blocks.len();
        atlas.numof_block_faces = numof_block_faces;
        let cols = blocks.len() as u32;
        let rows = numof_block_faces as u32;
        let mut i: usize = 0;
        while i < blocks.len()
            invariant
                i <= blocks@.len(),
                cols == blocks@.len(),
                rows == numof_block_faces,
                blocks@.len() <= u32::MAX,
                atlas.wf(),
                atlas.filename@ == self.filename@,
                atlas.image == self.image,
                atlas.numof_blocks == blocks@.len(),
                atlas.numof_block_faces == numof_block_faces,
                forall|b: BlockId| #[trigger]
                    atlas.spec_uv(b) == if blocks@.take(i as int).contains(b) {
                        Some(
                            column_uv(
                                last_index_of(blocks@.take(i as int), b) as u32,
                                cols,
                                rows,
                            ),
                        )
                    } else {
                        self.spec_uv(b)
                    },
            decreases blocks@.len() - i,
        {
            let block = blocks[i];
            let uv = make_column_uv(i as u32, cols, rows);
            let ghost before = atlas;
            atlas.id_texture_map.set(block.index(), Some(uv));
            proof {
                let prev = blocks@.take(i as int);
                let next = blocks@.take(i as int + 1);
                assert(next.drop_last() == prev);
                assert(next.last() == block);
                assert forall|b: BlockId| #[trigger]
                    atlas.spec_uv(b) == if next.contains(b) {
                        Some(column_uv(last_index_of(next, b) as u32, cols, rows))
                    } else {
                        self.spec_uv(b)
                    } by {
                    if b == block {
                        assert(next.contains(b)) by {
                            assert(next[i as int] == b);
                        }
                        assert(last_index_of(next, b) == i);
                    } else {
                        lemma_index_injective(b, block);
                        assert(atlas.spec_uv(b) == before.spec_uv(b));
                        assert(last_index_of(next, b) == last_index_of(prev, b));
                        assert(next.contains(b) == prev.contains(b)) by {
                            if next.contains(b) {
                                let k = choose|k: int| 0 <= k < next.len() && next[k] == b;
                                assert(prev[k] == b);
                            }
                            if prev.contains(b) {
                                let k = choose|k: int| 0 <= k < prev.len() && prev[k] == b;
                                assert(next[k] == b);
                            }
                        }
                    }
                }
            }
            i = i + 1;
        }
        assert(blocks@.take(blocks@.len() as int) == blocks@);
        atlas
    }

    pub fn get_texture(&self) -> (r: &AtlasImage)
        ensures
            *r == self.spec_image(),
    {
        &self.image
    }

    /// The coordinates registered for `block`. Asking for a kind that was
    /// never registered is a configuration error, ruled out by `requires`.
    pub fn get_block_uv(&self, block: BlockId) -> (r: &BlockUv)
        requires
            self.wf(),
            self.has_block(block),
        ensures
            Some(*r) == self.spec_uv(block),
    {
        self.id_texture_map[block.index()].as_ref().unwrap()
    }

    /// The coordinates registered for `block`, or `None` where it was never
    /// registered.
    pub fn find_block_uv(&self, block: BlockId) -> (r: Option<&BlockUv>)
        requires
            self.wf(),
        ensures
            r is Some <==> self.has_block(block),
            r matches Some(uv) ==> Some(*uv) == self.spec_uv(block),
    {
        self.id_texture_map[block.index()].as_ref()
    }

    /// The name of the image file the atlas was loaded from.
    pub fn filename(&self) -> (r: &String)
        ensures
            r@ == self.spec_filename(),
    {
        &self.filename
    }

    pub fn numof_blocks(&self) -> (r: usize)
        ensures
            r == self.spec_numof_blocks(),
    {
        self.numof_blocks
    }

    pub fn numof_block_faces(&self) -> (r: usize)
        ensures
            r == self.spec_numof_block_faces(),
    {
        self.numof_block_faces
    }
}

} // verus!

use voxel_world::block::BlockId;
use voxel_world::texture_atlas::{AtlasImage, Face, Fraction, TextureAtlas, TextureAtlasCoords};

fn frac(num: u32, den: u32) -> Fraction {
    Fraction { num, den }
}

fn coords(u: (u32, u32), v: (u32, u32)) -> TextureAtlasCoords {
    TextureAtlasCoords::new(frac(u.0, u.1), frac(v.0, v.1))
}

fn blank_atlas() -> TextureAtlas {
    let image = AtlasImage::from_rgba(2, 3, vec![0u8; 24]).unwrap();
    TextureAtlas::from_image("blocks.png".to_string(), image)
}

#[test]
fn three_block_atlas() {
    let atlas = blank_atlas().with_blocks(6, &vec![BlockId::Dirt, BlockId::Grass, BlockId::Stone]);
    let uv = atlas.get_block_uv(BlockId::Grass);
    assert_eq!(
        uv.top,
        [coords((2, 3), (0, 6)), coords((2, 3), (1, 6)), coords((1, 3), (1, 6)), coords((1, 3), (0, 6))]
    );
    let us: Vec<f64> = uv.top.iter().map(|c| c.uv_x.num as f64 / c.uv_x.den as f64).collect();
    let vs: Vec<f64> = uv.top.iter().map(|c| c.uv_y.num as f64 / c.uv_y.den as f64).collect();
    let (umin, umax) = (us.iter().cloned().fold(1.0, f64::min), us.iter().cloned().fold(0.0, f64::max));
    let (vmin, vmax) = (vs.iter().cloned().fold(1.0, f64::min), vs.iter().cloned().fold(0.0, f64::max));
    assert_eq!((umin, umax), (1.0 / 3.0, 2.0 / 3.0));
    assert_eq!((vmin, vmax), (0.0, 1.0 / 6.0));
    assert_eq!(atlas.numof_blocks(), 3);
    assert_eq!(atlas.numof_block_faces(), 6);
}

#[test]
fn face_rows_in_fixed_order() {
    let atlas = blank_atlas().with_blocks(6, &vec![BlockId::Dirt, BlockId::Grass, BlockId::Stone]);
    let uv = atlas.get_block_uv(BlockId::Stone);
    let rows = [
        (Face::Top, 0),
        (Face::Left, 1),
        (Face::Front, 2),
        (Face::Right, 3),
        (Face::Bottom, 4),
        (Face::Back, 5),
    ];
    for (face, row) in rows {
        assert_eq!(face.row(), row);
        assert_eq!(
            *uv.face(face),
            [
                coords((3, 3), (row, 6)),
                coords((3, 3), (row + 1, 6)),
                coords((2, 3), (row + 1, 6)),
                coords((2, 3), (row, 6)),
            ]
        );
    }
    assert_eq!(uv.back[1], coords((3, 3), (6, 6)));
    assert_eq!(uv.bottom[3], coords((2, 3), (4, 6)));
}

#[test]
fn first_column_starts_at_zero() {
    let atlas = blank_atlas().with_blocks(6, &vec![BlockId::Dirt, BlockId::Grass, BlockId::Stone]);
    let uv = atlas.get_block_uv(BlockId::Dirt);
    assert_eq!(uv.left[2], coords((0, 3), (2, 6)));
    assert_eq!(uv.left[0], coords((1, 3), (1, 6)));
}

#[test]
fn repeated_kind_keeps_last_column() {
    let atlas = blank_atlas().with_blocks(6, &vec![BlockId::Sand, BlockId::Water, BlockId::Sand]);
    let uv = atlas.get_block_uv(BlockId::Sand);
    assert_eq!(uv.top[3], coords((2, 3), (0, 6)));
    let uv = atlas.get_block_uv(BlockId::Water);
    assert_eq!(uv.top[3], coords((1, 3), (0, 6)));
}

#[test]
fn unregistered_kind_has_no_coordinates() {
    let atlas = blank_atlas().with_blocks(6, &vec![BlockId::Dirt]);
    assert!(atlas.find_block_uv(BlockId::Dirt).is_some());
    assert!(atlas.find_block_uv(BlockId::Water).is_none());
    assert!(atlas.find_block_uv(BlockId::Air).is_none());
    let empty = blank_atlas();
    assert!(empty.find_block_uv(BlockId::Dirt).is_none());
    assert_eq!(empty.numof_blocks(), 0);
}

#[test]
fn atlas_keeps_image_and_name() {
    let atlas = blank_atlas();
    assert_eq!(atlas.filename(), "blocks.png");
    assert_eq!(atlas.get_texture().width(), 2);
    assert_eq!(atlas.get_texture().height(), 3);
    assert_eq!(atlas.get_texture().pixels().len(), 24);
}

#[test]
fn image_buffer_must_match_dimensions() {
    assert!(AtlasImage::from_rgba(2, 3, vec![0u8; 23]).is_none());
    assert!(AtlasImage::from_rgba(2, 3, vec![0u8; 25]).is_none());
    assert!(AtlasImage::from_rgba(0, 0, vec![]).is_some());
    assert!(AtlasImage::from_rgba(u32::MAX, u32::MAX, vec![]).is_none());
}

fn png_bytes(width: u32, height: u32, pixels: Vec<u8>) -> Vec<u8> {
    let img = image::RgbaImage::from_raw(width, height, pixels).unwrap();
    let mut out = std::io::Cursor::new(Vec::new());
    img.write_to(&mut out, image::ImageOutputFormat::Png).unwrap();
    out.into_inner()
}

#[test]
fn png_is_decoded_into_rgba() {
    let pixels: Vec<u8> = vec![10, 20, 30, 255, 40, 50, 60, 128, 1, 2, 3, 4, 5, 6, 7, 8, 9, 10, 11, 12, 200, 100, 50, 0];
    let bytes = png_bytes(3, 2, pixels.clone());
    let atlas = TextureAtlas::load("blocks.png".to_string(), &bytes).unwrap();
    assert_eq!(atlas.get_texture().width(), 3);
    assert_eq!(atlas.get_texture().height(), 2);
    assert_eq!(*atlas.get_texture().pixels(), pixels);
    assert_ne!(*atlas.get_texture().pixels(), bytes);
    assert_eq!(atlas.filename(), "blocks.png");
    assert_eq!(atlas.numof_blocks(), 0);
    assert!(atlas.find_block_uv(BlockId::Dirt).is_none());
}

#[test]
fn bytes_that_are_not_png_are_refused() {
    let err = TextureAtlas::load("blocks.png".to_string(), &vec![1u8, 2, 3, 4, 5]).err();
    assert_eq!(err, Some(voxel_world::texture_atlas::AtlasError::Decode));
    let err = TextureAtlas::load("empty.png".to_string(), &vec![]).err();
    assert_eq!(err, Some(voxel_world::texture_atlas::AtlasError::Decode));
}

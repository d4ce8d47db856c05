use mc_gen::block::{Block, BlockMaterial, Color, TreeSpecies};
use mc_gen::error::PaletteError;
use mc_gen::palette::{bits_per_index, build_palette, palette_decode, palette_encode};

const STONE: Block = Block::Full(BlockMaterial::Stone);

fn many_blocks(count: usize, kinds: u16) -> Vec<Block> {
    (0..count)
        .map(|i| {
            let kind = if i < kinds as usize { i } else { (i * 7 + i / 3) % kinds as usize };
            Block::Other(kind as u16)
        })
        .collect()
}

#[test]
fn the_width_is_the_least_that_tells_the_palette_apart() {
    assert_eq!(bits_per_index(0), 4);
    assert_eq!(bits_per_index(1), 4);
    assert_eq!(bits_per_index(2), 4);
    assert_eq!(bits_per_index(15), 4);
    assert_eq!(bits_per_index(16), 4);
    assert_eq!(bits_per_index(17), 5);
    assert_eq!(bits_per_index(32), 5);
    assert_eq!(bits_per_index(33), 6);
    assert_eq!(bits_per_index(64), 6);
    assert_eq!(bits_per_index(65), 7);
    assert_eq!(bits_per_index(256), 8);
    assert_eq!(bits_per_index(257), 9);
    assert_eq!(bits_per_index(4096), 12);
    assert_eq!(bits_per_index(4097), 13);
    assert_eq!(bits_per_index(1 << 31), 31);
    assert_eq!(bits_per_index((1 << 31) + 1), 32);
}

#[test]
fn the_width_is_minimal_for_every_small_palette() {
    for len in 1usize..=5000 {
        let bits = bits_per_index(len);
        assert!(bits >= 4);
        assert!(len <= 1usize << bits, "{} does not fit {} bits", len, bits);
        assert!(bits == 4 || len > 1usize << (bits - 1), "{} fits fewer than {} bits", len, bits);
    }
}

#[test]
fn the_palette_starts_with_air_and_keeps_first_occurrences() {
    assert_eq!(build_palette(&Vec::new()), vec![Block::Air]);
    assert_eq!(build_palette(&vec![Block::Air, Block::Air]), vec![Block::Air]);
    assert_eq!(build_palette(&vec![STONE]), vec![Block::Air, STONE]);
    assert_eq!(
        build_palette(&vec![STONE, Block::Dirt, STONE, Block::Air, Block::Sand, Block::Dirt]),
        vec![Block::Air, STONE, Block::Dirt, Block::Sand]
    );
}

#[test]
fn indices_are_packed_from_the_lowest_bits() {
    let blocks = vec![STONE, Block::Dirt, Block::Air, STONE];
    let (palette, data) = palette_encode(&blocks);
    assert_eq!(palette, vec![Block::Air, STONE, Block::Dirt]);
    assert_eq!(data, vec![0x1021]);
}

#[test]
fn sixteen_indices_of_four_bits_fill_a_word() {
    let blocks: Vec<Block> = (0..17).map(|i| if i % 2 == 0 { STONE } else { Block::Air }).collect();
    let (palette, data) = palette_encode(&blocks);
    assert_eq!(palette, vec![Block::Air, STONE]);
    assert_eq!(data, vec![0x0101_0101_0101_0101, 0x1]);
    let sixteen: Vec<Block> = blocks[..16].to_vec();
    assert_eq!(palette_encode(&sixteen).1, vec![0x0101_0101_0101_0101]);
}

#[test]
fn the_highest_bit_of_a_word_is_the_sign_of_the_stored_number() {
    let mut blocks = vec![Block::Air; 16];
    let kinds: Vec<Block> = (0..15).map(Block::Other).collect();
    let mut all = kinds.clone();
    all.append(&mut blocks);
    all[30] = Block::Other(14);
    let (palette, data) = palette_encode(&all);
    assert_eq!(palette.len(), 16);
    assert_eq!(palette[15], Block::Other(14));
    assert_eq!(data.len(), 2);
    assert_eq!(data[0] as u64, 0x0fed_cba9_8765_4321);
    assert_eq!(data[1] as u64, 0x0f00_0000_0000_0000);
    let mut sixteenth = vec![Block::Air; 15];
    sixteenth.push(Block::Other(0));
    let mut wide = kinds.clone();
    wide.append(&mut sixteenth);
    wide[30] = Block::Other(14);
    wide[15] = Block::Other(14);
    let (_, packed) = palette_encode(&wide);
    assert_eq!(packed[0] as u64, 0xffed_cba9_8765_4321);
    assert!(packed[0] < 0);
    assert_eq!(palette_decode(&palette, &packed, wide.len()), Ok(wide));
}

#[test]
fn an_index_never_straddles_two_words() {
    let kinds: Vec<Block> = (0..16).map(Block::Other).collect();
    let (palette, data) = palette_encode(&kinds);
    assert_eq!(palette.len(), 17);
    assert_eq!(bits_per_index(palette.len()), 5);
    assert_eq!(data.len(), 2);
    let mut first: u64 = 0;
    for i in 0..12u64 {
        first |= (i + 1) << (5 * i);
    }
    assert_eq!(data[0] as u64, first);
    assert_eq!(data[0] as u64 >> 60, 0);
    assert_eq!(data[1] as u64, 13 | 14 << 5 | 15 << 10 | 16 << 15);
}

#[test]
fn a_full_section_takes_the_words_of_the_format() {
    for (kinds, bits, words) in
        [(1u16, 4usize, 256usize), (15, 4, 256), (16, 5, 342), (31, 5, 342), (32, 6, 410), (255, 8, 512), (256, 9, 586), (2000, 11, 820), (4095, 12, 820)]
    {
        let blocks = many_blocks(4096, kinds);
        let (palette, data) = palette_encode(&blocks);
        assert_eq!(palette.len(), kinds as usize + 1);
        assert_eq!(bits_per_index(palette.len()), bits);
        assert_eq!(data.len(), words, "{} kinds", kinds);
        assert_eq!(palette_decode(&palette, &data, 4096), Ok(blocks));
    }
}

#[test]
fn a_section_of_4096_kinds_has_no_word_too_many() {
    let blocks: Vec<Block> = (0..4096).map(|i| Block::Other(i as u16)).collect();
    let (palette, data) = palette_encode(&blocks);
    assert_eq!(palette.len(), 4097);
    assert_eq!(bits_per_index(palette.len()), 13);
    assert_eq!(data.len(), 1024);
    assert_eq!(palette_decode(&palette, &data, 4096), Ok(blocks));
}

#[test]
fn decoding_gives_back_what_was_encoded() {
    for count in [0usize, 1, 2, 15, 16, 17, 63, 64, 65, 1000, 4096, 5000] {
        for kinds in [1u16, 2, 15, 16, 17, 100, 300] {
            let blocks = many_blocks(count, kinds);
            let (palette, data) = palette_encode(&blocks);
            assert_eq!(palette[0], Block::Air);
            assert_eq!(palette.len(), 1 + count.min(kinds as usize));
            assert_eq!(palette_decode(&palette, &data, count), Ok(blocks), "{} of {}", count, kinds);
        }
    }
}

#[test]
fn nothing_encodes_to_the_palette_of_air_alone() {
    let (palette, data) = palette_encode(&Vec::new());
    assert_eq!(palette, vec![Block::Air]);
    assert_eq!(data, Vec::<i64>::new());
    assert_eq!(palette_decode(&palette, &data, 0), Ok(Vec::new()));
}

#[test]
fn decoding_reads_the_words_of_the_format() {
    let palette = vec![Block::Air, STONE, Block::Wool(Color::Red)];
    assert_eq!(
        palette_decode(&palette, &vec![0x0000_0000_0000_0210], 4),
        Ok(vec![Block::Air, STONE, Block::Wool(Color::Red), Block::Air])
    );
    assert_eq!(palette_decode(&palette, &vec![0x21, 0x7777], 2), Ok(vec![STONE, Block::Wool(Color::Red)]));
    assert_eq!(palette_decode(&palette, &vec![-1], 0), Ok(Vec::new()));
}

#[test]
fn decoding_passes_over_the_bits_that_hold_no_index() {
    let palette: Vec<Block> = (0..17).map(|i| if i == 0 { Block::Air } else { Block::Other(i) }).collect();
    let word = (0xfu64 << 60 | 3 << 5 | 2) as i64;
    let mut expected = vec![Block::Other(2), Block::Other(3)];
    expected.extend(vec![Block::Air; 10]);
    expected.push(Block::Other(5));
    assert_eq!(palette_decode(&palette, &vec![word, 5], 13), Ok(expected));
}

#[test]
fn too_few_words_are_an_error() {
    let palette = vec![Block::Air, STONE];
    assert_eq!(palette_decode(&palette, &Vec::new(), 1), Err(PaletteError::TooFewWords));
    assert_eq!(palette_decode(&palette, &vec![0], 16), Ok(vec![Block::Air; 16]));
    assert_eq!(palette_decode(&palette, &vec![0], 17), Err(PaletteError::TooFewWords));
    assert_eq!(palette_decode(&palette, &vec![0; 255], 4096), Err(PaletteError::TooFewWords));
    assert_eq!(palette_decode(&palette, &vec![0; 256], 4096), Ok(vec![Block::Air; 4096]));
}

#[test]
fn an_index_past_the_palette_is_an_error() {
    let palette = vec![Block::Air, STONE];
    assert_eq!(palette_decode(&palette, &vec![0x1], 1), Ok(vec![STONE]));
    assert_eq!(palette_decode(&palette, &vec![0x2], 1), Err(PaletteError::IndexOutOfPalette));
    assert_eq!(palette_decode(&palette, &vec![0x20], 1), Ok(vec![Block::Air]));
    assert_eq!(palette_decode(&palette, &vec![0x20], 2), Err(PaletteError::IndexOutOfPalette));
    assert_eq!(palette_decode(&Vec::new(), &vec![0], 1), Err(PaletteError::IndexOutOfPalette));
    assert_eq!(palette_decode(&Vec::new(), &Vec::new(), 0), Ok(Vec::new()));
    assert_eq!(palette_decode(&palette, &Vec::new(), 1), Err(PaletteError::TooFewWords));
}

#[test]
fn oak_planks_and_logs_share_no_index() {
    let planks = Block::Full(BlockMaterial::Wood(TreeSpecies::Oak));
    let blocks = vec![planks, STONE, planks, planks];
    let (palette, data) = palette_encode(&blocks);
    assert_eq!(palette, vec![Block::Air, planks, STONE]);
    assert_eq!(data, vec![0x1121]);
}

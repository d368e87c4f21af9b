use pathtracer::render::{quantize, row_seed, Film, COLOR_DEPTH, SAMPLE_COUNT, SCALE_BITS};
use pathtracer::scalar::Scalar;

fn scalar(x: f32) -> Scalar {
    Scalar::from_bits(x.to_bits())
}

#[test]
fn the_constants_of_the_renderer() {
    assert_eq!(COLOR_DEPTH, 3);
    assert_eq!(SAMPLE_COUNT, 10);
    assert_eq!(SCALE_BITS, 255.99f32.to_bits());
}

#[test]
fn quantize_cuts_off_and_does_not_round() {
    assert_eq!(quantize(scalar(0.0)), 0);
    assert_eq!(quantize(scalar(0.999_999)), 0);
    assert_eq!(quantize(scalar(1.0)), 1);
    assert_eq!(quantize(scalar(1.999_999)), 1);
    assert_eq!(quantize(scalar(127.995)), 127);
    assert_eq!(quantize(scalar(254.999_98)), 254);
    assert_eq!(quantize(scalar(255.0)), 255);
    assert_eq!(quantize(scalar(255.99)), 255);
}

#[test]
fn quantize_of_a_scaled_channel() {
    let scale = f32::from_bits(SCALE_BITS);
    assert_eq!(quantize(scalar(scale * 1.0)), 255);
    assert_eq!(quantize(scalar(scale * 0.5)), 127);
    assert_eq!(quantize(scalar(scale * 0.25f32.sqrt())), 127);
    assert_eq!(quantize(scalar(scale * 0.0)), 0);
    assert_eq!(quantize(scalar(scale * 0.003_9)), 0);
    assert_eq!(quantize(scalar(scale * 0.004)), 1);
}

#[test]
fn quantize_holds_to_the_range_of_a_byte() {
    assert_eq!(quantize(scalar(256.0)), 255);
    assert_eq!(quantize(scalar(1.0e9)), 255);
    assert_eq!(quantize(scalar(f32::MAX)), 255);
    assert_eq!(quantize(scalar(f32::INFINITY)), 255);
    assert_eq!(quantize(scalar(-0.0)), 0);
    assert_eq!(quantize(scalar(-0.5)), 0);
    assert_eq!(quantize(scalar(-3.0)), 0);
    assert_eq!(quantize(scalar(f32::NEG_INFINITY)), 0);
    assert_eq!(quantize(scalar(f32::NAN)), 0);
    assert_eq!(quantize(Scalar::from_bits(0xffc0_0000)), 0);
    assert_eq!(quantize(Scalar::from_bits(0x0000_0001)), 0);
}

#[test]
fn quantize_agrees_with_the_machine() {
    let mut state: u32 = 0x2545_f491;
    for _ in 0..200_000 {
        state ^= state << 13;
        state ^= state >> 17;
        state ^= state << 5;
        assert_eq!(quantize(Scalar::from_bits(state)), f32::from_bits(state) as u8, "{:#x}", state);
    }
    let mut x: f32 = 0.0;
    while x < 260.0 {
        assert_eq!(quantize(scalar(x)), x as u8, "{}", x);
        assert_eq!(quantize(scalar(-x)), (-x) as u8, "{}", -x);
        x += 0.031_25 + x * 0.000_123;
    }
    for byte in 0..=255u32 {
        let x = byte as f32;
        assert_eq!(quantize(scalar(x)) as u32, byte);
        let below = f32::from_bits(x.to_bits().wrapping_sub(1));
        if byte > 0 {
            assert_eq!(quantize(scalar(below)) as u32, byte - 1);
        }
    }
}

#[test]
fn film_refuses_an_empty_picture() {
    assert!(Film::new(0, 100).is_none());
    assert!(Film::new(200, 0).is_none());
    assert!(Film::new(0, 0).is_none());
}

#[test]
fn film_refuses_a_picture_without_a_buffer() {
    assert!(Film::new(usize::MAX, 1).is_none());
    assert!(Film::new(usize::MAX / 3 + 1, 1).is_none());
    assert!(Film::new(usize::MAX / 3, 2).is_none());
    assert!(Film::new(1, usize::MAX).is_none());
    assert!(Film::new(usize::MAX / 3, 1).is_some());
}

#[test]
fn film_has_three_bytes_to_a_pixel() {
    let film = Film::new(200, 100).unwrap();
    assert_eq!(film.width(), 200);
    assert_eq!(film.height(), 100);
    assert_eq!(film.row_len(), 600);
    assert_eq!(film.buffer_len(), 60_000);
}

#[test]
fn film_holds_the_top_row_first() {
    let film = Film::new(200, 100).unwrap();
    assert_eq!(film.offset(0, 99), 0);
    assert_eq!(film.offset(1, 99), 3);
    assert_eq!(film.offset(199, 99), 597);
    assert_eq!(film.offset(0, 98), 600);
    assert_eq!(film.offset(0, 0), 59_400);
    assert_eq!(film.offset(199, 0), 59_997);
    assert_eq!(film.row_of_chunk(0), 99);
    assert_eq!(film.row_of_chunk(99), 0);
    assert_eq!(film.row_of_chunk(40), 59);
}

#[test]
fn film_pixels_tile_the_buffer() {
    let film = Film::new(7, 5).unwrap();
    let mut owner = vec![0u32; film.buffer_len()];
    for y in 0..film.height() {
        for x in 0..film.width() {
            let at = film.offset(x, y);
            for channel in 0..COLOR_DEPTH {
                owner[at + channel] += 1;
            }
        }
    }
    assert!(owner.iter().all(|&n| n == 1));
}

#[test]
fn film_rows_are_the_chunks_of_the_buffer() {
    let film = Film::new(7, 5).unwrap();
    for chunk in 0..film.height() {
        let y = film.row_of_chunk(chunk);
        for x in 0..film.width() {
            assert_eq!(film.offset(x, y), chunk * film.row_len() + COLOR_DEPTH * x);
        }
    }
}

#[test]
fn film_bytes_are_channels() {
    let film = Film::new(7, 5).unwrap();
    for i in 0..film.buffer_len() {
        let x = (i / 3) % film.width();
        let y = film.height() - 1 - (i / 3) / film.width();
        assert_eq!(film.offset(x, y) + i % 3, i);
    }
}

#[test]
fn row_seed_adds_the_row_to_the_base() {
    let base = u128::from_le_bytes([1, 2, 3, 4, 5, 6, 7, 8, 9, 10, 11, 12, 13, 14, 15, 16]);
    assert_eq!(row_seed(base, 0), base);
    assert_eq!(row_seed(base, 1), base + 1);
    assert_eq!(
        row_seed(base, 255).to_le_bytes(),
        [0, 3, 3, 4, 5, 6, 7, 8, 9, 10, 11, 12, 13, 14, 15, 16]
    );
    assert_eq!(row_seed(7, u64::MAX), 7 + u64::MAX as u128);
}

#[test]
fn row_seed_wraps_round() {
    assert_eq!(row_seed(u128::MAX, 1), 0);
    assert_eq!(row_seed(u128::MAX, 5), 4);
    assert_eq!(row_seed(u128::MAX - 2, 2), u128::MAX);
}

#[test]
fn row_seeds_of_different_rows_differ() {
    let base = u128::MAX - 50;
    let mut seeds: Vec<u128> = (0..100u64).map(|row| row_seed(base, row)).collect();
    seeds.sort();
    seeds.dedup();
    assert_eq!(seeds.len(), 100);
}

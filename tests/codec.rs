use hilly_sounds::image::RgbaImage;
use hilly_sounds::preset::SpacePreset;
use hilly_sounds::strategy::color::{ColorStrategy, HueColorStrategy, Rgba};
use hilly_sounds::strategy::space::{HilbertSpaceStrategy, LineSpaceStrategy, SpaceStrategyAdapter};
use hilly_sounds::{
    convert_samples, decode_image, encode_image, DecodeError, Decoder, Encoder, SampleConvert,
};

fn rgba(red: u8, green: u8, blue: u8) -> Rgba {
    Rgba { red, green, blue, alpha: 255 }
}

fn line(length: usize) -> SpaceStrategyAdapter<1, 2, LineSpaceStrategy> {
    SpaceStrategyAdapter::new(LineSpaceStrategy::new(length))
}

const CLEAR: Rgba = Rgba { red: 0, green: 0, blue: 0, alpha: 0 };

#[test]
fn line_of_four_end_to_end() {
    let samples = vec![-32768i16, 0, 16384, 32767];
    let encoder = Encoder::new(samples.clone(), HueColorStrategy::default(), line(4));
    let pixels = encoder.into_pixels();
    assert_eq!(
        pixels,
        vec![
            ([0, 0], rgba(255, 0, 0)),
            ([1, 0], rgba(0, 255, 255)),
            ([2, 0], rgba(127, 0, 255)),
            ([3, 0], rgba(255, 0, 0)),
        ]
    );
    let image = encode_image(samples, HueColorStrategy::default(), line(4));
    assert_eq!(image.width(), 4);
    assert_eq!(image.height(), 1);
    assert_eq!(image.get_pixel(2, 0), rgba(127, 0, 255));
    assert!(image.pixels().iter().all(|p| p.alpha == 255));
}

#[test]
fn hilbert_side_two_drops_extra_samples() {
    let samples = vec![1i16, 2, 3, 4, 5, 6];
    let encoder = Encoder::new(samples.clone(), HueColorStrategy::default(), HilbertSpaceStrategy::from_size(2));
    assert_eq!(encoder.size_hint(), (4, Some(4)));
    let pixels = encoder.into_pixels();
    assert_eq!(pixels.len(), 4);
    let hue = HueColorStrategy::default();
    let coords: Vec<[u32; 2]> = pixels.iter().map(|p| p.0).collect();
    assert_eq!(coords, vec![[0, 0], [0, 1], [1, 1], [1, 0]]);
    for (i, p) in pixels.iter().enumerate() {
        assert_eq!(p.1, hue.sample_to_color(samples[i]));
    }
    let image = encode_image(samples.clone(), HueColorStrategy::default(), HilbertSpaceStrategy::from_size(2));
    assert_eq!(image.width(), 2);
    assert_eq!(image.height(), 2);
    assert_eq!(image.pixels().len(), 4);
    assert_eq!(image.get_pixel(0, 1), hue.sample_to_color(2));
    assert_eq!(image.get_pixel(1, 0), hue.sample_to_color(4));
}

#[test]
fn encoder_yields_the_shorter_count() {
    for n in [0usize, 1, 3, 16, 17, 40] {
        for side in [1u32, 2, 4] {
            let samples: Vec<i16> = (0..n).map(|i| (i as i16) * 100).collect();
            let space = HilbertSpaceStrategy::from_size(side);
            let capacity = (side * side) as usize;
            let mut encoder = Encoder::new(samples, HueColorStrategy::default(), space);
            let mut count = 0usize;
            while encoder.next().is_some() {
                count += 1;
            }
            assert_eq!(count, n.min(capacity));
            assert!(encoder.next().is_none());
        }
    }
}

#[test]
fn short_input_leaves_background() {
    let image = encode_image(vec![0i16], HueColorStrategy::default(), HilbertSpaceStrategy::from_size(2));
    assert_eq!(image.get_pixel(0, 0), rgba(0, 255, 255));
    assert_eq!(image.get_pixel(0, 1), CLEAR);
    assert_eq!(image.get_pixel(1, 1), CLEAR);
    assert_eq!(image.get_pixel(1, 0), CLEAR);
    let empty = encode_image(Vec::new(), HueColorStrategy::default(), line(3));
    assert!(empty.pixels().iter().all(|p| *p == CLEAR));
}

#[test]
fn decoder_yields_one_sample_per_index() {
    for side in [1u32, 2, 4, 8] {
        let image = RgbaImage::new(side, side);
        let mut decoder = Decoder::new(image, HueColorStrategy::default(), HilbertSpaceStrategy::from_size(side))
            .unwrap();
        assert_eq!(decoder.size_hint(), ((side * side) as usize, Some((side * side) as usize)));
        let mut count = 0usize;
        while decoder.next().is_some() {
            count += 1;
        }
        assert_eq!(count, (side * side) as usize);
        assert!(decoder.next().is_none());
    }
}

#[test]
fn decoder_reads_along_the_curve() {
    let pixels = vec![rgba(255, 0, 0), rgba(0, 255, 255), rgba(0, 0, 255), rgba(0, 255, 0)];
    let image = RgbaImage::from_pixels(2, 2, pixels).unwrap();
    let samples = decode_image(image, HueColorStrategy::default(), HilbertSpaceStrategy::from_size(2)).unwrap();
    // the curve visits (0,0), (0,1), (1,1), (1,0)
    assert_eq!(samples, vec![-32768, 10922, -10922, 0]);
}

#[test]
fn mismatched_image_is_refused() {
    let image = RgbaImage::new(3, 3);
    let r = Decoder::new(image, HueColorStrategy::default(), HilbertSpaceStrategy::from_size(4));
    assert!(matches!(
        r,
        Err(DecodeError::DimensionMismatch { expected_width: 4, expected_height: 4, width: 3, height: 3 })
    ));
    let r = decode_image(RgbaImage::new(4, 2), HueColorStrategy::default(), HilbertSpaceStrategy::from_size(4));
    assert_eq!(
        r,
        Err(DecodeError::DimensionMismatch { expected_width: 4, expected_height: 4, width: 4, height: 2 })
    );
}

#[test]
fn encode_then_decode_is_close() {
    let samples: Vec<i16> = (0..64).map(|i| ((i * 997) % 60000 - 30000) as i16).collect();
    let space = SpacePreset::Hilbert { size: 8 }.to_strategy().unwrap();
    let image = encode_image(samples.clone(), HueColorStrategy::default(), space);
    let space = SpacePreset::Hilbert { size: 8 }.to_strategy().unwrap();
    let back = decode_image(image, HueColorStrategy::default(), space).unwrap();
    assert_eq!(back.len(), 64);
    for (a, b) in samples.iter().zip(back.iter()) {
        assert!((*a as i32 - *b as i32).abs() <= 43);
    }
}

#[test]
fn image_from_pixels_checks_count() {
    assert!(RgbaImage::from_pixels(2, 2, vec![CLEAR; 3]).is_none());
    assert!(RgbaImage::from_pixels(2, 2, vec![CLEAR; 5]).is_none());
    let mut img = RgbaImage::from_pixels(3, 2, vec![CLEAR; 6]).unwrap();
    img.put_pixel(2, 1, rgba(1, 2, 3));
    assert_eq!(img.pixels()[5], rgba(1, 2, 3));
    assert_eq!(img.get_pixel(2, 1), rgba(1, 2, 3));
}

#[test]
fn samples_convert_to_sixteen_bits() {
    assert_eq!(1234i16.convert_to_i16(), 1234);
    assert_eq!((3 * 65536 + 5i32).convert_to_i16(), 3);
    assert_eq!((-65537i32).convert_to_i16(), -1);
    assert_eq!((-65535i32).convert_to_i16(), 0);
    assert_eq!(i32::MAX.convert_to_i16(), 32767);
    assert_eq!(i32::MIN.convert_to_i16(), -32768);
    assert_eq!(convert_samples(&vec![65536i32, -131072, 7]), vec![1i16, -2, 0]);
}
